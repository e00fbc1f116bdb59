//! Verified core of the playable-bosses plugin: Boss Amiibo tag parsing and
//! mapping validation, the `ui_amiibo_db` record model, and the decision
//! logic of the boss lifecycle helpers.
pub mod tag_id;
pub mod text;
pub mod amiibo;
pub mod amiibo_db;
pub mod bits;
pub mod boss_helpers;
pub mod boss_runtime;
pub mod boss_summon;
pub mod config;
pub mod debug;
pub mod diagnostics;
pub mod preview;
pub mod result_roster;
pub mod summon_observation;
pub mod summon_slots;
