//! Per-entry runtime flags shared by every playable boss.
use vstd::prelude::*;

verus! {

/// How many fighter entries have boss runtime slots.
pub const MAX_BOSS_ENTRIES: usize = 8;

/// An entry id that indexes a slot: ids past the slots fall back to slot 0.
pub open spec fn spec_sanitize_entry_id(entry_id: usize) -> usize {
    if entry_id < MAX_BOSS_ENTRIES {
        entry_id
    } else {
        0
    }
}

pub fn sanitize_entry_id(entry_id: usize) -> (r: usize)
    ensures
        r == spec_sanitize_entry_id(entry_id),
        r < MAX_BOSS_ENTRIES,
{
    if entry_id < MAX_BOSS_ENTRIES {
        entry_id
    } else {
        0
    }
}

/// Sanitising an id that already indexes a slot keeps it, and sanitising twice
/// is sanitising once.
pub proof fn lemma_sanitize_entry_id_is_idempotent(entry_id: usize)
    ensures
        spec_sanitize_entry_id(spec_sanitize_entry_id(entry_id)) == spec_sanitize_entry_id(
            entry_id,
        ),
        entry_id < MAX_BOSS_ENTRIES ==> spec_sanitize_entry_id(entry_id) == entry_id,
{
}

/// The flags of one boss slot. The controller stick position that goes with
/// them is kept by the plugin, outside this library.
#[derive(Debug, Clone, Copy)]
pub struct BossCommonFlags {
    pub controllable: bool,
    pub stop: bool,
    pub dead: bool,
    pub result_spawned: bool,
    pub exists_public: bool,
    pub fresh_control: bool,
    pub jump_start: bool,
}

impl BossCommonFlags {
    /// A fresh slot: controllable, and nothing else set.
    pub fn new() -> (r: BossCommonFlags)
        ensures
            r.controllable,
            !r.stop,
            !r.dead,
            !r.result_spawned,
            !r.exists_public,
            !r.fresh_control,
            !r.jump_start,
    {
        BossCommonFlags {
            controllable: true,
            stop: false,
            dead: false,
            result_spawned: false,
            exists_public: false,
            fresh_control: false,
            jump_start: false,
        }
    }
}

/// Whether any slot shows its boss publicly.
pub fn any_exists_public(slots: &[BossCommonFlags; 8]) -> (r: bool)
    ensures
        r == exists|i: int| 0 <= i < MAX_BOSS_ENTRIES && #[trigger] slots@[i].exists_public,
{
    let mut index: usize = 0;
    while index < MAX_BOSS_ENTRIES
        invariant
            index <= MAX_BOSS_ENTRIES,
            forall|j: int| 0 <= j < index ==> !#[trigger] slots@[j].exists_public,
        decreases MAX_BOSS_ENTRIES - index,
    {
        if slots[index].exists_public {
            return true;
        }
        index = index + 1;
    }
    false
}

} // verus!
