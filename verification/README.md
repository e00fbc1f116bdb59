# playable_bosses

The decision logic of a plugin that lets the boss characters of the game be
played and previewed from Amiibo figures, written in Verus and proved against
its contracts.

- `src/` is the verified library:
  - `tag_id`, `amiibo`, `amiibo_db`: figure ids, the boss mapping file and
    its validation, and the `ui_amiibo_db` rows that are appended for them;
  - `preview`: the figure-viewer session, its routing per boss, the probes,
    the calibration input and the traces;
  - `boss_helpers`, `boss_runtime`: item statuses, trait flags, hidden-host
    latches and per-entry log latches;
  - `boss_summon`, `summon_observation`, `summon_slots`, `result_roster`:
    the Galeem/Dharkon summon bookkeeping, the parent death cleanup and the
    result-screen diagnostics;
  - `diagnostics`, `config`, `debug`, `bits`, `text`: sampling, configuration
    lookup and small helpers.
  The game is read by the plugin; the library takes what was read as plain
  values and says what to do.
- `app/` loads the configuration and mapping files with serde and toml, and
  converts `prc` parameter values to the library's row model.
- `tests/` runs the library on concrete values.
