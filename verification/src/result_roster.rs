//! The result-roster diagnostics: what is read of each fighter entry while a
//! match ends, the signatures of a roster dump and of a tracked helper, and
//! the latches that write each of them once per change. The plugin reads
//! the fighter manager and hands the readings over as plain values.
use crate::bits::{flag_word, flag_word_exec, rotate_left, spec_rotate_left};
use crate::boss_summon::{
    byte_words, result_roster_phase_index, result_roster_text_token,
    spec_result_roster_phase_index, MAX_FIGHTERS,
};
use crate::amiibo_db::mix_all;
use crate::text::{spec_contains, str_contains};
use vstd::prelude::*;
use vstd::string::StringSliceAdditionalSpecFns;

verus! {

/// The number of result-roster phases with a latch of their own.
pub const RESULT_ROSTER_PHASE_COUNT: usize = 8;

/// The number of helper latches: four phases for each boss kind.
pub const RESULT_HELPER_LATCH_COUNT: usize = 8;

/// What was read of one fighter entry for the result roster. The object
/// fields stay at their defaults where the entry has no active object.
#[derive(Debug, Clone, Copy, PartialEq, Eq, Structural)]
pub struct ResultRosterRecord {
    pub present: bool,
    pub entry: usize,
    pub current_object_id: u64,
    pub active: bool,
    pub fighter_kind: i32,
    pub status: i32,
    pub operation_cpu: bool,
    pub fighter_category: u64,
    pub summon_boss_id: u64,
    pub team: u64,
    pub team_owner_id: u64,
    pub stock: u64,
    pub dead_count: u64,
    pub rebirth: bool,
    pub dead_status: bool,
    pub standby_status: bool,
    pub hidden_host: bool,
    pub fighter_num: u64,
    pub sub_fighter_flag: i8,
}

impl ResultRosterRecord {
    pub open spec fn spec_empty(entry: usize) -> ResultRosterRecord {
        ResultRosterRecord {
            present: false,
            entry,
            current_object_id: 0,
            active: false,
            fighter_kind: -1i32,
            status: -1i32,
            operation_cpu: false,
            fighter_category: 0,
            summon_boss_id: 0,
            team: 0,
            team_owner_id: 0,
            stock: 0,
            dead_count: 0,
            rebirth: false,
            dead_status: false,
            standby_status: false,
            hidden_host: false,
            fighter_num: 0,
            sub_fighter_flag: -1i8,
        }
    }

    /// Nothing read of the entry.
    pub fn empty(entry: usize) -> (r: ResultRosterRecord)
        ensures
            r == ResultRosterRecord::spec_empty(entry),
    {
        ResultRosterRecord {
            present: false,
            entry,
            current_object_id: 0,
            active: false,
            fighter_kind: -1,
            status: -1,
            operation_cpu: false,
            fighter_category: 0,
            summon_boss_id: 0,
            team: 0,
            team_owner_id: 0,
            stock: 0,
            dead_count: 0,
            rebirth: false,
            dead_status: false,
            standby_status: false,
            hidden_host: false,
            fighter_num: 0,
            sub_fighter_flag: -1,
        }
    }

    /// The signature of the record: each field rotated to a place of its
    /// own and mixed in.
    pub open spec fn spec_signature(self) -> u64 {
        flag_word(self.present) ^ spec_rotate_left(self.current_object_id, 7) ^ spec_rotate_left(
            flag_word(self.active),
            13,
        ) ^ spec_rotate_left(self.fighter_kind as u32 as u64, 17) ^ spec_rotate_left(
            self.status as u32 as u64,
            23,
        ) ^ spec_rotate_left(flag_word(self.operation_cpu), 29) ^ spec_rotate_left(
            self.fighter_category,
            31,
        ) ^ spec_rotate_left(self.summon_boss_id, 37) ^ spec_rotate_left(self.team, 41)
            ^ spec_rotate_left(self.team_owner_id, 47) ^ spec_rotate_left(self.stock, 3)
            ^ spec_rotate_left(self.dead_count, 11) ^ spec_rotate_left(flag_word(self.rebirth), 19)
            ^ spec_rotate_left(flag_word(self.dead_status), 53) ^ spec_rotate_left(
            flag_word(self.standby_status),
            59,
        ) ^ spec_rotate_left(flag_word(self.hidden_host), 5) ^ spec_rotate_left(
            self.fighter_num,
            43,
        ) ^ spec_rotate_left(self.sub_fighter_flag as u8 as u64, 59)
    }

    pub fn signature(&self) -> (r: u64)
        ensures
            r == self.spec_signature(),
    {
        flag_word_exec(self.present) ^ rotate_left(self.current_object_id, 7) ^ rotate_left(
            flag_word_exec(self.active),
            13,
        ) ^ rotate_left(self.fighter_kind as u32 as u64, 17) ^ rotate_left(
            self.status as u32 as u64,
            23,
        ) ^ rotate_left(flag_word_exec(self.operation_cpu), 29) ^ rotate_left(
            self.fighter_category,
            31,
        ) ^ rotate_left(self.summon_boss_id, 37) ^ rotate_left(self.team, 41) ^ rotate_left(
            self.team_owner_id,
            47,
        ) ^ rotate_left(self.stock, 3) ^ rotate_left(self.dead_count, 11) ^ rotate_left(
            flag_word_exec(self.rebirth),
            19,
        ) ^ rotate_left(flag_word_exec(self.dead_status), 53) ^ rotate_left(
            flag_word_exec(self.standby_status),
            59,
        ) ^ rotate_left(flag_word_exec(self.hidden_host), 5) ^ rotate_left(self.fighter_num, 43)
            ^ rotate_left(self.sub_fighter_flag as u8 as u64, 59)
    }
}

/// The roster signature: `base`, with the signature of each of the first
/// `n` records rotated by seven bits per entry and mixed in.
pub open spec fn spec_records_signature(base: u64, records: Seq<ResultRosterRecord>, n: int) -> u64
    decreases n,
{
    if n <= 0 {
        base
    } else {
        spec_records_signature(base, records, n - 1) ^ spec_rotate_left(
            records[n - 1].spec_signature(),
            ((n - 1) * 7) as u32,
        )
    }
}

/// The signature that starts a roster dump: the phase's token, the number
/// of fighters and the number of entries.
pub open spec fn spec_roster_base(phase: Seq<u8>, total: i32, entry_count: i32) -> u64 {
    mix_all(byte_words(phase)) ^ spec_rotate_left(total as u64, 7) ^ spec_rotate_left(
        entry_count as u64,
        17,
    )
}

/// The signature of a result-roster dump of all entries.
pub fn result_roster_signature(
    phase: &str,
    total: i32,
    entry_count: i32,
    records: &[ResultRosterRecord; 8],
) -> (r: u64)
    ensures
        r == spec_records_signature(
            spec_roster_base(phase.spec_bytes(), total, entry_count),
            records@,
            MAX_FIGHTERS as int,
        ),
{
    let mut signature = result_roster_text_token(phase) ^ rotate_left(total as u64, 7)
        ^ rotate_left(entry_count as u64, 17);
    let ghost base = signature;
    let mut entry: usize = 0;
    while entry < MAX_FIGHTERS
        invariant
            entry <= MAX_FIGHTERS,
            base == spec_roster_base(phase.spec_bytes(), total, entry_count),
            signature == spec_records_signature(base, records@, entry as int),
        decreases MAX_FIGHTERS - entry,
    {
        let word = records[entry].signature();
        signature = signature ^ rotate_left(word, (entry * 7) as u32);
        entry = entry + 1;
    }
    signature
}

/// The latch of a tracked helper: four phases per boss kind, Dharkon's
/// after Galeem's; phases past the fourth share the fourth.
pub open spec fn spec_helper_latch_index(phase: Seq<char>, helper_kind: Seq<char>) -> usize {
    let kind_index: usize = if spec_contains(helper_kind, "dharkon"@) {
        1
    } else {
        0
    };
    let phase_index = spec_result_roster_phase_index(phase);
    (kind_index * 4 + if phase_index < 3 {
        phase_index
    } else {
        3
    }) as usize
}

pub fn helper_latch_index(phase: &str, helper_kind: &str) -> (r: usize)
    ensures
        r == spec_helper_latch_index(phase@, helper_kind@),
        r < RESULT_HELPER_LATCH_COUNT,
{
    let kind_index: usize = if str_contains(helper_kind, "dharkon") {
        1
    } else {
        0
    };
    let phase_index = result_roster_phase_index(phase);
    let clamped = if phase_index < 3 {
        phase_index
    } else {
        3
    };
    kind_index * 4 + clamped
}

/// The signature of a helper line. `object` is the helper's fighter kind
/// and status where its object could be read, `None` where it could not.
pub open spec fn spec_helper_signature(
    phase: Seq<u8>,
    helper_kind: Seq<u8>,
    object_id: u32,
    object: Option<(i32, i32)>,
) -> u64 {
    let (kind, status) = match object {
        Some(read) => read,
        None => (-1i32, -1i32),
    };
    mix_all(byte_words(phase)) ^ spec_rotate_left(mix_all(byte_words(helper_kind)), 17)
        ^ spec_rotate_left(object_id as u64, 31) ^ (flag_word(object is Some) << 47u64)
        ^ spec_rotate_left(kind as u32 as u64, 7) ^ spec_rotate_left(status as u32 as u64, 13)
}

pub fn helper_signature(
    phase: &str,
    helper_kind: &str,
    object_id: u32,
    object: Option<(i32, i32)>,
) -> (r: u64)
    ensures
        r == spec_helper_signature(phase.spec_bytes(), helper_kind.spec_bytes(), object_id, object),
{
    let (active, kind, status) = match object {
        Some((k, s)) => (true, k, s),
        None => (false, -1i32, -1i32),
    };
    result_roster_text_token(phase) ^ rotate_left(result_roster_text_token(helper_kind), 17)
        ^ rotate_left(object_id as u64, 31) ^ (flag_word_exec(active) << 47u64) ^ rotate_left(
        kind as u32 as u64,
        7,
    ) ^ rotate_left(status as u32 as u64, 13)
}

/// The last signature written for each roster phase and each helper latch.
pub struct ResultRosterLatches {
    pub roster: [u64; 8],
    pub helper: [u64; 8],
}

impl ResultRosterLatches {
    /// Latches that have written nothing: every slot holds `u64::MAX`.
    pub fn new() -> (r: ResultRosterLatches)
        ensures
            forall|i: int|
                0 <= i < 8 ==> #[trigger] r.roster@[i] == u64::MAX && r.helper@[i] == u64::MAX,
    {
        ResultRosterLatches { roster: [u64::MAX; 8], helper: [u64::MAX; 8] }
    }

    /// Forgets everything written, so that the first dump of a new match is
    /// written whatever the last match ended with.
    pub fn reset(&mut self)
        ensures
            forall|i: int|
                0 <= i < 8 ==> #[trigger] final(self).roster@[i] == u64::MAX
                    && final(self).helper@[i] == u64::MAX,
    {
        self.roster = [u64::MAX; 8];
        self.helper = [u64::MAX; 8];
    }

    /// Whether a roster dump is written: with debug logs on, when its
    /// signature differs from the last one of its phase. The signature is
    /// then remembered for the phase, and returned.
    pub fn observe_roster(
        &mut self,
        debug: bool,
        phase: &str,
        total: i32,
        entry_count: i32,
        records: &[ResultRosterRecord; 8],
    ) -> (r: Option<u64>)
        ensures
            (final(self).roster@, r) == spec_observe_roster(
                old(self).roster@,
                debug,
                phase@,
                spec_records_signature(
                    spec_roster_base(phase.spec_bytes(), total, entry_count),
                    records@,
                    MAX_FIGHTERS as int,
                ),
            ),
            final(self).helper@ == old(self).helper@,
    {
        if !debug {
            return None;
        }
        let index = result_roster_phase_index(phase);
        let signature = result_roster_signature(phase, total, entry_count, records);
        if self.roster[index] == signature {
            return None;
        }
        self.roster[index] = signature;
        Some(signature)
    }

    /// Whether a tracked helper's line is written: with debug logs on, for
    /// a helper object, when its signature differs from the last one of its
    /// latch, which then remembers it.
    pub fn observe_helper(
        &mut self,
        debug: bool,
        phase: &str,
        helper_kind: &str,
        object_id: u32,
        object: Option<(i32, i32)>,
    ) -> (r: bool)
        ensures
            (final(self).helper@, r) == spec_observe_helper(
                old(self).helper@,
                debug,
                spec_helper_latch_index(phase@, helper_kind@),
                object_id,
                spec_helper_signature(phase.spec_bytes(), helper_kind.spec_bytes(), object_id, object),
            ),
            final(self).roster@ == old(self).roster@,
    {
        if !debug || object_id == 0 {
            return false;
        }
        let index = helper_latch_index(phase, helper_kind);
        let signature = helper_signature(phase, helper_kind, object_id, object);
        if self.helper[index] == signature {
            return false;
        }
        self.helper[index] = signature;
        true
    }
}

/// The roster latches after a dump with `signature` in `phase`, and the
/// signature where the dump is written.
pub open spec fn spec_observe_roster(latches: Seq<u64>, debug: bool, phase: Seq<char>, signature: u64) -> (
    Seq<u64>,
    Option<u64>,
) {
    let index = spec_result_roster_phase_index(phase) as int;
    if debug && latches[index] != signature {
        (latches.update(index, signature), Some(signature))
    } else {
        (latches, None)
    }
}

/// The helper latches after a helper line with `signature` for latch
/// `index`, and whether the line is written.
pub open spec fn spec_observe_helper(
    latches: Seq<u64>,
    debug: bool,
    index: usize,
    object_id: u32,
    signature: u64,
) -> (Seq<u64>, bool) {
    if debug && object_id != 0 && latches[index as int] != signature {
        (latches.update(index as int, signature), true)
    } else {
        (latches, false)
    }
}

/// Lines are written only with debug logs on, a helper line only for a
/// helper object, and each line that is written is remembered in its own
/// latch alone; a line whose signature differs from the one remembered is
/// always written (with debug logs on, for an object).
pub proof fn lemma_result_lines_need_debug_and_an_object(
    roster: Seq<u64>,
    helper: Seq<u64>,
    debug: bool,
    phase: Seq<char>,
    signature: u64,
    index: usize,
    object_id: u32,
)
    requires
        roster.len() == RESULT_ROSTER_PHASE_COUNT,
        helper.len() == RESULT_HELPER_LATCH_COUNT,
        index < RESULT_HELPER_LATCH_COUNT,
    ensures
        !debug ==> spec_observe_roster(roster, debug, phase, signature) == (roster, None::<u64>),
        !debug || object_id == 0 ==> spec_observe_helper(helper, debug, index, object_id, signature)
            == (helper, false),
        spec_observe_helper(helper, debug, index, object_id, signature).1 ==> debug && object_id != 0
            && helper[index as int] != signature,
        debug && object_id != 0 && helper[index as int] != signature ==> spec_observe_helper(
            helper,
            debug,
            index,
            object_id,
            signature,
        ) == (helper.update(index as int, signature), true),
        spec_observe_roster(roster, debug, phase, signature).1 is Some ==> debug && spec_observe_roster(
            roster,
            debug,
            phase,
            signature,
        ).1 == Some(signature),
{
}

/// A dump is written once per change: right after a phase's dump, the same
/// roster in the same phase is not written again, and a helper line is not
/// repeated for an unchanged helper.
pub proof fn lemma_result_lines_are_written_once(
    roster: Seq<u64>,
    helper: Seq<u64>,
    debug: bool,
    phase: Seq<char>,
    signature: u64,
    index: usize,
    object_id: u32,
)
    requires
        roster.len() == RESULT_ROSTER_PHASE_COUNT,
        helper.len() == RESULT_HELPER_LATCH_COUNT,
        index < RESULT_HELPER_LATCH_COUNT,
    ensures
        spec_observe_roster(spec_observe_roster(roster, debug, phase, signature).0, debug, phase, signature).1
            is None,
        !spec_observe_helper(
            spec_observe_helper(helper, debug, index, object_id, signature).0,
            debug,
            index,
            object_id,
            signature,
        ).1,
{
}

} // verus!
