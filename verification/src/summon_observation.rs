//! The bounded observation of one native Galeem/Dharkon summon request:
//! what is remembered between callbacks, which changes are worth a log line,
//! and the signatures that keep the logs from repeating. The roster and the
//! child entry are read by the plugin and handed over as plain values.
use crate::bits::{flag_word, flag_word_exec, rotate_left, spec_rotate_left};
use crate::boss_summon::{
    lemma_shape_match_is_an_equivalence, native_summon_candidate, next_control_state, observe_phase,
    parent_death_cleanup_step,
    spec_cleanup_step, spec_is_result_transition_phase, ParentDeathCleanup,
    ParentDeathCleanupAction, ParentDeathCleanupPhase,
    spec_lifecycle_phase, spec_native_summon_candidate, spec_next_control_state,
    spec_observe_phase, summon_entry_lifecycle_changed, summon_entry_lifecycle_phase,
    RosterSnapshot, SummonCandidate, SummonControlState, SummonEntryLifecycle,
    SummonEntryLifecyclePhase, SummonEntrySnapshot, MAX_FIGHTERS, TEMPORARY_BOSS_SUMMON_CATEGORY,
};
use crate::text::str_eq;
use vstd::prelude::*;

verus! {

/// The signature of a candidate, for the logs.
pub open spec fn spec_candidate_signature(c: SummonCandidate) -> u64 {
    spec_rotate_left(c.entry as u64, 3) ^ spec_rotate_left(c.object_id as u64, 11)
        ^ spec_rotate_left(c.kind as u32 as u64, 19) ^ spec_rotate_left(c.team, 27)
        ^ spec_rotate_left(c.team_owner_id, 33) ^ (flag_word(c.operation_cpu) << 37u64)
        ^ spec_rotate_left(c.summon_boss_id, 41) ^ ((c.source as u64) << 57u64)
}

pub fn candidate_signature(c: &SummonCandidate) -> (r: u64)
    ensures
        r == spec_candidate_signature(*c),
{
    rotate_left(c.entry as u64, 3) ^ rotate_left(c.object_id as u64, 11) ^ rotate_left(
        c.kind as u32 as u64,
        19,
    ) ^ rotate_left(c.team, 27) ^ rotate_left(c.team_owner_id, 33) ^ (flag_word_exec(
        c.operation_cpu,
    ) << 37u64) ^ rotate_left(c.summon_boss_id, 41) ^ ((c.source as u64) << 57u64)
}

/// What the plugin read of one occupied roster slot.
#[derive(Debug, Clone, Copy, PartialEq, Eq, Structural)]
pub struct RosterEntryRead {
    pub object_id: u32,
    pub kind: u64,
    pub team: u64,
    pub team_owner_id: u64,
    pub operation_cpu: bool,
    pub fighter_category: u64,
    pub summon_boss_id: u64,
    pub fighter_num: u64,
    pub slot_signature: u64,
}

/// The signature word of one occupied slot.
pub open spec fn spec_roster_entry_word(entry: int, r: RosterEntryRead) -> u64 {
    spec_rotate_left(entry as u64, 3) ^ spec_rotate_left(r.object_id as u64, 11) ^ spec_rotate_left(
        r.kind,
        19,
    ) ^ spec_rotate_left(r.team, 27) ^ spec_rotate_left(r.team_owner_id, 33) ^ (flag_word(
        r.operation_cpu,
    ) << 37u64) ^ spec_rotate_left(r.fighter_category, 41) ^ spec_rotate_left(r.summon_boss_id, 53)
        ^ spec_rotate_left(r.fighter_num, 7) ^ spec_rotate_left(r.slot_signature, 47)
}

/// The roster signature over the first `n` slots: the total, with each
/// occupied slot's word mixed in.
pub open spec fn spec_roster_signature(total: i32, slots: Seq<Option<RosterEntryRead>>, n: int) -> u64
    decreases n,
{
    if n <= 0 {
        total as u64
    } else {
        let before = spec_roster_signature(total, slots, n - 1);
        match slots[n - 1] {
            Some(r) => before ^ spec_roster_entry_word(n - 1, r),
            None => before,
        }
    }
}

/// The roster from what was read of each slot: `None` for a slot with no
/// active fighter. Empty slots read as zero.
pub fn roster_snapshot(total: i32, slots: &[Option<RosterEntryRead>; 8]) -> (r: RosterSnapshot)
    ensures
        r.total == total,
        r.signature == spec_roster_signature(total, slots@, 8),
        r.active_count == slots@.filter(|s: Option<RosterEntryRead>| s is Some).len(),
        forall|i: int|
            0 <= i < 8 ==> #[trigger] r.active_object_ids@[i] == match slots@[i] {
                Some(e) => e.object_id,
                None => 0,
            },
        forall|i: int|
            0 <= i < 8 ==> #[trigger] r.active_kinds@[i] == match slots@[i] {
                Some(e) => #[verifier::truncate] (e.kind as i32),
                None => 0,
            },
        forall|i: int|
            0 <= i < 8 ==> #[trigger] r.active_teams@[i] == match slots@[i] {
                Some(e) => e.team,
                None => 0,
            },
        forall|i: int|
            0 <= i < 8 ==> #[trigger] r.active_team_owner_ids@[i] == match slots@[i] {
                Some(e) => e.team_owner_id,
                None => 0,
            },
        forall|i: int|
            0 <= i < 8 ==> #[trigger] r.active_operation_cpu@[i] == match slots@[i] {
                Some(e) => e.operation_cpu,
                None => false,
            },
        forall|i: int|
            0 <= i < 8 ==> #[trigger] r.active_summon_boss_ids@[i] == match slots@[i] {
                Some(e) => e.summon_boss_id,
                None => 0,
            },
{
    let mut ids: [u32; 8] = [0; 8];
    let mut kinds: [i32; 8] = [0; 8];
    let mut teams: [u64; 8] = [0; 8];
    let mut owners: [u64; 8] = [0; 8];
    let mut cpus: [bool; 8] = [false; 8];
    let mut markers: [u64; 8] = [0; 8];
    let mut count: usize = 0;
    let mut signature: u64 = total as u64;
    let mut entry: usize = 0;
    proof {
        reveal(Seq::filter);
        assert(slots@.subrange(0, 0).filter(|s: Option<RosterEntryRead>| s is Some) =~= Seq::<
            Option<RosterEntryRead>,
        >::empty());
    }
    while entry < MAX_FIGHTERS
        invariant
            entry <= MAX_FIGHTERS,
            signature == spec_roster_signature(total, slots@, entry as int),
            count == slots@.subrange(0, entry as int).filter(
                |s: Option<RosterEntryRead>| s is Some,
            ).len(),
            count <= entry,
            forall|i: int|
                0 <= i < 8 ==> #[trigger] ids@[i] == if i < entry {
                    match slots@[i] {
                        Some(e) => e.object_id,
                        None => 0,
                    }
                } else {
                    0
                },
            forall|i: int|
                0 <= i < 8 ==> #[trigger] kinds@[i] == if i < entry {
                    match slots@[i] {
                        Some(e) => #[verifier::truncate] (e.kind as i32),
                        None => 0,
                    }
                } else {
                    0
                },
            forall|i: int|
                0 <= i < 8 ==> #[trigger] teams@[i] == if i < entry {
                    match slots@[i] {
                        Some(e) => e.team,
                        None => 0,
                    }
                } else {
                    0
                },
            forall|i: int|
                0 <= i < 8 ==> #[trigger] owners@[i] == if i < entry {
                    match slots@[i] {
                        Some(e) => e.team_owner_id,
                        None => 0,
                    }
                } else {
                    0
                },
            forall|i: int|
                0 <= i < 8 ==> #[trigger] cpus@[i] == if i < entry {
                    match slots@[i] {
                        Some(e) => e.operation_cpu,
                        None => false,
                    }
                } else {
                    false
                },
            forall|i: int|
                0 <= i < 8 ==> #[trigger] markers@[i] == if i < entry {
                    match slots@[i] {
                        Some(e) => e.summon_boss_id,
                        None => 0,
                    }
                } else {
                    0
                },
        decreases MAX_FIGHTERS - entry,
    {
        proof {
            reveal(Seq::filter);
            assert(slots@.subrange(0, entry + 1).drop_last() =~= slots@.subrange(0, entry as int));
        }
        match slots[entry] {
            Some(read) => {
                count = count + 1;
                ids[entry] = read.object_id;
                kinds[entry] = #[verifier::truncate] (read.kind as i32);
                teams[entry] = read.team;
                owners[entry] = read.team_owner_id;
                cpus[entry] = read.operation_cpu;
                markers[entry] = read.summon_boss_id;
                signature = signature ^ (rotate_left(entry as u64, 3) ^ rotate_left(
                    read.object_id as u64,
                    11,
                ) ^ rotate_left(read.kind, 19) ^ rotate_left(read.team, 27) ^ rotate_left(
                    read.team_owner_id,
                    33,
                ) ^ (flag_word_exec(read.operation_cpu) << 37u64) ^ rotate_left(
                    read.fighter_category,
                    41,
                ) ^ rotate_left(read.summon_boss_id, 53) ^ rotate_left(read.fighter_num, 7)
                    ^ rotate_left(read.slot_signature, 47));
            },
            None => {},
        }
        entry = entry + 1;
    }
    proof {
        assert(slots@.subrange(0, 8) =~= slots@);
    }
    RosterSnapshot {
        total,
        signature,
        active_count: count,
        active_object_ids: ids,
        active_kinds: kinds,
        active_teams: teams,
        active_team_owner_ids: owners,
        active_operation_cpu: cpus,
        active_summon_boss_ids: markers,
    }
}

/// The signature word of the fighter ids behind the slots of one entry.
pub open spec fn spec_slot_signature(fighter_num: u64, ids: Seq<(u64, u64)>, n: int) -> u64
    decreases n,
{
    if n <= 0 {
        fighter_num
    } else {
        spec_slot_signature(fighter_num, ids, n - 1) ^ spec_rotate_left(
            ((ids[n - 1].0 + (n - 1)) % 0x1_0000_0000_0000_0000) as u64,
            11,
        ) ^ spec_rotate_left(((ids[n - 1].1 + (n - 1)) % 0x1_0000_0000_0000_0000) as u64, 29)
    }
}

/// Folds the fighter ids of an entry's slots, read with both selectors, into
/// one word. `fighter_num` is the entry's fighter count, capped at the slot
/// count; `ids` holds the ids of its slots.
pub fn fighter_entry_slot_signature(fighter_num: u64, ids: &[(u64, u64)]) -> (r: u64)
    requires
        fighter_num <= 8,
        ids@.len() == fighter_num,
    ensures
        r == spec_slot_signature(fighter_num, ids@, fighter_num as int),
{
    let mut signature = fighter_num;
    let n = ids.len();
    let mut slot: usize = 0;
    while slot < n
        invariant
            n == ids@.len(),
            n <= 8,
            slot <= n,
            signature == spec_slot_signature(fighter_num, ids@, slot as int),
        decreases n - slot,
    {
        let (selector_false, selector_true) = ids[slot];
        signature = signature ^ rotate_left(selector_false.wrapping_add(slot as u64), 11);
        signature = signature ^ rotate_left(selector_true.wrapping_add(slot as u64), 29);
        slot = slot + 1;
    }
    signature
}

/// What the plugin read of a child entry's active object.
#[derive(Debug, Clone, Copy, PartialEq, Eq, Structural)]
pub struct SummonObjectRead {
    pub kind: i32,
    pub status: i32,
    pub team: u64,
    pub sub_fighter: bool,
}

/// What the plugin read of one fighter entry while looking for a summoned
/// child. `object` is `None` where the entry has no active object.
#[derive(Debug, Clone, Copy, PartialEq, Eq, Structural)]
pub struct SummonEntryRead {
    pub fighter_category: u64,
    pub summon_boss_id: u64,
    pub object_id: u64,
    pub fighter_num: u64,
    pub operation_cpu: bool,
    pub stock: u64,
    pub object: Option<SummonObjectRead>,
}

/// Whether an entry is the summoned child of `parent_boss_id`.
pub open spec fn is_child_of(read: Option<SummonEntryRead>, parent_boss_id: u32) -> bool {
    read matches Some(r) && r.fighter_category == TEMPORARY_BOSS_SUMMON_CATEGORY
        && r.summon_boss_id == parent_boss_id as u64
}

pub open spec fn first_child_from(entries: Seq<Option<SummonEntryRead>>, parent_boss_id: u32, i: int) -> Option<int>
    decreases entries.len() - i,
{
    if i < 0 || i >= entries.len() {
        None
    } else if is_child_of(entries[i], parent_boss_id) {
        Some(i)
    } else {
        first_child_from(entries, parent_boss_id, i + 1)
    }
}

/// The snapshot that a found child entry gives.
pub open spec fn spec_child_snapshot(entry: int, r: SummonEntryRead) -> SummonEntrySnapshot {
    SummonEntrySnapshot {
        found: true,
        entry: entry as usize,
        object_id: r.object_id,
        active: r.object is Some,
        fighter_kind: match r.object {
            Some(o) => o.kind,
            None => -1i32,
        },
        status: match r.object {
            Some(o) => o.status,
            None => -1i32,
        },
        operation_cpu: r.operation_cpu,
        team: match r.object {
            Some(o) => o.team,
            None => 0,
        },
        stock: r.stock,
        fighter_num: r.fighter_num,
        fighter_category: r.fighter_category,
        summon_boss_id: r.summon_boss_id,
        sub_fighter_flag: match r.object {
            Some(o) => if o.sub_fighter {
                1i8
            } else {
                0i8
            },
            None => -1i8,
        },
    }
}

/// The summoned child of a parent: the first entry of the temporary summon
/// category whose parent marker is the parent's object id. No parent, no
/// child.
pub fn read_parented_summon_entry(entries: &[Option<SummonEntryRead>; 8], parent_boss_id: u32) -> (r:
    SummonEntrySnapshot)
    ensures
        parent_boss_id == 0 ==> !r.found,
        parent_boss_id != 0 ==> match first_child_from(entries@, parent_boss_id, 0) {
            Some(i) => r == spec_child_snapshot(i, entries@[i]->0),
            None => !r.found && r == SummonEntrySnapshot::spec_empty(),
        },
{
    if parent_boss_id == 0 {
        return SummonEntrySnapshot::empty();
    }
    let mut entry: usize = 0;
    while entry < MAX_FIGHTERS
        invariant
            entry <= MAX_FIGHTERS,
            entries@.len() == 8,
            parent_boss_id != 0,
            first_child_from(entries@, parent_boss_id, 0) == first_child_from(
                entries@,
                parent_boss_id,
                entry as int,
            ),
        decreases MAX_FIGHTERS - entry,
    {
        if let Some(read) = entries[entry] {
            if read.fighter_category == TEMPORARY_BOSS_SUMMON_CATEGORY && read.summon_boss_id
                == parent_boss_id as u64 {
                let (active, fighter_kind, status, team, sub_fighter_flag) = match read.object {
                    Some(o) => (
                        true,
                        o.kind,
                        o.status,
                        o.team,
                        if o.sub_fighter {
                            1i8
                        } else {
                            0i8
                        },
                    ),
                    None => (false, -1i32, -1i32, 0u64, -1i8),
                };
                return SummonEntrySnapshot {
                    found: true,
                    entry,
                    object_id: read.object_id,
                    active,
                    fighter_kind,
                    status,
                    operation_cpu: read.operation_cpu,
                    team,
                    stock: read.stock,
                    fighter_num: read.fighter_num,
                    fighter_category: read.fighter_category,
                    summon_boss_id: read.summon_boss_id,
                    sub_fighter_flag,
                };
            }
        }
        entry = entry + 1;
    }
    SummonEntrySnapshot::empty()
}

/// How a changed roster slot is described: a new object, or one that
/// replaced another; `None` for a slot that did not change or is empty.
pub fn roster_delta_kind(previous_id: u32, current_id: u32) -> (r: Option<&'static str>)
    ensures
        previous_id == current_id || current_id == 0 ==> r is None,
        previous_id != current_id && current_id != 0 ==> (r matches Some(k) && k@ == (if previous_id
            == 0 {
            "new"@
        } else {
            "replaced"@
        })),
{
    if previous_id != current_id && current_id != 0 {
        Some(
            if previous_id == 0 {
                "new"
            } else {
                "replaced"
            },
        )
    } else {
        None
    }
}

/// The roster slots that changed to a new object, first slot first: each
/// with whether it was empty before.
pub open spec fn spec_roster_deltas(baseline: Seq<u32>, current: Seq<u32>, n: int) -> Seq<(usize, bool)>
    decreases n,
{
    if n <= 0 {
        Seq::empty()
    } else {
        let before = spec_roster_deltas(baseline, current, n - 1);
        if baseline[n - 1] != current[n - 1] && current[n - 1] != 0 {
            before.push(((n - 1) as usize, baseline[n - 1] == 0))
        } else {
            before
        }
    }
}

/// The roster deltas list exactly the slots below `n` that hold an object
/// now and held another one (or none) before, each once, in slot order, and
/// each says whether its slot was empty before.
pub proof fn lemma_roster_deltas_are_the_changed_live_slots(
    baseline: Seq<u32>,
    current: Seq<u32>,
    n: int,
)
    requires
        0 <= n <= baseline.len(),
        n <= current.len(),
        n <= usize::MAX,
    ensures
        ({
            let d = spec_roster_deltas(baseline, current, n);
            &&& forall|k: int|
                0 <= k < d.len() ==> {
                    let e = #[trigger] d[k].0 as int;
                    &&& 0 <= e < n
                    &&& current[e] != 0
                    &&& current[e] != baseline[e]
                    &&& d[k].1 == (baseline[e] == 0)
                }
            &&& forall|k: int, l: int| 0 <= k < l < d.len() ==> #[trigger] d[k].0 < #[trigger] d[l].0
            &&& forall|e: int|
                0 <= e < n && #[trigger] current[e] != 0 && current[e] != baseline[e] ==> exists|k: int|
                    0 <= k < d.len() && #[trigger] d[k].0 == e
        }),
    decreases n,
{
    if n > 0 {
        lemma_roster_deltas_are_the_changed_live_slots(baseline, current, n - 1);
        let before = spec_roster_deltas(baseline, current, n - 1);
        let d = spec_roster_deltas(baseline, current, n);
        if baseline[n - 1] != current[n - 1] && current[n - 1] != 0 {
            assert(d[before.len() as int].0 == (n - 1) as usize);
            assert forall|e: int|
                0 <= e < n && #[trigger] current[e] != 0 && current[e] != baseline[e] implies exists|k: int|
                    0 <= k < d.len() && #[trigger] d[k].0 == e by {
                if e < n - 1 {
                    let k = choose|k: int| 0 <= k < before.len() && #[trigger] before[k].0 == e;
                    assert(d[k] == before[k]);
                } else {
                    assert(d[before.len() as int].0 == e);
                }
            }
            assert forall|k: int, l: int| 0 <= k < l < d.len() implies #[trigger] d[k].0 < #[trigger] d[l].0 by {
                if l < before.len() {
                    assert(d[k] == before[k] && d[l] == before[l]);
                } else {
                    assert(d[k] == before[k]);
                }
            }
        } else {
            assert forall|e: int|
                0 <= e < n && #[trigger] current[e] != 0 && current[e] != baseline[e] implies exists|k: int|
                    0 <= k < d.len() && #[trigger] d[k].0 == e by {
                let k = choose|k: int| 0 <= k < before.len() && #[trigger] before[k].0 == e;
            }
        }
    }
}

/// The new roster candidates of a summon: every slot whose object changed
/// to another one, with whether the slot was empty before (a new fighter)
/// or held another object (a replaced one).
pub fn new_roster_candidates(baseline: &RosterSnapshot, current: &RosterSnapshot) -> (r: Vec<(usize, bool)>)
    ensures
        r@ == spec_roster_deltas(baseline.active_object_ids@, current.active_object_ids@, 8),
        forall|k: int|
            0 <= k < r@.len() ==> #[trigger] r@[k].0 < 8 && current.active_object_ids@[r@[k].0 as int]
                != 0 && current.active_object_ids@[r@[k].0 as int]
                != baseline.active_object_ids@[r@[k].0 as int],
{
    proof {
        lemma_roster_deltas_are_the_changed_live_slots(
            baseline.active_object_ids@,
            current.active_object_ids@,
            8,
        );
    }
    let mut deltas: Vec<(usize, bool)> = Vec::new();
    let mut entry: usize = 0;
    while entry < MAX_FIGHTERS
        invariant
            entry <= MAX_FIGHTERS,
            deltas@ == spec_roster_deltas(
                baseline.active_object_ids@,
                current.active_object_ids@,
                entry as int,
            ),
        decreases MAX_FIGHTERS - entry,
    {
        let previous_id = baseline.active_object_ids[entry];
        let current_id = current.active_object_ids[entry];
        if previous_id != current_id && current_id != 0 {
            deltas.push((entry, previous_id == 0));
        }
        entry = entry + 1;
    }
    deltas
}

/// A roster with nothing read: no total, no signature, no fighters.
pub open spec fn spec_roster_is_empty(r: RosterSnapshot) -> bool {
    &&& r.total == -1
    &&& r.signature == 0
    &&& r.active_count == 0
    &&& forall|i: int|
        0 <= i < 8 ==> #[trigger] r.active_object_ids@[i] == 0 && r.active_kinds@[i] == 0
            && r.active_teams@[i] == 0 && r.active_team_owner_ids@[i] == 0
            && !r.active_operation_cpu@[i] && r.active_summon_boss_ids@[i] == 0
}

/// An observation of nothing: no request, no baseline, no phase, no boss,
/// no candidate, no ticks, inactive, and every latch at its start.
pub open spec fn spec_is_empty_observation(o: SummonObservation) -> bool {
    &&& !o.initialized
    &&& !o.request_pending
    &&& !o.baseline_initialized
    &&& !o.roster_delta_logged
    &&& o.last_phase == 0
    &&& o.last_boss_id == 0
    &&& o.last_requested_status == -1
    &&& o.last_status == -1
    &&& o.last_motion == 0
    &&& o.last_fighter_total == -1
    &&& o.last_roster_signature == u64::MAX
    &&& o.last_candidate_signature == u64::MAX
    &&& o.request_source@ == "none"@
    &&& spec_roster_is_empty(o.baseline_roster)
    &&& spec_roster_is_empty(o.last_roster)
    &&& o.candidate == SummonCandidate::spec_empty()
    &&& o.ticks == 0
    &&& o.control_state == SummonControlState::Inactive
}

/// What the plugin remembers of one boss slot's summon between callbacks.
#[derive(Debug, Clone, Copy)]
pub struct SummonObservation {
    pub initialized: bool,
    pub request_pending: bool,
    pub baseline_initialized: bool,
    pub roster_delta_logged: bool,
    pub last_phase: u8,
    pub last_boss_id: u32,
    pub last_requested_status: i32,
    pub last_status: i32,
    pub last_motion: u64,
    pub last_fighter_total: i32,
    pub last_roster_signature: u64,
    pub last_candidate_signature: u64,
    pub request_source: &'static str,
    pub baseline_roster: RosterSnapshot,
    pub last_roster: RosterSnapshot,
    pub candidate: SummonCandidate,
    pub ticks: u32,
    pub control_state: SummonControlState,
}

impl SummonObservation {
    /// Nothing observed.
    pub fn empty() -> (r: SummonObservation)
        ensures
            spec_is_empty_observation(r),
    {
        SummonObservation {
            initialized: false,
            request_pending: false,
            baseline_initialized: false,
            roster_delta_logged: false,
            last_phase: 0,
            last_boss_id: 0,
            last_requested_status: -1,
            last_status: -1,
            last_motion: 0,
            last_fighter_total: -1,
            last_roster_signature: u64::MAX,
            last_candidate_signature: u64::MAX,
            request_source: "none",
            baseline_roster: RosterSnapshot::empty(),
            last_roster: RosterSnapshot::empty(),
            candidate: SummonCandidate::empty(),
            ticks: 0,
            control_state: SummonControlState::Inactive,
        }
    }

    /// Records a summon request, with the roster as its baseline. A request
    /// for the boss and status already pending is ignored; the result says
    /// whether the request was recorded.
    pub fn request_native(
        &mut self,
        boss_id: u32,
        summon_status: i32,
        pre_status: i32,
        pre_motion: u64,
        baseline: RosterSnapshot,
        source: &'static str,
    ) -> (r: bool)
        ensures
            r == !(old(self).request_pending && old(self).last_boss_id == boss_id && old(
                self,
            ).last_requested_status == summon_status),
            !r ==> *final(self) == *old(self),
            r ==> ({
                let s = *final(self);
                &&& s.request_pending && s.baseline_initialized && !s.roster_delta_logged
                &&& s.last_phase == 0 && s.last_boss_id == boss_id && s.last_requested_status
                    == summon_status
                &&& s.last_status == pre_status && s.last_motion == pre_motion
                &&& s.last_fighter_total == baseline.total && s.last_roster_signature
                    == baseline.signature
                &&& s.last_candidate_signature == u64::MAX && s.request_source == source
                &&& s.baseline_roster == baseline && s.last_roster == baseline
                &&& s.candidate == SummonCandidate::spec_empty() && s.ticks == 0
                &&& s.control_state == SummonControlState::SummonRequested
                &&& s.initialized == old(self).initialized
            }),
    {
        if self.request_pending && self.last_boss_id == boss_id && self.last_requested_status
            == summon_status {
            return false;
        }
        self.request_pending = true;
        self.baseline_initialized = true;
        self.roster_delta_logged = false;
        self.last_phase = 0;
        self.last_boss_id = boss_id;
        self.last_requested_status = summon_status;
        self.last_status = pre_status;
        self.last_motion = pre_motion;
        self.last_fighter_total = baseline.total;
        self.last_roster_signature = baseline.signature;
        self.last_candidate_signature = u64::MAX;
        self.request_source = source;
        self.baseline_roster = baseline;
        self.last_roster = baseline;
        self.candidate = SummonCandidate::empty();
        self.ticks = 0;
        self.control_state = SummonControlState::SummonRequested;
        true
    }
}

/// What one callback of the boss shows to the summon observer.
#[derive(Debug, Clone, Copy)]
pub struct NativeSummonView {
    pub boss_id: u32,
    pub active: bool,
    pub status: i32,
    pub motion: u64,
    pub fighter_total: i32,
    pub roster: RosterSnapshot,
    pub summon_status: i32,
    pub wait_status: i32,
}

/// The log lines that one observed callback calls for.
#[derive(Debug, Clone, Copy, PartialEq, Eq, Structural)]
pub struct NativeSummonLogs {
    pub phase: u8,
    pub work_snapshot: bool,
    pub state_line: bool,
    pub roster_line: bool,
    pub new_roster_candidates: bool,
    pub candidate_line: bool,
    pub control_line: bool,
    pub lifetime_line: bool,
    pub control_transition: bool,
    pub roster_shape_changed: bool,
    pub roster_delta: bool,
    pub next_control_state: SummonControlState,
    pub candidate: SummonCandidate,
}

/// One callback of the summon observation. An idle callback changes
/// nothing. Otherwise the first callback after a request without baseline
/// takes the roster as baseline; the candidate is the roster change since
/// the baseline; a log line is called for where something changed; and the
/// end of the summon clears the pending request.
pub open spec fn spec_observe_native(o: SummonObservation, v: NativeSummonView) -> (
    SummonObservation,
    NativeSummonLogs,
) {
    let candidate = spec_native_summon_candidate(o.baseline_roster, v.roster);
    let candidate_signature = spec_candidate_signature(candidate);
    let phase = spec_observe_phase(v.active, v.status, v.summon_status, v.wait_status, o.last_phase);
    let next = spec_next_control_state(phase, o.request_pending);
    if phase == 0 {
        (
            o,
            NativeSummonLogs {
                phase,
                work_snapshot: false,
                state_line: false,
                roster_line: false,
                new_roster_candidates: false,
                candidate_line: false,
                control_line: false,
                lifetime_line: false,
                control_transition: false,
                roster_shape_changed: false,
                roster_delta: false,
                next_control_state: next,
                candidate,
            },
        )
    } else {
        let baseline = if o.baseline_initialized {
            o.baseline_roster
        } else {
            v.roster
        };
        let phase_changed = !o.initialized || o.last_phase != phase;
        let shape_changed = !o.last_roster.spec_shape_matches(&v.roster);
        let delta = !baseline.spec_shape_matches(&v.roster);
        let changed = phase_changed || o.last_boss_id != v.boss_id || o.last_status != v.status
            || o.last_motion != v.motion || o.last_fighter_total != v.fighter_total
            || o.last_roster_signature != v.roster.signature || o.last_candidate_signature
            != candidate_signature;
        let running = phase == 1 || phase == 2;
        let ended = phase == 3 || phase == 4;
        (
            SummonObservation {
                initialized: true,
                baseline_initialized: true,
                baseline_roster: baseline,
                roster_delta_logged: o.roster_delta_logged || (changed && delta),
                ticks: if o.ticks == u32::MAX {
                    u32::MAX
                } else {
                    (o.ticks + 1) as u32
                },
                last_phase: phase,
                last_boss_id: v.boss_id,
                last_status: v.status,
                last_motion: v.motion,
                last_fighter_total: v.fighter_total,
                last_roster_signature: v.roster.signature,
                last_candidate_signature: candidate_signature,
                last_roster: v.roster,
                candidate,
                control_state: next,
                request_pending: o.request_pending && !ended,
                ..o
            },
            NativeSummonLogs {
                phase,
                work_snapshot: phase_changed,
                state_line: changed,
                roster_line: changed && o.last_roster_signature != v.roster.signature && (
                phase_changed || shape_changed),
                new_roster_candidates: changed && delta && !o.roster_delta_logged,
                candidate_line: changed && candidate_signature != o.last_candidate_signature,
                control_line: changed && running,
                lifetime_line: changed && ended,
                control_transition: o.control_state != next,
                roster_shape_changed: shape_changed,
                roster_delta: delta,
                next_control_state: next,
                candidate,
            },
        )
    }
}

/// Observes one callback of the boss for the summon diagnostics.
pub fn observe_native(obs: &mut SummonObservation, view: &NativeSummonView) -> (r: NativeSummonLogs)
    ensures
        (*final(obs), r) == spec_observe_native(*old(obs), *view),
{
    let candidate = native_summon_candidate(&obs.baseline_roster, &view.roster);
    let candidate_sig = candidate_signature(&candidate);
    let phase = observe_phase(
        view.active,
        view.status,
        view.summon_status,
        view.wait_status,
        obs.last_phase,
    );
    let next = next_control_state(phase, obs.request_pending);
    if phase == 0 {
        return NativeSummonLogs {
            phase,
            work_snapshot: false,
            state_line: false,
            roster_line: false,
            new_roster_candidates: false,
            candidate_line: false,
            control_line: false,
            lifetime_line: false,
            control_transition: false,
            roster_shape_changed: false,
            roster_delta: false,
            next_control_state: next,
            candidate,
        };
    }
    if !obs.baseline_initialized {
        obs.baseline_roster = view.roster;
        obs.baseline_initialized = true;
    }
    let phase_changed = !obs.initialized || obs.last_phase != phase;
    let shape_changed = !obs.last_roster.shape_matches(&view.roster);
    let delta = !obs.baseline_roster.shape_matches(&view.roster);
    obs.ticks = obs.ticks.saturating_add(1);
    let changed = phase_changed || obs.last_boss_id != view.boss_id || obs.last_status
        != view.status || obs.last_motion != view.motion || obs.last_fighter_total
        != view.fighter_total || obs.last_roster_signature != view.roster.signature
        || obs.last_candidate_signature != candidate_sig;
    let running = phase == 1 || phase == 2;
    let ended = phase == 3 || phase == 4;
    let control_transition = match (obs.control_state, next) {
        (SummonControlState::Inactive, SummonControlState::Inactive) => false,
        (SummonControlState::SummonRequested, SummonControlState::SummonRequested) => false,
        (SummonControlState::NativeStatusActive, SummonControlState::NativeStatusActive) => false,
        (SummonControlState::NativeWait, SummonControlState::NativeWait) => false,
        (SummonControlState::NativeEnded, SummonControlState::NativeEnded) => false,
        (SummonControlState::CancelledByResult, SummonControlState::CancelledByResult) => false,
        _ => true,
    };
    let logs = NativeSummonLogs {
        phase,
        work_snapshot: phase_changed,
        state_line: changed,
        roster_line: changed && obs.last_roster_signature != view.roster.signature && (
        phase_changed || shape_changed),
        new_roster_candidates: changed && delta && !obs.roster_delta_logged,
        candidate_line: changed && candidate_sig != obs.last_candidate_signature,
        control_line: changed && running,
        lifetime_line: changed && ended,
        control_transition,
        roster_shape_changed: shape_changed,
        roster_delta: delta,
        next_control_state: next,
        candidate,
    };
    if changed && delta {
        obs.roster_delta_logged = true;
    }
    obs.initialized = true;
    obs.last_phase = phase;
    obs.last_boss_id = view.boss_id;
    obs.last_status = view.status;
    obs.last_motion = view.motion;
    obs.last_fighter_total = view.fighter_total;
    obs.last_roster_signature = view.roster.signature;
    obs.last_candidate_signature = candidate_sig;
    obs.last_roster = view.roster;
    obs.candidate = candidate;
    obs.control_state = next;
    if ended {
        obs.request_pending = false;
    }
    logs
}

/// The summon's end clears its pending request, and a new observation does
/// not end a summon that never ran.
pub proof fn lemma_observation_ends_its_request(o: SummonObservation, v: NativeSummonView)
    ensures
        ({
            let (next, logs) = spec_observe_native(o, v);
            &&& (logs.phase == 3 || logs.phase == 4) ==> !next.request_pending
            &&& (o.last_phase != 1 && o.last_phase != 2) ==> logs.phase != 3 && logs.phase != 4
            &&& logs.phase == 0 ==> next == o
        }),
{
}

/// An idle callback writes nothing; a new-candidates line is written at
/// most once per observation; a baseline, once taken, is kept; and a
/// callback that sees exactly what the last one saw (with the baseline
/// taken) writes no line at all.
pub proof fn lemma_observation_lines_are_news(o: SummonObservation, v: NativeSummonView)
    ensures
        ({
            let (next, logs) = spec_observe_native(o, v);
            &&& logs.phase == 0 ==> !logs.work_snapshot && !logs.state_line && !logs.roster_line
                && !logs.new_roster_candidates && !logs.candidate_line && !logs.control_line
                && !logs.lifetime_line && !logs.control_transition
            &&& o.roster_delta_logged ==> !logs.new_roster_candidates && next.roster_delta_logged
            &&& logs.new_roster_candidates ==> next.roster_delta_logged
            &&& o.baseline_initialized ==> next.baseline_roster == o.baseline_roster
            &&& o.baseline_initialized ==> ({
                let (again, repeat) = spec_observe_native(next, v);
                &&& !repeat.work_snapshot
                &&& !repeat.state_line
                &&& !repeat.roster_line
                &&& !repeat.new_roster_candidates
                &&& !repeat.candidate_line
                &&& !repeat.control_line
                &&& !repeat.lifetime_line
                &&& !repeat.control_transition
            })
        }),
{
    lemma_shape_match_is_an_equivalence(v.roster, v.roster, v.roster);
}

/// Cancels an observation for the result screen. The result says whether
/// the cancellation is news (it was not cancelled already); an observation
/// that never started is left alone.
pub fn cancel_for_entry(obs: &mut SummonObservation) -> (r: bool)
    ensures
        !old(obs).initialized ==> !r && *final(obs) == *old(obs),
        old(obs).initialized ==> r == (old(obs).control_state
            != SummonControlState::CancelledByResult) && *final(obs) == (SummonObservation {
            control_state: SummonControlState::CancelledByResult,
            request_pending: false,
            last_phase: 0,
            ..*old(obs)
        }),
{
    if !obs.initialized {
        return false;
    }
    let news = match obs.control_state {
        SummonControlState::CancelledByResult => false,
        _ => true,
    };
    obs.control_state = SummonControlState::CancelledByResult;
    obs.request_pending = false;
    obs.last_phase = 0;
    news
}

/// The first letter of a lifecycle phase's name, as a byte.
pub open spec fn spec_phase_initial(phase: SummonEntryLifecyclePhase) -> u8 {
    match phase {
        SummonEntryLifecyclePhase::Uninitialized => 0x75,
        SummonEntryLifecyclePhase::NoChild => 0x6e,
        SummonEntryLifecyclePhase::Reserved => 0x72,
        SummonEntryLifecyclePhase::Spawned => 0x73,
        SummonEntryLifecyclePhase::Active => 0x61,
        SummonEntryLifecyclePhase::ExpiredEntryReserved => 0x65,
        SummonEntryLifecyclePhase::Retiring => 0x72,
        SummonEntryLifecyclePhase::CancelledByResult => 0x63,
    }
}

fn phase_initial(phase: SummonEntryLifecyclePhase) -> (r: u8)
    ensures
        r == spec_phase_initial(phase),
{
    match phase {
        SummonEntryLifecyclePhase::Uninitialized => 0x75,
        SummonEntryLifecyclePhase::NoChild => 0x6e,
        SummonEntryLifecyclePhase::Reserved => 0x72,
        SummonEntryLifecyclePhase::Spawned => 0x73,
        SummonEntryLifecyclePhase::Active => 0x61,
        SummonEntryLifecyclePhase::ExpiredEntryReserved => 0x65,
        SummonEntryLifecyclePhase::Retiring => 0x72,
        SummonEntryLifecyclePhase::CancelledByResult => 0x63,
    }
}

/// The signature of a ledger line, which keeps it from repeating.
pub open spec fn spec_lifecycle_signature(
    phase: SummonEntryLifecyclePhase,
    s: SummonEntrySnapshot,
    parent_dead: bool,
) -> u64 {
    (spec_phase_initial(phase) as u64) ^ spec_rotate_left(flag_word(s.found), 7) ^ spec_rotate_left(
        flag_word(s.active),
        13,
    ) ^ spec_rotate_left(s.entry as u64, 17) ^ spec_rotate_left(s.object_id, 23) ^ spec_rotate_left(
        s.fighter_kind as u32 as u64,
        31,
    ) ^ spec_rotate_left(s.status as u32 as u64, 37) ^ spec_rotate_left(s.fighter_category, 43)
        ^ spec_rotate_left(s.summon_boss_id, 47) ^ spec_rotate_left(s.stock, 53)
        ^ spec_rotate_left(s.fighter_num, 59) ^ spec_rotate_left(s.sub_fighter_flag as u8 as u64, 7)
        ^ (flag_word(parent_dead) << 61u64)
}

pub fn lifecycle_signature(
    phase: SummonEntryLifecyclePhase,
    s: &SummonEntrySnapshot,
    parent_dead: bool,
) -> (r: u64)
    ensures
        r == spec_lifecycle_signature(phase, *s, parent_dead),
{
    (phase_initial(phase) as u64) ^ rotate_left(flag_word_exec(s.found), 7) ^ rotate_left(
        flag_word_exec(s.active),
        13,
    ) ^ rotate_left(s.entry as u64, 17) ^ rotate_left(s.object_id, 23) ^ rotate_left(
        s.fighter_kind as u32 as u64,
        31,
    ) ^ rotate_left(s.status as u32 as u64, 37) ^ rotate_left(s.fighter_category, 43)
        ^ rotate_left(s.summon_boss_id, 47) ^ rotate_left(s.stock, 53) ^ rotate_left(
        s.fighter_num,
        59,
    ) ^ rotate_left(s.sub_fighter_flag as u8 as u64, 7) ^ (flag_word_exec(parent_dead) << 61u64)
}

/// The child ledger after one observation, and whether it is worth a log
/// line. Without a parent nothing is observed. Otherwise the ledger takes
/// the new phase and reading; a line is written, with debug logs on, when
/// the reading changed and its signature is not the last one written.
pub open spec fn spec_observe_lifecycle(
    ledger: SummonEntryLifecycle,
    parent_boss_id: u32,
    parent_dead: bool,
    result_transition: bool,
    snapshot: SummonEntrySnapshot,
    debug: bool,
) -> (SummonEntryLifecycle, bool) {
    if parent_boss_id == 0 {
        (ledger, false)
    } else {
        let phase = spec_lifecycle_phase(
            result_transition,
            parent_dead,
            snapshot.found,
            snapshot.active,
            ledger.initialized,
            ledger.snapshot.active,
        );
        let signature = spec_lifecycle_signature(phase, snapshot, parent_dead);
        let changed = !ledger.initialized || ledger.phase != phase || ledger.snapshot.found
            != snapshot.found || ledger.snapshot.active != snapshot.active
            || ledger.snapshot.object_id != snapshot.object_id || ledger.snapshot.entry
            != snapshot.entry || ledger.parent_dead != parent_dead;
        (
            SummonEntryLifecycle {
                initialized: true,
                phase,
                parent_boss_id,
                snapshot,
                parent_dead,
                last_log_signature: signature,
            },
            debug && changed && ledger.last_log_signature != signature,
        )
    }
}

/// Observes a parent's summoned child: `snapshot` is what the plugin read
/// of the child entry for this parent. Returns the snapshot the caller
/// works with (the empty one without a parent) and whether to write a
/// ledger line.
pub fn observe_summon_entry_lifecycle(
    ledger: &mut SummonEntryLifecycle,
    parent_boss_id: u32,
    parent_dead: bool,
    transition_phase: &str,
    snapshot: SummonEntrySnapshot,
    debug: bool,
) -> (r: (SummonEntrySnapshot, bool))
    ensures
        (*final(ledger), r.1) == spec_observe_lifecycle(
            *old(ledger),
            parent_boss_id,
            parent_dead,
            spec_is_result_transition_phase(transition_phase@),
            snapshot,
            debug,
        ),
        r.0 == if parent_boss_id == 0 {
            SummonEntrySnapshot::spec_empty()
        } else {
            snapshot
        },
{
    if parent_boss_id == 0 {
        return (SummonEntrySnapshot::empty(), false);
    }
    let phase = summon_entry_lifecycle_phase(transition_phase, parent_dead, &snapshot, ledger);
    let signature = lifecycle_signature(phase, &snapshot, parent_dead);
    let changed = summon_entry_lifecycle_changed(ledger, phase, &snapshot, parent_dead);
    let log = debug && changed && ledger.last_log_signature != signature;
    *ledger = SummonEntryLifecycle {
        initialized: true,
        phase,
        parent_boss_id,
        snapshot,
        parent_dead,
        last_log_signature: signature,
    };
    (snapshot, log)
}

/// The ledger settles: once one reading has been observed twice in a row,
/// observing it again changes nothing and writes no line.
pub proof fn lemma_lifecycle_observation_settles(
    ledger: SummonEntryLifecycle,
    parent_boss_id: u32,
    parent_dead: bool,
    result_transition: bool,
    snapshot: SummonEntrySnapshot,
    debug: bool,
)
    ensures
        ({
            let first = spec_observe_lifecycle(
                ledger,
                parent_boss_id,
                parent_dead,
                result_transition,
                snapshot,
                debug,
            ).0;
            let second = spec_observe_lifecycle(
                first,
                parent_boss_id,
                parent_dead,
                result_transition,
                snapshot,
                debug,
            ).0;
            spec_observe_lifecycle(second, parent_boss_id, parent_dead, result_transition, snapshot, debug)
                == (second, false)
        }),
{
}

/// What the ledger says of the child's retirement in each phase.
pub fn retirement_state(phase: SummonEntryLifecyclePhase) -> (r: &'static str)
    ensures
        r@ == match phase {
            SummonEntryLifecyclePhase::Retiring => "native_parent_teardown_pending"@,
            SummonEntryLifecyclePhase::NoChild => "no_native_child_observed"@,
            SummonEntryLifecyclePhase::Uninitialized => "no_child_observed_yet"@,
            SummonEntryLifecyclePhase::ExpiredEntryReserved =>
                "child_object_gone_entry_still_reserved"@,
            SummonEntryLifecyclePhase::CancelledByResult =>
                "tracking_cancelled_native_state_unknown"@,
            _ => "native_child_associated"@,
        },
{
    match phase {
        SummonEntryLifecyclePhase::Retiring => "native_parent_teardown_pending",
        SummonEntryLifecyclePhase::NoChild => "no_native_child_observed",
        SummonEntryLifecyclePhase::Uninitialized => "no_child_observed_yet",
        SummonEntryLifecyclePhase::ExpiredEntryReserved =>
            "child_object_gone_entry_still_reserved",
        SummonEntryLifecyclePhase::CancelledByResult => "tracking_cancelled_native_state_unknown",
        _ => "native_child_associated",
    }
}

/// Whether the summon can take part in the result, as far as it can be
/// known.
pub fn summon_result_eligibility(child_found: bool, candidate_object_id: u32) -> (r: &'static str)
    ensures
        r@ == if child_found {
            "category5_child_public_result_api_unavailable"@
        } else if candidate_object_id == 0 {
            "none_observed"@
        } else {
            "unresolved_public_api"@
        },
{
    if child_found {
        "category5_child_public_result_api_unavailable"
    } else if candidate_object_id == 0 {
        "none_observed"
    } else {
        "unresolved_public_api"
    }
}

/// Who cleans up the summon: the native owner during battle, only the
/// observation afterwards.
pub fn summon_cleanup_state(phase: &str) -> (r: &'static str)
    ensures
        r@ == if phase@ == "battle"@ {
            "native_owner_active"@
        } else {
            "observation_only"@
        },
{
    if str_eq(phase, "battle") {
        "native_owner_active"
    } else {
        "observation_only"
    }
}

/// The last dead flag and line signature written for each boss slot at the
/// end of a match.
pub struct MatchAuditLatch {
    pub last_signature: [u64; 16],
    pub last_dead: [i8; 16],
}

impl MatchAuditLatch {
    pub fn new() -> (r: MatchAuditLatch)
        ensures
            forall|i: int|
                0 <= i < 16 ==> #[trigger] r.last_signature@[i] == u64::MAX && r.last_dead@[i]
                    == -1,
    {
        MatchAuditLatch { last_signature: [u64::MAX; 16], last_dead: [-1; 16] }
    }

    /// Whether the boss's death flag is news for the slot; it is
    /// remembered.
    pub fn record_dead(&mut self, index: usize, dead: bool) -> (r: bool)
        requires
            index < 16,
        ensures
            ({
                let d: i8 = if dead {
                    1
                } else {
                    0
                };
                &&& r == (old(self).last_dead@[index as int] < 0 || old(self).last_dead@[index as int]
                    != d)
                &&& final(self).last_dead@ == if r {
                    old(self).last_dead@.update(index as int, d)
                } else {
                    old(self).last_dead@
                }
                &&& final(self).last_signature@ == old(self).last_signature@
            }),
    {
        let d: i8 = if dead {
            1
        } else {
            0
        };
        if self.last_dead[index] < 0 || self.last_dead[index] != d {
            self.last_dead[index] = d;
            return true;
        }
        false
    }

    /// Whether the slot's audit line changed; it is remembered.
    pub fn record_signature(&mut self, index: usize, signature: u64) -> (r: bool)
        requires
            index < 16,
        ensures
            r == (old(self).last_signature@[index as int] != signature),
            final(self).last_signature@ == old(self).last_signature@.update(index as int, signature),
            final(self).last_dead@ == old(self).last_dead@,
    {
        if self.last_signature[index] == signature {
            return false;
        }
        self.last_signature[index] = signature;
        true
    }
}

/// What the end-of-match audit read of a boss slot.
#[derive(Debug, Clone, Copy, PartialEq, Eq, Structural)]
pub struct MatchAuditRead {
    pub entry: usize,
    pub current_fighter_id: u64,
    pub fighter_num: u64,
    pub host_status: i32,
    pub stock_count: u64,
    pub dead_count: u64,
    pub boss_dead: bool,
    pub exists_public: bool,
    pub ready_go: bool,
    pub result_mode: bool,
    pub boss_active: bool,
    pub hidden_host_item_active: bool,
    pub boss_id: u32,
    pub hidden_host_item_id: u32,
}

/// The signature of an end-of-match audit line.
pub open spec fn spec_match_audit_signature(a: MatchAuditRead, candidate: SummonCandidate) -> u64 {
    spec_rotate_left(a.entry as u64, 3) ^ spec_rotate_left(a.current_fighter_id, 7)
        ^ spec_rotate_left(a.fighter_num, 13) ^ spec_rotate_left(a.host_status as u32 as u64, 19)
        ^ spec_rotate_left(a.stock_count, 23) ^ spec_rotate_left(a.dead_count, 29) ^ (flag_word(
        a.boss_dead,
    ) << 35u64) ^ (flag_word(a.exists_public) << 36u64) ^ (flag_word(a.ready_go) << 37u64) ^ (
    flag_word(a.result_mode) << 38u64) ^ (flag_word(a.boss_active) << 39u64) ^ (flag_word(
        a.hidden_host_item_active,
    ) << 40u64) ^ spec_rotate_left(a.boss_id as u64, 41) ^ spec_rotate_left(
        a.hidden_host_item_id as u64,
        47,
    ) ^ spec_rotate_left(spec_candidate_signature(candidate), 53)
}

pub fn match_audit_signature(a: &MatchAuditRead, candidate: &SummonCandidate) -> (r: u64)
    ensures
        r == spec_match_audit_signature(*a, *candidate),
{
    rotate_left(a.entry as u64, 3) ^ rotate_left(a.current_fighter_id, 7) ^ rotate_left(
        a.fighter_num,
        13,
    ) ^ rotate_left(a.host_status as u32 as u64, 19) ^ rotate_left(a.stock_count, 23)
        ^ rotate_left(a.dead_count, 29) ^ (flag_word_exec(a.boss_dead) << 35u64) ^ (
    flag_word_exec(a.exists_public) << 36u64) ^ (flag_word_exec(a.ready_go) << 37u64) ^ (
    flag_word_exec(a.result_mode) << 38u64) ^ (flag_word_exec(a.boss_active) << 39u64) ^ (
    flag_word_exec(a.hidden_host_item_active) << 40u64) ^ rotate_left(a.boss_id as u64, 41)
        ^ rotate_left(a.hidden_host_item_id as u64, 47) ^ rotate_left(
        candidate_signature(candidate),
        53,
    )
}


/// The slot of a boss kind's entry in the per-slot tables: Dharkon's
/// follow Galeem's, and entries past the last share the last slot.
pub open spec fn spec_slot_index(kind: Seq<char>, entry: usize) -> int {
    (if kind == "dharkon"@ {
        MAX_FIGHTERS as int
    } else {
        0
    }) + if entry < MAX_FIGHTERS - 1 {
        entry as int
    } else {
        MAX_FIGHTERS - 1
    }
}

/// Every boss entry has a slot in the tables: Dharkon's slots are the upper
/// half and the others' the lower half, so the two kinds never share one;
/// within a kind, entries below the last each have their own slot, and the
/// entries from the last on share the last slot.
pub proof fn lemma_slot_index_separates_kinds(kind: Seq<char>, other: Seq<char>, entry: usize, other_entry: usize)
    ensures
        0 <= spec_slot_index(kind, entry) < 16,
        kind == "dharkon"@ <==> spec_slot_index(kind, entry) >= 8,
        (kind == "dharkon"@) != (other == "dharkon"@) ==> spec_slot_index(kind, entry)
            != spec_slot_index(other, other_entry),
        entry < 7 && other_entry < 7 && entry != other_entry ==> spec_slot_index(kind, entry)
            != spec_slot_index(kind, other_entry),
        entry >= 7 && other_entry >= 7 ==> spec_slot_index(kind, entry) == spec_slot_index(
            kind,
            other_entry,
        ),
{
}

/// What the end-of-match audit of a boss slot writes: the child ledger line,
/// the death line and the audit line, each where it is news, with what the
/// lines say of the summon.
#[derive(Debug, Clone, Copy)]
pub struct MatchAuditLines {
    pub lifecycle_line: bool,
    pub death_line: bool,
    pub audit_line: bool,
    pub summon_active: bool,
    pub summon_entry: usize,
    pub summon_object_id: u32,
    pub summon_result_eligibility: &'static str,
    pub summon_cleanup: &'static str,
    pub child: SummonEntrySnapshot,
}

/// The end-of-match audit of one boss slot, with debug logs on. `read` is
/// what the plugin read of the slot, `child` what it read of the boss's
/// summoned child entry. Nothing happens with debug logs off.
pub fn audit_match_end(
    latch: &mut MatchAuditLatch,
    ledgers: &mut [SummonEntryLifecycle; 16],
    observations: &[SummonObservation; 16],
    debug: bool,
    kind: &str,
    entry: usize,
    read: &MatchAuditRead,
    child: SummonEntrySnapshot,
    phase: &str,
) -> (r: Option<MatchAuditLines>)
    ensures
        !debug ==> r is None && final(ledgers)@ == old(ledgers)@ && final(latch).last_dead@ == old(
            latch,
        ).last_dead@ && final(latch).last_signature@ == old(latch).last_signature@,
        debug ==> ({
            let i = spec_slot_index(kind@, entry);
            let e: usize = if entry < MAX_FIGHTERS - 1 {
                entry
            } else {
                (MAX_FIGHTERS - 1) as usize
            };
            let (ledger, lifecycle_line) = spec_observe_lifecycle(
                old(ledgers)@[i],
                read.boss_id,
                read.boss_dead,
                spec_is_result_transition_phase(phase@),
                child,
                true,
            );
            let obs = observations@[i];
            let signature = spec_match_audit_signature(
                MatchAuditRead { entry: e, ..*read },
                obs.candidate,
            );
            let d: i8 = if read.boss_dead {
                1
            } else {
                0
            };
            let death = old(latch).last_dead@[i] < 0 || old(latch).last_dead@[i] != d;
            &&& final(ledgers)@ == old(ledgers)@.update(i, ledger)
            &&& final(latch).last_dead@ == if death {
                old(latch).last_dead@.update(i, d)
            } else {
                old(latch).last_dead@
            }
            &&& final(latch).last_signature@ == old(latch).last_signature@.update(i, signature)
            &&& r matches Some(lines)
            &&& lines.lifecycle_line == lifecycle_line
            &&& lines.death_line == death
            &&& lines.audit_line == (old(latch).last_signature@[i] != signature)
            &&& lines.summon_active == (obs.last_phase == 1 || obs.last_phase == 2)
            &&& lines.summon_entry == obs.candidate.entry
            &&& lines.summon_object_id == obs.candidate.object_id
            &&& lines.summon_result_eligibility@ == if read.boss_id != 0 && child.found {
                "category5_child_public_result_api_unavailable"@
            } else if obs.candidate.object_id == 0 {
                "none_observed"@
            } else {
                "unresolved_public_api"@
            }
            &&& lines.summon_cleanup@ == if phase@ == "battle"@ {
                "native_owner_active"@
            } else {
                "observation_only"@
            }
            &&& lines.child == if read.boss_id == 0 {
                SummonEntrySnapshot::spec_empty()
            } else {
                child
            }
        }),
{
    if !debug {
        return None;
    }
    let e = if entry < MAX_FIGHTERS - 1 {
        entry
    } else {
        MAX_FIGHTERS - 1
    };
    let index = crate::boss_summon::observation_index(kind, e);
    let mut ledger = ledgers[index];
    let (snapshot, lifecycle_line) = observe_summon_entry_lifecycle(
        &mut ledger,
        read.boss_id,
        read.boss_dead,
        phase,
        child,
        true,
    );
    ledgers[index] = ledger;
    let obs = &observations[index];
    let summon_active = obs.last_phase == 1 || obs.last_phase == 2;
    let eligibility = summon_result_eligibility(snapshot.found, obs.candidate.object_id);
    let cleanup = summon_cleanup_state(phase);
    let audit_read = MatchAuditRead { entry: e, ..*read };
    let signature = match_audit_signature(&audit_read, &obs.candidate);
    let death_line = latch.record_dead(index, read.boss_dead);
    let audit_line = latch.record_signature(index, signature);
    Some(
        MatchAuditLines {
            lifecycle_line,
            death_line,
            audit_line,
            summon_active,
            summon_entry: obs.candidate.entry,
            summon_object_id: obs.candidate.object_id,
            summon_result_eligibility: eligibility,
            summon_cleanup: cleanup,
            child: snapshot,
        },
    )
}


/// The first letter of a cleanup phase's name, as a byte.
pub open spec fn spec_cleanup_phase_initial(phase: ParentDeathCleanupPhase) -> u8 {
    match phase {
        ParentDeathCleanupPhase::Inactive => 0x69,
        ParentDeathCleanupPhase::DeathObserved => 0x64,
        ParentDeathCleanupPhase::NativeGrace => 0x6e,
        ParentDeathCleanupPhase::RecheckParent => 0x72,
        ParentDeathCleanupPhase::FallbackPending => 0x66,
        ParentDeathCleanupPhase::Complete => 0x63,
        ParentDeathCleanupPhase::Aborted => 0x61,
    }
}

fn cleanup_phase_initial(phase: ParentDeathCleanupPhase) -> (r: u8)
    ensures
        r == spec_cleanup_phase_initial(phase),
{
    match phase {
        ParentDeathCleanupPhase::Inactive => 0x69,
        ParentDeathCleanupPhase::DeathObserved => 0x64,
        ParentDeathCleanupPhase::NativeGrace => 0x6e,
        ParentDeathCleanupPhase::RecheckParent => 0x72,
        ParentDeathCleanupPhase::FallbackPending => 0x66,
        ParentDeathCleanupPhase::Complete => 0x63,
        ParentDeathCleanupPhase::Aborted => 0x61,
    }
}

/// The first letter of a cleanup action's name, as a byte.
pub open spec fn spec_cleanup_action_initial(action: ParentDeathCleanupAction) -> u8 {
    match action {
        ParentDeathCleanupAction::Defer => 0x64,
        ParentDeathCleanupAction::RunFallback => 0x72,
        ParentDeathCleanupAction::Complete => 0x63,
        ParentDeathCleanupAction::Abort => 0x61,
    }
}

fn cleanup_action_initial(action: ParentDeathCleanupAction) -> (r: u8)
    ensures
        r == spec_cleanup_action_initial(action),
{
    match action {
        ParentDeathCleanupAction::Defer => 0x64,
        ParentDeathCleanupAction::RunFallback => 0x72,
        ParentDeathCleanupAction::Complete => 0x63,
        ParentDeathCleanupAction::Abort => 0x61,
    }
}

/// The signature of a cleanup line: the cleanup's generation, phase, grace
/// count, parent and kept child reading, the parent's state and the action.
pub open spec fn spec_cleanup_log_signature(
    s: ParentDeathCleanup,
    parent_active: bool,
    parent_status: i32,
    action: ParentDeathCleanupAction,
) -> u64 {
    let c = s.category5_snapshot;
    spec_rotate_left(s.generation as u64, 3) ^ spec_rotate_left(
        spec_cleanup_phase_initial(s.phase) as u64,
        9,
    ) ^ spec_rotate_left(s.callbacks_remaining as u64, 15) ^ spec_rotate_left(
        s.parent_object_id as u64,
        21,
    ) ^ (flag_word(parent_active) << 29u64) ^ spec_rotate_left(parent_status as u32 as u64, 31)
        ^ spec_rotate_left(c.entry as u64, 37) ^ spec_rotate_left(c.object_id, 43)
        ^ spec_rotate_left(c.stock, 49) ^ (flag_word(c.active) << 55u64) ^ spec_rotate_left(
        spec_cleanup_action_initial(action) as u64,
        57,
    )
}

pub fn cleanup_log_signature(
    s: &ParentDeathCleanup,
    parent_active: bool,
    parent_status: i32,
    action: ParentDeathCleanupAction,
) -> (r: u64)
    ensures
        r == spec_cleanup_log_signature(*s, parent_active, parent_status, action),
{
    let c = &s.category5_snapshot;
    rotate_left(s.generation as u64, 3) ^ rotate_left(cleanup_phase_initial(s.phase) as u64, 9)
        ^ rotate_left(s.callbacks_remaining as u64, 15) ^ rotate_left(s.parent_object_id as u64, 21)
        ^ (flag_word_exec(parent_active) << 29u64) ^ rotate_left(parent_status as u32 as u64, 31)
        ^ rotate_left(c.entry as u64, 37) ^ rotate_left(c.object_id, 43) ^ rotate_left(c.stock, 49)
        ^ (flag_word_exec(c.active) << 55u64) ^ rotate_left(
        cleanup_action_initial(action) as u64,
        57,
    )
}

/// Why a death callback ended as it did, as the cleanup line says it.
pub open spec fn spec_cleanup_exit_reason(
    s: ParentDeathCleanup,
    parent_boss_id: u32,
    child_found: bool,
    action: ParentDeathCleanupAction,
) -> Seq<char> {
    if parent_boss_id == 0 {
        "no_parent_object"@
    } else if s.phase == ParentDeathCleanupPhase::Inactive {
        if child_found {
            "death_observed"@
        } else {
            "no_category5_entry"@
        }
    } else if s.parent_object_id != parent_boss_id {
        "parent_object_id_changed"@
    } else {
        match action {
            ParentDeathCleanupAction::Defer => "native_grace_or_recheck"@,
            ParentDeathCleanupAction::RunFallback => "native_grace_complete"@,
            ParentDeathCleanupAction::Complete => "parent_inactive"@,
            ParentDeathCleanupAction::Abort => "unexpected_parent_state"@,
        }
    }
}

/// One death callback of the parent, with its log line: the cleanup steps
/// as `parent_death_cleanup_step` says, and, with debug logs on, a line is
/// written (its exit reason returned) when its signature is not the last
/// one the cleanup wrote, which it then remembers.
pub fn parent_death_cleanup_transition(
    state: &mut ParentDeathCleanup,
    parent_boss_id: u32,
    child: SummonEntrySnapshot,
    parent_active: bool,
    parent_status: i32,
    debug: bool,
) -> (r: (ParentDeathCleanupAction, Option<&'static str>))
    ensures
        ({
            let (next, action) = spec_cleanup_step(
                *old(state),
                parent_boss_id,
                child,
                parent_active,
                parent_status,
            );
            let signature = spec_cleanup_log_signature(next, parent_active, parent_status, action);
            let logged = debug && next.last_log_signature != signature;
            &&& r.0 == action
            &&& *final(state) == if logged {
                ParentDeathCleanup { last_log_signature: signature, ..next }
            } else {
                next
            }
            &&& r.1 is Some == logged
            &&& logged ==> r.1->0@ == spec_cleanup_exit_reason(
                *old(state),
                parent_boss_id,
                child.found,
                action,
            )
        }),
{
    let before = *state;
    let action = parent_death_cleanup_step(state, parent_boss_id, child, parent_active, parent_status);
    if !debug {
        return (action, None);
    }
    let signature = cleanup_log_signature(state, parent_active, parent_status, action);
    if state.last_log_signature == signature {
        return (action, None);
    }
    state.last_log_signature = signature;
    let reason = if parent_boss_id == 0 {
        "no_parent_object"
    } else if before.phase == ParentDeathCleanupPhase::Inactive {
        if child.found {
            "death_observed"
        } else {
            "no_category5_entry"
        }
    } else if before.parent_object_id != parent_boss_id {
        "parent_object_id_changed"
    } else {
        match action {
            ParentDeathCleanupAction::Defer => "native_grace_or_recheck",
            ParentDeathCleanupAction::RunFallback => "native_grace_complete",
            ParentDeathCleanupAction::Complete => "parent_inactive",
            ParentDeathCleanupAction::Abort => "unexpected_parent_state",
        }
    };
    (action, Some(reason))
}

} // verus!
