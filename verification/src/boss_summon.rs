//! Decisions behind the observation of the native Galeem/Dharkon summon:
//! the lifecycle of the summoned child entry, the roster comparison that
//! points at a summon candidate, and the bounded state machine that guards
//! the parent's death cleanup. Nothing here owns or retires a fighter entry.
use crate::amiibo_db::{mix_all, FINGERPRINT_OFFSET};
use crate::boss_helpers::ITEM_STATUS_KIND_DEAD;
use crate::text::str_eq;
use vstd::prelude::*;
use vstd::string::StringSliceAdditionalSpecFns;

verus! {

pub const MAX_FIGHTERS: usize = 8;
pub const BOSS_KIND_COUNT: usize = 2;
pub const MAX_FIGHTER_ENTRY_SLOTS: usize = 8;

/// The native fighter-information category of the Galeem/Dharkon summon:
/// a correlation key only.
pub const TEMPORARY_BOSS_SUMMON_CATEGORY: u64 = 0x5;

/// The observed lifecycle of the summoned child entry.
#[derive(Debug, Clone, Copy, PartialEq, Eq, Structural)]
pub enum SummonEntryLifecyclePhase {
    Uninitialized,
    NoChild,
    Reserved,
    Spawned,
    Active,
    ExpiredEntryReserved,
    Retiring,
    CancelledByResult,
}

impl SummonEntryLifecyclePhase {
    pub open spec fn spec_name(self) -> Seq<char> {
        match self {
            SummonEntryLifecyclePhase::Uninitialized => "uninitialized"@,
            SummonEntryLifecyclePhase::NoChild => "no_child"@,
            SummonEntryLifecyclePhase::Reserved => "reserved"@,
            SummonEntryLifecyclePhase::Spawned => "spawned"@,
            SummonEntryLifecyclePhase::Active => "active"@,
            SummonEntryLifecyclePhase::ExpiredEntryReserved => "expired_entry_reserved"@,
            SummonEntryLifecyclePhase::Retiring => "retiring"@,
            SummonEntryLifecyclePhase::CancelledByResult => "cancelled_by_result"@,
        }
    }

    /// The phase's name in the logs.
    pub fn name(self) -> (r: &'static str)
        ensures
            r@ == self.spec_name(),
    {
        match self {
            SummonEntryLifecyclePhase::Uninitialized => "uninitialized",
            SummonEntryLifecyclePhase::NoChild => "no_child",
            SummonEntryLifecyclePhase::Reserved => "reserved",
            SummonEntryLifecyclePhase::Spawned => "spawned",
            SummonEntryLifecyclePhase::Active => "active",
            SummonEntryLifecyclePhase::ExpiredEntryReserved => "expired_entry_reserved",
            SummonEntryLifecyclePhase::Retiring => "retiring",
            SummonEntryLifecyclePhase::CancelledByResult => "cancelled_by_result",
        }
    }
}

/// What was read of the summoned child entry. `sub_fighter_flag` is -1 where
/// the entry has no active object.
#[derive(Debug, Clone, Copy, PartialEq, Eq, Structural)]
pub struct SummonEntrySnapshot {
    pub found: bool,
    pub entry: usize,
    pub object_id: u64,
    pub active: bool,
    pub fighter_kind: i32,
    pub status: i32,
    pub operation_cpu: bool,
    pub team: u64,
    pub stock: u64,
    pub fighter_num: u64,
    pub fighter_category: u64,
    pub summon_boss_id: u64,
    pub sub_fighter_flag: i8,
}

impl SummonEntrySnapshot {
    pub open spec fn spec_empty() -> SummonEntrySnapshot {
        SummonEntrySnapshot {
            found: false,
            entry: usize::MAX,
            object_id: 0,
            active: false,
            fighter_kind: -1i32,
            status: -1i32,
            operation_cpu: false,
            team: 0,
            stock: 0,
            fighter_num: 0,
            fighter_category: 0,
            summon_boss_id: 0,
            sub_fighter_flag: -1i8,
        }
    }

    /// Nothing found.
    pub fn empty() -> (r: SummonEntrySnapshot)
        ensures
            r == SummonEntrySnapshot::spec_empty(),
    {
        SummonEntrySnapshot {
            found: false,
            entry: usize::MAX,
            object_id: 0,
            active: false,
            fighter_kind: -1,
            status: -1,
            operation_cpu: false,
            team: 0,
            stock: 0,
            fighter_num: 0,
            fighter_category: 0,
            summon_boss_id: 0,
            sub_fighter_flag: -1,
        }
    }
}

/// The ledger of one parent's summoned child.
#[derive(Debug, Clone, Copy)]
pub struct SummonEntryLifecycle {
    pub initialized: bool,
    pub phase: SummonEntryLifecyclePhase,
    pub parent_boss_id: u32,
    pub snapshot: SummonEntrySnapshot,
    pub parent_dead: bool,
    pub last_log_signature: u64,
}

impl SummonEntryLifecycle {
    pub open spec fn spec_empty() -> SummonEntryLifecycle {
        SummonEntryLifecycle {
            initialized: false,
            phase: SummonEntryLifecyclePhase::Uninitialized,
            parent_boss_id: 0,
            snapshot: SummonEntrySnapshot::spec_empty(),
            parent_dead: false,
            last_log_signature: u64::MAX,
        }
    }

    /// A ledger that has seen nothing: it is not initialised, and its phase
    /// is `Uninitialized`, never a retirement.
    pub fn empty() -> (r: SummonEntryLifecycle)
        ensures
            r == SummonEntryLifecycle::spec_empty(),
    {
        SummonEntryLifecycle {
            initialized: false,
            phase: SummonEntryLifecyclePhase::Uninitialized,
            parent_boss_id: 0,
            snapshot: SummonEntrySnapshot::empty(),
            parent_dead: false,
            last_log_signature: u64::MAX,
        }
    }
}

/// The transition phases at which the result screen has taken over.
pub open spec fn spec_is_result_transition_phase(phase: Seq<char>) -> bool {
    phase == "post_match_pre_result"@ || phase == "result_ready"@ || phase == "scene_exit"@
}

pub fn is_result_transition_phase(phase: &str) -> (r: bool)
    ensures
        r == spec_is_result_transition_phase(phase@),
{
    str_eq(phase, "post_match_pre_result") || str_eq(phase, "result_ready") || str_eq(
        phase,
        "scene_exit",
    )
}

/// The child's next lifecycle phase, from the transition, the parent's death,
/// what was read of the child now, and the ledger before.
pub open spec fn spec_lifecycle_phase(
    result_transition: bool,
    parent_dead: bool,
    found: bool,
    active: bool,
    previous_initialized: bool,
    previous_active: bool,
) -> SummonEntryLifecyclePhase {
    if result_transition {
        SummonEntryLifecyclePhase::CancelledByResult
    } else if parent_dead {
        if found {
            SummonEntryLifecyclePhase::Retiring
        } else if previous_initialized {
            SummonEntryLifecyclePhase::NoChild
        } else {
            SummonEntryLifecyclePhase::Uninitialized
        }
    } else if found {
        if active {
            if !previous_initialized || !previous_active {
                SummonEntryLifecyclePhase::Spawned
            } else {
                SummonEntryLifecyclePhase::Active
            }
        } else if previous_initialized && previous_active {
            SummonEntryLifecyclePhase::ExpiredEntryReserved
        } else {
            SummonEntryLifecyclePhase::Reserved
        }
    } else if previous_initialized {
        SummonEntryLifecyclePhase::NoChild
    } else {
        SummonEntryLifecyclePhase::Uninitialized
    }
}

/// Classifies the child entry for the ledger.
pub fn summon_entry_lifecycle_phase(
    transition_phase: &str,
    parent_dead: bool,
    snapshot: &SummonEntrySnapshot,
    previous: &SummonEntryLifecycle,
) -> (r: SummonEntryLifecyclePhase)
    ensures
        r == spec_lifecycle_phase(
            spec_is_result_transition_phase(transition_phase@),
            parent_dead,
            snapshot.found,
            snapshot.active,
            previous.initialized,
            previous.snapshot.active,
        ),
        !spec_is_result_transition_phase(transition_phase@) && !parent_dead && snapshot.found
            && snapshot.active ==> (r == SummonEntryLifecyclePhase::Spawned <==> !(previous.initialized
            && previous.snapshot.active)),
{
    if is_result_transition_phase(transition_phase) {
        SummonEntryLifecyclePhase::CancelledByResult
    } else if parent_dead {
        if snapshot.found {
            SummonEntryLifecyclePhase::Retiring
        } else if previous.initialized {
            SummonEntryLifecyclePhase::NoChild
        } else {
            SummonEntryLifecyclePhase::Uninitialized
        }
    } else if snapshot.found {
        if snapshot.active {
            if !previous.initialized || !previous.snapshot.active {
                SummonEntryLifecyclePhase::Spawned
            } else {
                SummonEntryLifecyclePhase::Active
            }
        } else if previous.initialized && previous.snapshot.active {
            SummonEntryLifecyclePhase::ExpiredEntryReserved
        } else {
            SummonEntryLifecyclePhase::Reserved
        }
    } else if previous.initialized {
        SummonEntryLifecyclePhase::NoChild
    } else {
        SummonEntryLifecyclePhase::Uninitialized
    }
}

/// How the child's lifecycle reads. Once the result screen has taken over,
/// the child is cancelled by it. Otherwise, after its parent's death, a
/// child still found is retiring. Otherwise a found, active child is
/// `Spawned` exactly when the ledger did not already record it active, and
/// `Active` exactly when it did; a found child that is no longer active after
/// being recorded active keeps an expired reserved entry, and one never
/// recorded active is reserved.
pub proof fn lemma_lifecycle_phase_reads_the_child(
    result_transition: bool,
    parent_dead: bool,
    found: bool,
    active: bool,
    previous_initialized: bool,
    previous_active: bool,
)
    ensures
        ({
            let phase = spec_lifecycle_phase(
                result_transition,
                parent_dead,
                found,
                active,
                previous_initialized,
                previous_active,
            );
            let recorded_active = previous_initialized && previous_active;
            &&& result_transition ==> phase == SummonEntryLifecyclePhase::CancelledByResult
            &&& !result_transition && parent_dead && found ==> phase
                == SummonEntryLifecyclePhase::Retiring
            &&& !result_transition && !parent_dead && found && active ==> (phase
                == SummonEntryLifecyclePhase::Spawned <==> !recorded_active)
            &&& !result_transition && !parent_dead && found && active ==> (phase
                == SummonEntryLifecyclePhase::Active <==> recorded_active)
            &&& !result_transition && !parent_dead && found && !active ==> (phase
                == SummonEntryLifecyclePhase::ExpiredEntryReserved <==> recorded_active)
            &&& !result_transition && !parent_dead && found && !active ==> (phase
                == SummonEntryLifecyclePhase::Reserved <==> !recorded_active)
            &&& phase == SummonEntryLifecyclePhase::Spawned ==> found && active && !recorded_active
            &&& phase == SummonEntryLifecyclePhase::Active ==> found && active && recorded_active
            &&& !found && !result_transition ==> (phase == SummonEntryLifecyclePhase::NoChild
                || phase == SummonEntryLifecyclePhase::Uninitialized)
        }),
{
}

/// A child that was never seen is never reported as leaving: without a
/// ledger entry and without a child, the phase is `Uninitialized` unless the
/// result screen took over.
pub proof fn lemma_unseen_child_is_not_retired(parent_dead: bool, active: bool, previous_active: bool)
    ensures
        spec_lifecycle_phase(false, parent_dead, false, active, false, previous_active)
            == SummonEntryLifecyclePhase::Uninitialized,
{
}

/// Whether the ledger must record a change.
pub fn summon_entry_lifecycle_changed(
    previous: &SummonEntryLifecycle,
    phase: SummonEntryLifecyclePhase,
    snapshot: &SummonEntrySnapshot,
    parent_dead: bool,
) -> (r: bool)
    ensures
        r == (!previous.initialized || previous.phase != phase || previous.snapshot.found
            != snapshot.found || previous.snapshot.active != snapshot.active
            || previous.snapshot.object_id != snapshot.object_id || previous.snapshot.entry
            != snapshot.entry || previous.parent_dead != parent_dead),
{
    !previous.initialized || previous.phase != phase || previous.snapshot.found != snapshot.found
        || previous.snapshot.active != snapshot.active || previous.snapshot.object_id
        != snapshot.object_id || previous.snapshot.entry != snapshot.entry || previous.parent_dead
        != parent_dead
}

/// The observed control state of a summon. The native creation and
/// controller-transfer steps are not visible, so the states stop at what can
/// be observed.
#[derive(Debug, Clone, Copy, PartialEq, Eq, Structural)]
pub enum SummonControlState {
    Inactive,
    SummonRequested,
    NativeStatusActive,
    NativeWait,
    NativeEnded,
    CancelledByResult,
}

pub open spec fn spec_control_state_name(state: SummonControlState) -> Seq<char> {
    match state {
        SummonControlState::Inactive => "inactive"@,
        SummonControlState::SummonRequested => "summon_requested"@,
        SummonControlState::NativeStatusActive => "native_status_active"@,
        SummonControlState::NativeWait => "native_wait"@,
        SummonControlState::NativeEnded => "native_ended"@,
        SummonControlState::CancelledByResult => "cancelled_by_result"@,
    }
}

pub fn control_state_name(state: SummonControlState) -> (r: &'static str)
    ensures
        r@ == spec_control_state_name(state),
{
    match state {
        SummonControlState::Inactive => "inactive",
        SummonControlState::SummonRequested => "summon_requested",
        SummonControlState::NativeStatusActive => "native_status_active",
        SummonControlState::NativeWait => "native_wait",
        SummonControlState::NativeEnded => "native_ended",
        SummonControlState::CancelledByResult => "cancelled_by_result",
    }
}

/// The observation phases: 0 idle, 1 requested (the summon status runs),
/// 2 native wait, 3 native complete, 4 boss inactive.
pub open spec fn spec_phase_name(phase: u8) -> Seq<char> {
    if phase == 1 {
        "requested"@
    } else if phase == 2 {
        "native_wait"@
    } else if phase == 3 {
        "native_complete"@
    } else if phase == 4 {
        "boss_inactive"@
    } else {
        "idle"@
    }
}

pub fn phase_name(phase: u8) -> (r: &'static str)
    ensures
        r@ == spec_phase_name(phase),
{
    match phase {
        1 => "requested",
        2 => "native_wait",
        3 => "native_complete",
        4 => "boss_inactive",
        _ => "idle",
    }
}

/// The observation phase of one callback: while the boss is active, the
/// summon status is phase 1 and the wait status phase 2, and leaving them
/// after either is phase 3; a boss that goes inactive after either is phase
/// 4; anything else is idle.
pub open spec fn spec_observe_phase(
    active: bool,
    status: i32,
    summon_status: i32,
    wait_status: i32,
    last_phase: u8,
) -> u8 {
    let was_running = last_phase == 1 || last_phase == 2;
    if !active {
        if was_running {
            4
        } else {
            0
        }
    } else if status == summon_status {
        1
    } else if status == wait_status {
        2
    } else if was_running {
        3
    } else {
        0
    }
}

pub fn observe_phase(
    active: bool,
    status: i32,
    summon_status: i32,
    wait_status: i32,
    last_phase: u8,
) -> (r: u8)
    ensures
        r == spec_observe_phase(active, status, summon_status, wait_status, last_phase),
{
    let was_running = last_phase == 1 || last_phase == 2;
    if !active {
        if was_running {
            4
        } else {
            0
        }
    } else if status == summon_status {
        1
    } else if status == wait_status {
        2
    } else if was_running {
        3
    } else {
        0
    }
}

/// The control state that an observation phase leads to.
pub open spec fn spec_next_control_state(phase: u8, request_pending: bool) -> SummonControlState {
    if phase == 1 {
        SummonControlState::NativeStatusActive
    } else if phase == 2 {
        SummonControlState::NativeWait
    } else if phase == 3 || phase == 4 {
        SummonControlState::NativeEnded
    } else if request_pending {
        SummonControlState::SummonRequested
    } else {
        SummonControlState::Inactive
    }
}

pub fn next_control_state(phase: u8, request_pending: bool) -> (r: SummonControlState)
    ensures
        r == spec_next_control_state(phase, request_pending),
{
    if phase == 1 {
        SummonControlState::NativeStatusActive
    } else if phase == 2 {
        SummonControlState::NativeWait
    } else if phase == 3 || phase == 4 {
        SummonControlState::NativeEnded
    } else if request_pending {
        SummonControlState::SummonRequested
    } else {
        SummonControlState::Inactive
    }
}

/// A summon observation never ends without having run: the ended phases come
/// only after the summon or wait status was seen.
pub proof fn lemma_summon_ends_only_after_running(
    active: bool,
    status: i32,
    summon_status: i32,
    wait_status: i32,
    last_phase: u8,
)
    requires
        last_phase != 1 && last_phase != 2,
    ensures
        spec_observe_phase(active, status, summon_status, wait_status, last_phase) != 3,
        spec_observe_phase(active, status, summon_status, wait_status, last_phase) != 4,
{
}

/// The observation phase follows the boss: an inactive boss is never seen
/// running the summon, an active boss in its summon status is always in the
/// requested phase and in its wait status (when that is not also its summon
/// status) in the wait phase, and an active boss in any other status has
/// completed exactly when it was running before.
pub proof fn lemma_observe_phase_follows_the_boss(
    active: bool,
    status: i32,
    summon_status: i32,
    wait_status: i32,
    last_phase: u8,
)
    ensures
        ({
            let phase = spec_observe_phase(active, status, summon_status, wait_status, last_phase);
            let was_running = last_phase == 1 || last_phase == 2;
            &&& !active ==> (phase == 4 || phase == 0) && (phase == 4 <==> was_running)
            &&& active ==> phase != 4
            &&& active && status == summon_status ==> phase == 1
            &&& active && status != summon_status && status == wait_status ==> phase == 2
            &&& active && status != summon_status && status != wait_status ==> (phase == 3
                <==> was_running) && (phase == 0 <==> !was_running)
        }),
{
}

/// The control state says what was observed: the summon status, the wait,
/// the end of either, and otherwise whether a request is still pending.
pub proof fn lemma_control_state_follows_the_phase(phase: u8, request_pending: bool)
    ensures
        (spec_next_control_state(phase, request_pending) == SummonControlState::NativeEnded) <==> (
        phase == 3 || phase == 4),
        (spec_next_control_state(phase, request_pending) == SummonControlState::NativeStatusActive)
            <==> phase == 1,
        (spec_next_control_state(phase, request_pending) == SummonControlState::NativeWait) <==> phase
            == 2,
        (spec_next_control_state(phase, request_pending) == SummonControlState::SummonRequested) <==> (
        request_pending && !(1 <= phase <= 4)),
        spec_next_control_state(phase, request_pending) != SummonControlState::CancelledByResult,
{
}

/// The slot block of a boss kind: Dharkon's entries follow Galeem's.
pub fn kind_offset(kind: &str) -> (r: usize)
    ensures
        r == if kind@ == "dharkon"@ {
            MAX_FIGHTERS
        } else {
            0
        },
{
    if str_eq(kind, "dharkon") {
        MAX_FIGHTERS
    } else {
        0
    }
}

/// The observation slot of a boss kind's entry; entries past the last share
/// the last slot of the kind.
pub fn observation_index(kind: &str, entry: usize) -> (r: usize)
    ensures
        r == (if kind@ == "dharkon"@ {
            MAX_FIGHTERS
        } else {
            0
        }) + if entry < MAX_FIGHTERS - 1 {
            entry
        } else {
            (MAX_FIGHTERS - 1) as usize
        },
        r < MAX_FIGHTERS * BOSS_KIND_COUNT,
{
    let e = if entry < MAX_FIGHTERS - 1 {
        entry
    } else {
        MAX_FIGHTERS - 1
    };
    kind_offset(kind) + e
}

/// The slot of a result-roster phase in the log deduplication table.
pub open spec fn spec_result_roster_phase_index(phase: Seq<char>) -> usize {
    if phase == "pre_match"@ {
        0
    } else if phase == "battle"@ {
        1
    } else if phase == "post_match_pre_result"@ {
        2
    } else if phase == "post_match_after_tracking_invalidation"@ {
        3
    } else if phase == "result_ready"@ {
        4
    } else if phase == "scene_exit"@ {
        5
    } else {
        6
    }
}

pub fn result_roster_phase_index(phase: &str) -> (r: usize)
    ensures
        r == spec_result_roster_phase_index(phase@),
        r < 7,
{
    if str_eq(phase, "pre_match") {
        0
    } else if str_eq(phase, "battle") {
        1
    } else if str_eq(phase, "post_match_pre_result") {
        2
    } else if str_eq(phase, "post_match_after_tracking_invalidation") {
        3
    } else if str_eq(phase, "result_ready") {
        4
    } else if str_eq(phase, "scene_exit") {
        5
    } else {
        6
    }
}

/// The bytes of a text as fingerprint words.
pub open spec fn byte_words(bytes: Seq<u8>) -> Seq<u64> {
    bytes.map_values(|b: u8| b as u64)
}

/// A token for a text in the log signatures: its bytes mixed in one by one,
/// as the list fingerprint mixes its words.
pub fn result_roster_text_token(text: &str) -> (r: u64)
    ensures
        r == mix_all(byte_words(text.spec_bytes())),
{
    let bytes = text.as_bytes();
    let n = bytes.len();
    let mut value: u64 = FINGERPRINT_OFFSET;
    let mut i: usize = 0;
    proof {
        assert(byte_words(bytes@).subrange(0, 0) =~= Seq::<u64>::empty());
    }
    while i < n
        invariant
            n == bytes@.len(),
            bytes@ == text.spec_bytes(),
            i <= n,
            value == mix_all(byte_words(bytes@).subrange(0, i as int)),
        decreases n - i,
    {
        let ghost before = byte_words(bytes@).subrange(0, i as int);
        let word = bytes[i] as u64;
        value = (value ^ word).wrapping_mul(crate::amiibo_db::FINGERPRINT_PRIME);
        proof {
            let after = byte_words(bytes@).subrange(0, i + 1);
            assert(after.drop_last() =~= before);
            assert(after.last() == word);
        }
        i = i + 1;
    }
    proof {
        assert(byte_words(bytes@).subrange(0, n as int) =~= byte_words(bytes@));
    }
    value
}

/// The roster of fighters as the summon observer sees it.
#[derive(Debug, Clone, Copy)]
pub struct RosterSnapshot {
    pub total: i32,
    pub signature: u64,
    pub active_count: usize,
    pub active_object_ids: [u32; 8],
    pub active_kinds: [i32; 8],
    pub active_teams: [u64; 8],
    pub active_team_owner_ids: [u64; 8],
    pub active_operation_cpu: [bool; 8],
    pub active_summon_boss_ids: [u64; 8],
}

impl RosterSnapshot {
    /// No roster read yet.
    pub fn empty() -> (r: RosterSnapshot)
        ensures
            r.total == -1,
            r.signature == 0,
            r.active_count == 0,
            forall|i: int|
                0 <= i < 8 ==> #[trigger] r.active_object_ids@[i] == 0 && r.active_kinds@[i] == 0
                    && r.active_teams@[i] == 0 && r.active_team_owner_ids@[i] == 0
                    && !r.active_operation_cpu@[i] && r.active_summon_boss_ids@[i] == 0,
    {
        RosterSnapshot {
            total: -1,
            signature: 0,
            active_count: 0,
            active_object_ids: [0; 8],
            active_kinds: [0; 8],
            active_teams: [0; 8],
            active_team_owner_ids: [0; 8],
            active_operation_cpu: [false; 8],
            active_summon_boss_ids: [0; 8],
        }
    }

    /// Two rosters have one shape when their counts, objects, kinds, teams
    /// and team owners agree; signatures, CPU flags and summon markers do not
    /// count.
    pub open spec fn spec_shape_matches(&self, other: &Self) -> bool {
        &&& self.total == other.total
        &&& self.active_count == other.active_count
        &&& self.active_object_ids@ == other.active_object_ids@
        &&& self.active_kinds@ == other.active_kinds@
        &&& self.active_teams@ == other.active_teams@
        &&& self.active_team_owner_ids@ == other.active_team_owner_ids@
    }

    pub fn shape_matches(&self, other: &Self) -> (r: bool)
        ensures
            r == self.spec_shape_matches(other),
    {
        if self.total != other.total || self.active_count != other.active_count {
            return false;
        }
        let mut i: usize = 0;
        while i < 8
            invariant
                i <= 8,
                forall|j: int|
                    0 <= j < i ==> #[trigger] self.active_object_ids@[j]
                        == other.active_object_ids@[j],
                forall|j: int| 0 <= j < i ==> #[trigger] self.active_kinds@[j] == other.active_kinds@[j],
                forall|j: int| 0 <= j < i ==> #[trigger] self.active_teams@[j] == other.active_teams@[j],
                forall|j: int|
                    0 <= j < i ==> #[trigger] self.active_team_owner_ids@[j]
                        == other.active_team_owner_ids@[j],
            decreases 8 - i,
        {
            if self.active_object_ids[i] != other.active_object_ids[i] || self.active_kinds[i]
                != other.active_kinds[i] || self.active_teams[i] != other.active_teams[i]
                || self.active_team_owner_ids[i] != other.active_team_owner_ids[i] {
                return false;
            }
            i = i + 1;
        }
        assert(self.active_object_ids@ =~= other.active_object_ids@);
        assert(self.active_kinds@ =~= other.active_kinds@);
        assert(self.active_teams@ =~= other.active_teams@);
        assert(self.active_team_owner_ids@ =~= other.active_team_owner_ids@);
        true
    }
}

/// Every roster has its own shape, and having one shape goes both ways.
pub proof fn lemma_shape_match_is_an_equivalence(a: RosterSnapshot, b: RosterSnapshot, c: RosterSnapshot)
    ensures
        a.spec_shape_matches(&a),
        a.spec_shape_matches(&b) ==> b.spec_shape_matches(&a),
        a.spec_shape_matches(&b) && b.spec_shape_matches(&c) ==> a.spec_shape_matches(&c),
{
}

/// A fighter that the summon may have created: a correlation for the logs,
/// never proof of ownership. `source` is 1 for a roster change, 2 for a new
/// summon marker, 3 for both, 0 for none.
#[derive(Debug, Clone, Copy, PartialEq, Eq, Structural)]
pub struct SummonCandidate {
    pub entry: usize,
    pub object_id: u32,
    pub kind: i32,
    pub team: u64,
    pub team_owner_id: u64,
    pub operation_cpu: bool,
    pub summon_boss_id: u64,
    pub source: u8,
}

impl SummonCandidate {
    pub open spec fn spec_empty() -> SummonCandidate {
        SummonCandidate {
            entry: usize::MAX,
            object_id: 0,
            kind: 0,
            team: 0,
            team_owner_id: 0,
            operation_cpu: false,
            summon_boss_id: 0,
            source: 0,
        }
    }

    /// No candidate.
    pub fn empty() -> (r: SummonCandidate)
        ensures
            r == SummonCandidate::spec_empty(),
    {
        SummonCandidate {
            entry: usize::MAX,
            object_id: 0,
            kind: 0,
            team: 0,
            team_owner_id: 0,
            operation_cpu: false,
            summon_boss_id: 0,
            source: 0,
        }
    }
}

pub open spec fn spec_candidate_source_name(source: u8) -> Seq<char> {
    if source == 1 {
        "roster_delta"@
    } else if source == 2 {
        "summon_marker"@
    } else if source == 3 {
        "roster_delta_and_summon_marker"@
    } else {
        "none"@
    }
}

pub fn candidate_source_name(source: u8) -> (r: &'static str)
    ensures
        r@ == spec_candidate_source_name(source),
{
    match source {
        1 => "roster_delta",
        2 => "summon_marker",
        3 => "roster_delta_and_summon_marker",
        _ => "none",
    }
}

/// A slot whose object differs from the baseline.
pub open spec fn roster_delta(baseline: RosterSnapshot, current: RosterSnapshot, e: int) -> bool {
    baseline.active_object_ids@[e] != current.active_object_ids@[e]
}

/// A slot that carries a summon marker the baseline did not have.
pub open spec fn marker_delta(baseline: RosterSnapshot, current: RosterSnapshot, e: int) -> bool {
    current.active_summon_boss_ids@[e] != 0 && baseline.active_summon_boss_ids@[e]
        != current.active_summon_boss_ids@[e]
}

/// How strongly a slot points at the summon: 2 for a new marker, 1 for a
/// changed object alone, 0 for an empty or unchanged slot.
pub open spec fn candidate_score(baseline: RosterSnapshot, current: RosterSnapshot, e: int) -> int {
    if current.active_object_ids@[e] == 0 {
        0
    } else if marker_delta(baseline, current, e) {
        2
    } else if roster_delta(baseline, current, e) {
        1
    } else {
        0
    }
}

/// The first slot below `n` with the given score.
pub open spec fn first_scored(
    baseline: RosterSnapshot,
    current: RosterSnapshot,
    score: int,
    n: int,
) -> Option<int>
    decreases n,
{
    if n <= 0 {
        None
    } else {
        match first_scored(baseline, current, score, n - 1) {
            Some(e) => Some(e),
            None => if candidate_score(baseline, current, n - 1) == score {
                Some(n - 1)
            } else {
                None
            },
        }
    }
}

/// The candidate that slot `e` gives.
pub open spec fn candidate_at(baseline: RosterSnapshot, current: RosterSnapshot, e: int) -> SummonCandidate {
    SummonCandidate {
        entry: e as usize,
        object_id: current.active_object_ids@[e],
        kind: current.active_kinds@[e],
        team: current.active_teams@[e],
        team_owner_id: current.active_team_owner_ids@[e],
        operation_cpu: current.active_operation_cpu@[e],
        summon_boss_id: current.active_summon_boss_ids@[e],
        source: if roster_delta(baseline, current, e) && marker_delta(baseline, current, e) {
            3
        } else if roster_delta(baseline, current, e) {
            1
        } else if marker_delta(baseline, current, e) {
            2
        } else {
            0
        },
    }
}

/// The summon candidate: the first slot with a new summon marker, else the
/// first slot whose object changed, else none.
pub open spec fn spec_native_summon_candidate(baseline: RosterSnapshot, current: RosterSnapshot) -> SummonCandidate {
    match first_scored(baseline, current, 2, 8) {
        Some(e) => candidate_at(baseline, current, e),
        None => match first_scored(baseline, current, 1, 8) {
            Some(e) => candidate_at(baseline, current, e),
            None => SummonCandidate::spec_empty(),
        },
    }
}

proof fn lemma_first_scored_bounds(baseline: RosterSnapshot, current: RosterSnapshot, score: int, n: int)
    ensures
        match first_scored(baseline, current, score, n) {
            Some(e) => 0 <= e < n && candidate_score(baseline, current, e) == score,
            None => forall|j: int| 0 <= j < n ==> candidate_score(baseline, current, j) != score,
        },
    decreases n,
{
    if n > 0 {
        lemma_first_scored_bounds(baseline, current, score, n - 1);
    }
}

proof fn lemma_first_scored_least(
    baseline: RosterSnapshot,
    current: RosterSnapshot,
    score: int,
    n: int,
    e: int,
)
    requires
        0 <= e < n,
        candidate_score(baseline, current, e) == score,
    ensures
        first_scored(baseline, current, score, n) is Some,
        first_scored(baseline, current, score, n)->0 <= e,
    decreases n,
{
    if e < n - 1 {
        lemma_first_scored_least(baseline, current, score, n - 1, e);
    } else {
        lemma_first_scored_bounds(baseline, current, score, n - 1);
    }
}

proof fn lemma_first_scored_stays(
    baseline: RosterSnapshot,
    current: RosterSnapshot,
    score: int,
    m: int,
    n: int,
)
    requires
        m <= n,
        first_scored(baseline, current, score, m) is Some,
    ensures
        first_scored(baseline, current, score, n) == first_scored(baseline, current, score, m),
    decreases n - m,
{
    if m < n {
        lemma_first_scored_stays(baseline, current, score, m, n - 1);
    }
}

/// Whether slot `e` of `current` holds a fighter.
pub open spec fn live_slot(current: RosterSnapshot, e: int) -> bool {
    current.active_object_ids@[e] != 0
}

/// Whether slot `e` carries a summon marker that the baseline did not have.
pub open spec fn new_marker_at(baseline: RosterSnapshot, current: RosterSnapshot, e: int) -> bool {
    current.active_summon_boss_ids@[e] != 0 && current.active_summon_boss_ids@[e]
        != baseline.active_summon_boss_ids@[e]
}

/// A summon candidate is always a slot that holds a fighter now and changed
/// since the baseline: an emptied slot (a fighter that left) is never one.
/// Its source says what changed; a live slot with a new summon marker wins
/// over a changed object alone, and among equals the lowest slot wins.
/// There is no candidate exactly when no live slot changed.
pub proof fn lemma_summon_candidate_is_a_changed_live_slot(baseline: RosterSnapshot, current: RosterSnapshot)
    ensures
        ({
            let r = spec_native_summon_candidate(baseline, current);
            &&& r.source != 0 ==> {
                &&& r.entry < 8
                &&& r.object_id != 0
                &&& r.object_id == current.active_object_ids@[r.entry as int]
                &&& r.summon_boss_id == current.active_summon_boss_ids@[r.entry as int]
                &&& (r.object_id != baseline.active_object_ids@[r.entry as int] <==> (r.source == 1
                    || r.source == 3))
                &&& (new_marker_at(baseline, current, r.entry as int) <==> (r.source == 2 || r.source
                    == 3))
            }
            &&& r.source == 0 ==> r == SummonCandidate::spec_empty()
            &&& (r.source == 0 <==> forall|e: int|
                0 <= e < 8 && #[trigger] live_slot(current, e) ==> current.active_object_ids@[e]
                    == baseline.active_object_ids@[e] && !new_marker_at(baseline, current, e))
            &&& forall|e: int|
                0 <= e < 8 && #[trigger] live_slot(current, e) && new_marker_at(baseline, current, e)
                    ==> (r.source == 2 || r.source == 3) && r.entry <= e
            &&& forall|e: int|
                0 <= e < 8 && #[trigger] live_slot(current, e) && current.active_object_ids@[e]
                    != baseline.active_object_ids@[e] ==> r.source != 0 && (r.entry <= e || r.source
                    == 2 || r.source == 3)
        }),
{
    lemma_first_scored_bounds(baseline, current, 2, 8);
    lemma_first_scored_bounds(baseline, current, 1, 8);
    let r = spec_native_summon_candidate(baseline, current);
    assert forall|e: int|
        0 <= e < 8 && #[trigger] live_slot(current, e) && new_marker_at(baseline, current, e) implies (
        r.source == 2 || r.source == 3) && r.entry <= e by {
        assert(candidate_score(baseline, current, e) == 2);
        lemma_first_scored_least(baseline, current, 2, 8, e);
    }
    assert forall|e: int|
        0 <= e < 8 && #[trigger] live_slot(current, e) && current.active_object_ids@[e]
            != baseline.active_object_ids@[e] implies r.source != 0 && (r.entry <= e || r.source == 2
        || r.source == 3) by {
        assert(candidate_score(baseline, current, e) >= 1);
        if candidate_score(baseline, current, e) == 1 {
            lemma_first_scored_least(baseline, current, 1, 8, e);
        } else {
            lemma_first_scored_least(baseline, current, 2, 8, e);
        }
    }
    match first_scored(baseline, current, 2, 8) {
        Some(w) => {
            assert(live_slot(current, w));
        },
        None => match first_scored(baseline, current, 1, 8) {
            Some(w) => {
                assert(live_slot(current, w));
            },
            None => {},
        },
    }
    if r.source == 0 {
        assert forall|e: int|
            0 <= e < 8 && #[trigger] live_slot(current, e) implies current.active_object_ids@[e]
                == baseline.active_object_ids@[e] && !new_marker_at(baseline, current, e) by {
            assert(candidate_score(baseline, current, e) != 2);
            assert(candidate_score(baseline, current, e) != 1);
        }
    }
}

/// Correlates a changed roster slot with the summon request; a new summon
/// marker is preferred, then the first changed slot.
pub fn native_summon_candidate(baseline: &RosterSnapshot, current: &RosterSnapshot) -> (r: SummonCandidate)
    ensures
        r == spec_native_summon_candidate(*baseline, *current),
        r.source != 0 ==> r.entry < 8 && r.object_id != 0 && r.object_id
            == current.active_object_ids@[r.entry as int],
{
    proof {
        lemma_summon_candidate_is_a_changed_live_slot(*baseline, *current);
    }
    let mut selected = SummonCandidate::empty();
    let mut selected_score: u8 = 0;
    let mut entry: usize = 0;
    while entry < MAX_FIGHTERS
        invariant
            entry <= MAX_FIGHTERS,
            selected_score == 2 ==> first_scored(*baseline, *current, 2, entry as int) is Some
                && selected == candidate_at(
                *baseline,
                *current,
                first_scored(*baseline, *current, 2, entry as int)->0,
            ),
            selected_score == 1 ==> first_scored(*baseline, *current, 2, entry as int) is None
                && first_scored(*baseline, *current, 1, entry as int) is Some && selected
                == candidate_at(
                *baseline,
                *current,
                first_scored(*baseline, *current, 1, entry as int)->0,
            ),
            selected_score == 0 ==> first_scored(*baseline, *current, 2, entry as int) is None
                && first_scored(*baseline, *current, 1, entry as int) is None && selected
                == SummonCandidate::spec_empty(),
            selected_score <= 2,
        decreases MAX_FIGHTERS - entry,
    {
        let object_id = current.active_object_ids[entry];
        let roster = baseline.active_object_ids[entry] != object_id;
        let marker = current.active_summon_boss_ids[entry] != 0
            && baseline.active_summon_boss_ids[entry] != current.active_summon_boss_ids[entry];
        let score: u8 = if object_id == 0 {
            0
        } else if marker {
            2
        } else if roster {
            1
        } else {
            0
        };
        proof {
            assert(score == candidate_score(*baseline, *current, entry as int));
            lemma_first_scored_bounds(*baseline, *current, 2, entry as int);
            lemma_first_scored_bounds(*baseline, *current, 1, entry as int);
        }
        if score > selected_score {
            let source: u8 = if roster && marker {
                3
            } else if roster {
                1
            } else if marker {
                2
            } else {
                0
            };
            selected_score = score;
            selected = SummonCandidate {
                entry,
                object_id,
                kind: current.active_kinds[entry],
                team: current.active_teams[entry],
                team_owner_id: current.active_team_owner_ids[entry],
                operation_cpu: current.active_operation_cpu[entry],
                summon_boss_id: current.active_summon_boss_ids[entry],
                source,
            };
        }
        proof {
            if first_scored(*baseline, *current, 2, entry as int) is Some {
                lemma_first_scored_stays(*baseline, *current, 2, entry as int, entry + 1);
            }
            if first_scored(*baseline, *current, 1, entry as int) is Some {
                lemma_first_scored_stays(*baseline, *current, 1, entry as int, entry + 1);
            }
        }
        entry = entry + 1;
    }
    selected
}

/// The phases of the parent death cleanup of one boss slot.
#[derive(Debug, Clone, Copy, PartialEq, Eq, Structural)]
pub enum ParentDeathCleanupPhase {
    Inactive,
    DeathObserved,
    NativeGrace,
    RecheckParent,
    FallbackPending,
    Complete,
    Aborted,
}

impl ParentDeathCleanupPhase {
    pub open spec fn spec_name(self) -> Seq<char> {
        match self {
            ParentDeathCleanupPhase::Inactive => "inactive"@,
            ParentDeathCleanupPhase::DeathObserved => "death_observed"@,
            ParentDeathCleanupPhase::NativeGrace => "native_grace"@,
            ParentDeathCleanupPhase::RecheckParent => "recheck_parent"@,
            ParentDeathCleanupPhase::FallbackPending => "fallback_pending"@,
            ParentDeathCleanupPhase::Complete => "complete"@,
            ParentDeathCleanupPhase::Aborted => "aborted"@,
        }
    }

    pub fn name(self) -> (r: &'static str)
        ensures
            r@ == self.spec_name(),
    {
        match self {
            ParentDeathCleanupPhase::Inactive => "inactive",
            ParentDeathCleanupPhase::DeathObserved => "death_observed",
            ParentDeathCleanupPhase::NativeGrace => "native_grace",
            ParentDeathCleanupPhase::RecheckParent => "recheck_parent",
            ParentDeathCleanupPhase::FallbackPending => "fallback_pending",
            ParentDeathCleanupPhase::Complete => "complete",
            ParentDeathCleanupPhase::Aborted => "aborted",
        }
    }
}

/// What the caller does after one death callback of the parent.
#[derive(Debug, Clone, Copy, PartialEq, Eq, Structural)]
pub enum ParentDeathCleanupAction {
    Defer,
    RunFallback,
    Complete,
    Abort,
}

impl ParentDeathCleanupAction {
    pub open spec fn spec_name(self) -> Seq<char> {
        match self {
            ParentDeathCleanupAction::Defer => "defer"@,
            ParentDeathCleanupAction::RunFallback => "run_fallback"@,
            ParentDeathCleanupAction::Complete => "complete"@,
            ParentDeathCleanupAction::Abort => "abort"@,
        }
    }

    pub fn name(self) -> (r: &'static str)
        ensures
            r@ == self.spec_name(),
    {
        match self {
            ParentDeathCleanupAction::Defer => "defer",
            ParentDeathCleanupAction::RunFallback => "run_fallback",
            ParentDeathCleanupAction::Complete => "complete",
            ParentDeathCleanupAction::Abort => "abort",
        }
    }
}

/// The parent death cleanup of one boss slot.
#[derive(Debug, Clone, Copy, PartialEq, Eq, Structural)]
pub struct ParentDeathCleanup {
    pub generation: u32,
    pub phase: ParentDeathCleanupPhase,
    pub parent_object_id: u32,
    pub callbacks_remaining: u8,
    pub category5_snapshot: SummonEntrySnapshot,
    pub last_log_signature: u64,
}

/// The number of death callbacks that the native parent gets before the
/// fallback is considered.
pub const NATIVE_GRACE_CALLBACKS: u8 = 3;

impl ParentDeathCleanup {
    pub open spec fn spec_empty() -> ParentDeathCleanup {
        ParentDeathCleanup {
            generation: 0,
            phase: ParentDeathCleanupPhase::Inactive,
            parent_object_id: 0,
            callbacks_remaining: 0,
            category5_snapshot: SummonEntrySnapshot::spec_empty(),
            last_log_signature: u64::MAX,
        }
    }

    /// A slot whose cleanup has not started; `reset` puts a slot back here.
    pub fn empty() -> (r: ParentDeathCleanup)
        ensures
            r == ParentDeathCleanup::spec_empty(),
    {
        ParentDeathCleanup {
            generation: 0,
            phase: ParentDeathCleanupPhase::Inactive,
            parent_object_id: 0,
            callbacks_remaining: 0,
            category5_snapshot: SummonEntrySnapshot::empty(),
            last_log_signature: u64::MAX,
        }
    }
}

/// The generation after `generation`: one more, wrapping past zero to one.
pub open spec fn next_generation(generation: u32) -> u32 {
    if generation == u32::MAX {
        1
    } else {
        (generation + 1) as u32
    }
}

/// One death callback of the parent. `parent_active` and `parent_status` are
/// what the parent object shows now; `child` what was read of the parent's
/// summoned child entry, which the cleanup keeps for its log.
pub open spec fn spec_cleanup_step(
    s: ParentDeathCleanup,
    parent_boss_id: u32,
    child: SummonEntrySnapshot,
    parent_active: bool,
    parent_status: i32,
) -> (ParentDeathCleanup, ParentDeathCleanupAction) {
    let dead = parent_status == ITEM_STATUS_KIND_DEAD;
    let child_found = child.found;
    if parent_boss_id == 0 {
        (
            ParentDeathCleanup {
                phase: ParentDeathCleanupPhase::Complete,
                callbacks_remaining: 0,
                category5_snapshot: child,
                ..s
            },
            ParentDeathCleanupAction::Complete,
        )
    } else if s.phase == ParentDeathCleanupPhase::Inactive {
        (
            ParentDeathCleanup {
                generation: next_generation(s.generation),
                phase: if child_found {
                    ParentDeathCleanupPhase::DeathObserved
                } else {
                    ParentDeathCleanupPhase::FallbackPending
                },
                parent_object_id: parent_boss_id,
                callbacks_remaining: 0,
                category5_snapshot: child,
                last_log_signature: u64::MAX,
            },
            if child_found {
                ParentDeathCleanupAction::Defer
            } else {
                ParentDeathCleanupAction::RunFallback
            },
        )
    } else if s.parent_object_id != parent_boss_id {
        (
            ParentDeathCleanup {
                phase: ParentDeathCleanupPhase::Aborted,
                callbacks_remaining: 0,
                ..s
            },
            ParentDeathCleanupAction::Abort,
        )
    } else {
        let s = ParentDeathCleanup { category5_snapshot: child, ..s };
        match s.phase {
            ParentDeathCleanupPhase::DeathObserved => if !parent_active {
                (
                    ParentDeathCleanup { phase: ParentDeathCleanupPhase::Complete, ..s },
                    ParentDeathCleanupAction::Complete,
                )
            } else if !dead {
                (
                    ParentDeathCleanup { phase: ParentDeathCleanupPhase::Aborted, ..s },
                    ParentDeathCleanupAction::Abort,
                )
            } else {
                (
                    ParentDeathCleanup {
                        phase: ParentDeathCleanupPhase::NativeGrace,
                        callbacks_remaining: NATIVE_GRACE_CALLBACKS,
                        ..s
                    },
                    ParentDeathCleanupAction::Defer,
                )
            },
            ParentDeathCleanupPhase::NativeGrace => if !parent_active {
                (
                    ParentDeathCleanup {
                        phase: ParentDeathCleanupPhase::Complete,
                        callbacks_remaining: 0,
                        ..s
                    },
                    ParentDeathCleanupAction::Complete,
                )
            } else if !dead {
                (
                    ParentDeathCleanup {
                        phase: ParentDeathCleanupPhase::Aborted,
                        callbacks_remaining: 0,
                        ..s
                    },
                    ParentDeathCleanupAction::Abort,
                )
            } else if s.callbacks_remaining > 0 {
                (
                    ParentDeathCleanup {
                        phase: if s.callbacks_remaining == 1 {
                            ParentDeathCleanupPhase::RecheckParent
                        } else {
                            ParentDeathCleanupPhase::NativeGrace
                        },
                        callbacks_remaining: (s.callbacks_remaining - 1) as u8,
                        ..s
                    },
                    ParentDeathCleanupAction::Defer,
                )
            } else {
                (
                    ParentDeathCleanup { phase: ParentDeathCleanupPhase::RecheckParent, ..s },
                    ParentDeathCleanupAction::Defer,
                )
            },
            ParentDeathCleanupPhase::RecheckParent => if !parent_active {
                (
                    ParentDeathCleanup { phase: ParentDeathCleanupPhase::Complete, ..s },
                    ParentDeathCleanupAction::Complete,
                )
            } else if dead {
                (
                    ParentDeathCleanup { phase: ParentDeathCleanupPhase::FallbackPending, ..s },
                    ParentDeathCleanupAction::RunFallback,
                )
            } else {
                (
                    ParentDeathCleanup { phase: ParentDeathCleanupPhase::Aborted, ..s },
                    ParentDeathCleanupAction::Abort,
                )
            },
            ParentDeathCleanupPhase::FallbackPending => if !parent_active {
                (
                    ParentDeathCleanup { phase: ParentDeathCleanupPhase::Complete, ..s },
                    ParentDeathCleanupAction::Complete,
                )
            } else if dead {
                (s, ParentDeathCleanupAction::Defer)
            } else {
                (
                    ParentDeathCleanup { phase: ParentDeathCleanupPhase::Aborted, ..s },
                    ParentDeathCleanupAction::Abort,
                )
            },
            ParentDeathCleanupPhase::Complete => (s, ParentDeathCleanupAction::Complete),
            _ => (s, ParentDeathCleanupAction::Abort),
        }
    }
}

/// Advances the one-shot parent death cleanup of a slot by one death
/// callback. It never retires a child entry: it gives the native parent
/// three callbacks in its DEAD status, then permits the host-item fallback
/// once if the parent is still active and dead.
pub fn parent_death_cleanup_step(
    state: &mut ParentDeathCleanup,
    parent_boss_id: u32,
    child: SummonEntrySnapshot,
    parent_active: bool,
    parent_status: i32,
) -> (r: ParentDeathCleanupAction)
    ensures
        (*final(state), r) == spec_cleanup_step(
            *old(state),
            parent_boss_id,
            child,
            parent_active,
            parent_status,
        ),
{
    let child_found = child.found;
    if parent_boss_id == 0 {
        state.phase = ParentDeathCleanupPhase::Complete;
        state.callbacks_remaining = 0;
        state.category5_snapshot = child;
        return ParentDeathCleanupAction::Complete;
    }
    if state.phase == ParentDeathCleanupPhase::Inactive {
        state.generation = if state.generation == u32::MAX {
            1
        } else {
            state.generation + 1
        };
        state.phase = if child_found {
            ParentDeathCleanupPhase::DeathObserved
        } else {
            ParentDeathCleanupPhase::FallbackPending
        };
        state.parent_object_id = parent_boss_id;
        state.callbacks_remaining = 0;
        state.category5_snapshot = child;
        state.last_log_signature = u64::MAX;
        return if child_found {
            ParentDeathCleanupAction::Defer
        } else {
            ParentDeathCleanupAction::RunFallback
        };
    }
    if state.parent_object_id != parent_boss_id {
        state.phase = ParentDeathCleanupPhase::Aborted;
        state.callbacks_remaining = 0;
        return ParentDeathCleanupAction::Abort;
    }
    state.category5_snapshot = child;
    let dead = parent_status == ITEM_STATUS_KIND_DEAD;
    match state.phase {
        ParentDeathCleanupPhase::DeathObserved => {
            if !parent_active {
                state.phase = ParentDeathCleanupPhase::Complete;
                ParentDeathCleanupAction::Complete
            } else if !dead {
                state.phase = ParentDeathCleanupPhase::Aborted;
                ParentDeathCleanupAction::Abort
            } else {
                state.phase = ParentDeathCleanupPhase::NativeGrace;
                state.callbacks_remaining = NATIVE_GRACE_CALLBACKS;
                ParentDeathCleanupAction::Defer
            }
        },
        ParentDeathCleanupPhase::NativeGrace => {
            if !parent_active {
                state.phase = ParentDeathCleanupPhase::Complete;
                state.callbacks_remaining = 0;
                ParentDeathCleanupAction::Complete
            } else if !dead {
                state.phase = ParentDeathCleanupPhase::Aborted;
                state.callbacks_remaining = 0;
                ParentDeathCleanupAction::Abort
            } else if state.callbacks_remaining > 0 {
                state.callbacks_remaining = state.callbacks_remaining - 1;
                if state.callbacks_remaining == 0 {
                    state.phase = ParentDeathCleanupPhase::RecheckParent;
                }
                ParentDeathCleanupAction::Defer
            } else {
                state.phase = ParentDeathCleanupPhase::RecheckParent;
                ParentDeathCleanupAction::Defer
            }
        },
        ParentDeathCleanupPhase::RecheckParent => {
            if !parent_active {
                state.phase = ParentDeathCleanupPhase::Complete;
                ParentDeathCleanupAction::Complete
            } else if dead {
                state.phase = ParentDeathCleanupPhase::FallbackPending;
                ParentDeathCleanupAction::RunFallback
            } else {
                state.phase = ParentDeathCleanupPhase::Aborted;
                ParentDeathCleanupAction::Abort
            }
        },
        ParentDeathCleanupPhase::FallbackPending => {
            if !parent_active {
                state.phase = ParentDeathCleanupPhase::Complete;
                ParentDeathCleanupAction::Complete
            } else if dead {
                ParentDeathCleanupAction::Defer
            } else {
                state.phase = ParentDeathCleanupPhase::Aborted;
                ParentDeathCleanupAction::Abort
            }
        },
        ParentDeathCleanupPhase::Complete => ParentDeathCleanupAction::Complete,
        _ => ParentDeathCleanupAction::Abort,
    }
}

/// The cleanup after a run of death callbacks, and the action of each. An
/// event is the parent id, what was read of the child, and whether the
/// parent is active and in which status.
pub open spec fn spec_cleanup_run(s: ParentDeathCleanup, events: Seq<(u32, SummonEntrySnapshot, bool, i32)>) -> (
    ParentDeathCleanup,
    Seq<ParentDeathCleanupAction>,
)
    decreases events.len(),
{
    if events.len() == 0 {
        (s, Seq::empty())
    } else {
        let e = events[0];
        let (next, action) = spec_cleanup_step(s, e.0, e.1, e.2, e.3);
        let (last, actions) = spec_cleanup_run(next, events.drop_first());
        (last, seq![action] + actions)
    }
}

/// The phases from which the fallback cannot be asked for again.
pub open spec fn fallback_spent(phase: ParentDeathCleanupPhase) -> bool {
    phase == ParentDeathCleanupPhase::FallbackPending || phase == ParentDeathCleanupPhase::Complete
        || phase == ParentDeathCleanupPhase::Aborted
}

/// Complete and Aborted are final: a further callback keeps the cleanup
/// finished and only ever answers Complete or Abort.
pub proof fn lemma_finished_cleanup_stays_finished(
    s: ParentDeathCleanup,
    parent_boss_id: u32,
    child: SummonEntrySnapshot,
    parent_active: bool,
    parent_status: i32,
)
    requires
        s.phase == ParentDeathCleanupPhase::Complete || s.phase == ParentDeathCleanupPhase::Aborted,
    ensures
        ({
            let (next, action) = spec_cleanup_step(
                s,
                parent_boss_id,
                child,
                parent_active,
                parent_status,
            );
            &&& next.phase == ParentDeathCleanupPhase::Complete || next.phase
                == ParentDeathCleanupPhase::Aborted
            &&& action == ParentDeathCleanupAction::Complete || action
                == ParentDeathCleanupAction::Abort
        }),
{
}

proof fn lemma_spent_run(s: ParentDeathCleanup, events: Seq<(u32, SummonEntrySnapshot, bool, i32)>)
    requires
        fallback_spent(s.phase),
    ensures
        fallback_spent(spec_cleanup_run(s, events).0.phase),
        spec_cleanup_run(s, events).1.len() == events.len(),
        forall|i: int|
            0 <= i < events.len() ==> #[trigger] spec_cleanup_run(s, events).1[i]
                != ParentDeathCleanupAction::RunFallback,
    decreases events.len(),
{
    if events.len() > 0 {
        let e = events[0];
        let (next, action) = spec_cleanup_step(s, e.0, e.1, e.2, e.3);
        lemma_spent_run(next, events.drop_first());
        let rest = spec_cleanup_run(next, events.drop_first()).1;
        assert forall|i: int| 0 <= i < events.len() implies #[trigger] spec_cleanup_run(
            s,
            events,
        ).1[i] != ParentDeathCleanupAction::RunFallback by {
            if i > 0 {
                assert(spec_cleanup_run(s, events).1[i] == rest[i - 1]);
            }
        }
    }
}

/// The fallback runs at most once per cleanup: in any run of death callbacks
/// without a reset, no two callbacks both answer RunFallback.
pub proof fn lemma_fallback_runs_at_most_once(s: ParentDeathCleanup, events: Seq<(u32, SummonEntrySnapshot, bool, i32)>)
    ensures
        spec_cleanup_run(s, events).1.len() == events.len(),
        forall|i: int, j: int|
            0 <= i < j < events.len() ==> !(#[trigger] spec_cleanup_run(s, events).1[i]
                == ParentDeathCleanupAction::RunFallback && #[trigger] spec_cleanup_run(
                s,
                events,
            ).1[j] == ParentDeathCleanupAction::RunFallback),
    decreases events.len(),
{
    if events.len() > 0 {
        let e = events[0];
        let (next, action) = spec_cleanup_step(s, e.0, e.1, e.2, e.3);
        let acts = spec_cleanup_run(s, events).1;
        let rest = spec_cleanup_run(next, events.drop_first()).1;
        lemma_fallback_runs_at_most_once(next, events.drop_first());
        if action == ParentDeathCleanupAction::RunFallback {
            assert(next.phase == ParentDeathCleanupPhase::FallbackPending);
            lemma_spent_run(next, events.drop_first());
        }
        assert forall|i: int, j: int|
            0 <= i < j < events.len() implies !(#[trigger] acts[i]
                == ParentDeathCleanupAction::RunFallback && #[trigger] acts[j]
                == ParentDeathCleanupAction::RunFallback) by {
            assert(acts[j] == rest[j - 1]);
            if i > 0 {
                assert(acts[i] == rest[i - 1]);
            }
        }
    }
}

/// A parent that is gone ends a running cleanup: whatever phase it was in,
/// the callback answers Complete.
pub proof fn lemma_gone_parent_completes(
    s: ParentDeathCleanup,
    child: SummonEntrySnapshot,
    parent_status: i32,
)
    requires
        s.parent_object_id != 0,
        s.phase == ParentDeathCleanupPhase::DeathObserved || s.phase
            == ParentDeathCleanupPhase::NativeGrace || s.phase
            == ParentDeathCleanupPhase::RecheckParent || s.phase
            == ParentDeathCleanupPhase::FallbackPending,
    ensures
        spec_cleanup_step(s, s.parent_object_id, child, false, parent_status).1
            == ParentDeathCleanupAction::Complete,
        spec_cleanup_step(s, s.parent_object_id, child, false, parent_status).0.phase
            == ParentDeathCleanupPhase::Complete,
{
}

/// The cleanup acts only for the parent it started with and only on a dead
/// parent: without a parent it completes; its first callback starts it for
/// that parent, deferring to the native teardown when a child entry was
/// seen and running the fallback at once when none was; a callback for
/// another parent aborts it; a parent that is active and not dead aborts a
/// running cleanup; and the fallback is only ever run for an active, dead
/// parent.
pub proof fn lemma_cleanup_acts_only_on_its_dead_parent(
    s: ParentDeathCleanup,
    parent_boss_id: u32,
    child: SummonEntrySnapshot,
    parent_active: bool,
    parent_status: i32,
)
    ensures
        ({
            let (next, action) = spec_cleanup_step(s, parent_boss_id, child, parent_active, parent_status);
            let running = s.phase == ParentDeathCleanupPhase::DeathObserved || s.phase
                == ParentDeathCleanupPhase::NativeGrace || s.phase
                == ParentDeathCleanupPhase::RecheckParent || s.phase
                == ParentDeathCleanupPhase::FallbackPending;
            &&& parent_boss_id == 0 ==> action == ParentDeathCleanupAction::Complete
            &&& parent_boss_id != 0 && s.phase == ParentDeathCleanupPhase::Inactive ==> {
                &&& next.parent_object_id == parent_boss_id
                &&& (action == ParentDeathCleanupAction::Defer <==> child.found)
                &&& (action == ParentDeathCleanupAction::RunFallback <==> !child.found)
            }
            &&& parent_boss_id != 0 && s.phase != ParentDeathCleanupPhase::Inactive
                && s.parent_object_id != parent_boss_id ==> action == ParentDeathCleanupAction::Abort
                && next.phase == ParentDeathCleanupPhase::Aborted
            &&& parent_boss_id != 0 && running && s.parent_object_id == parent_boss_id
                && parent_active && parent_status != ITEM_STATUS_KIND_DEAD ==> action
                == ParentDeathCleanupAction::Abort
            &&& action == ParentDeathCleanupAction::RunFallback && s.phase
                != ParentDeathCleanupPhase::Inactive ==> parent_active && parent_status
                == ITEM_STATUS_KIND_DEAD && s.parent_object_id == parent_boss_id
            &&& action == ParentDeathCleanupAction::RunFallback ==> parent_boss_id != 0
        }),
{
}

/// A dead parent whose child entry was seen gets the native grace: the first
/// callback and the three grace callbacks after it, with the recheck, are
/// deferred, and only the sixth callback runs the fallback.
pub proof fn lemma_native_grace_precedes_fallback(
    s: ParentDeathCleanup,
    parent_boss_id: u32,
    child: SummonEntrySnapshot,
)
    requires
        s.phase == ParentDeathCleanupPhase::Inactive,
        parent_boss_id != 0,
        child.found,
    ensures
        ({
            let dead = (parent_boss_id, child, true, ITEM_STATUS_KIND_DEAD);
            let events = seq![dead, dead, dead, dead, dead, dead];
            spec_cleanup_run(s, events).1 == seq![
                ParentDeathCleanupAction::Defer,
                ParentDeathCleanupAction::Defer,
                ParentDeathCleanupAction::Defer,
                ParentDeathCleanupAction::Defer,
                ParentDeathCleanupAction::Defer,
                ParentDeathCleanupAction::RunFallback,
            ]
        }),
{
    let dead = (parent_boss_id, child, true, ITEM_STATUS_KIND_DEAD);
    let events = seq![dead, dead, dead, dead, dead, dead];
    let (s1, a1) = spec_cleanup_step(s, dead.0, dead.1, dead.2, dead.3);
    let (s2, a2) = spec_cleanup_step(s1, dead.0, dead.1, dead.2, dead.3);
    let (s3, a3) = spec_cleanup_step(s2, dead.0, dead.1, dead.2, dead.3);
    let (s4, a4) = spec_cleanup_step(s3, dead.0, dead.1, dead.2, dead.3);
    let (s5, a5) = spec_cleanup_step(s4, dead.0, dead.1, dead.2, dead.3);
    let (s6, a6) = spec_cleanup_step(s5, dead.0, dead.1, dead.2, dead.3);
    assert(s1.phase == ParentDeathCleanupPhase::DeathObserved && s1.parent_object_id
        == parent_boss_id);
    assert(s2.phase == ParentDeathCleanupPhase::NativeGrace && s2.callbacks_remaining == 3);
    assert(s3.phase == ParentDeathCleanupPhase::NativeGrace && s3.callbacks_remaining == 2);
    assert(s4.phase == ParentDeathCleanupPhase::NativeGrace && s4.callbacks_remaining == 1);
    assert(s5.phase == ParentDeathCleanupPhase::RecheckParent);
    assert(a6 == ParentDeathCleanupAction::RunFallback);
    let e5 = events.drop_first();
    let e4 = e5.drop_first();
    let e3 = e4.drop_first();
    let e2 = e3.drop_first();
    let e1 = e2.drop_first();
    let e0 = e1.drop_first();
    assert(e5 =~= seq![dead, dead, dead, dead, dead]);
    assert(e4 =~= seq![dead, dead, dead, dead]);
    assert(e3 =~= seq![dead, dead, dead]);
    assert(e2 =~= seq![dead, dead]);
    assert(e1 =~= seq![dead]);
    assert(e0 =~= Seq::<(u32, SummonEntrySnapshot, bool, i32)>::empty());
    assert(spec_cleanup_run(s6, e0).1 =~= Seq::<ParentDeathCleanupAction>::empty());
    assert(spec_cleanup_run(s5, e1).1 =~= seq![a6]);
    assert(spec_cleanup_run(s4, e2).1 =~= seq![a5, a6]);
    assert(spec_cleanup_run(s3, e3).1 =~= seq![a4, a5, a6]);
    assert(spec_cleanup_run(s2, e4).1 =~= seq![a3, a4, a5, a6]);
    assert(spec_cleanup_run(s1, e5).1 =~= seq![a2, a3, a4, a5, a6]);
    assert(spec_cleanup_run(s, events).1 =~= seq![a1, a2, a3, a4, a5, a6]);
}

} // verus!
