//! Decisions about boss items and their hidden fighter hosts: when a tracked
//! boss is dropped, when a staged boss may start, which item statuses are
//! forced back to WAIT, how the boss trait bit is cleared, and which scenes
//! are not battles.
use crate::bits::{flag_word, flag_word_exec, rotate_left, spec_rotate_left};
use crate::preview::{hash40_of, label_hash40};
use vstd::prelude::*;
use vstd::string::StringSliceAdditionalSpecFns;

verus! {

/// Item status kinds of the game, as its lua constants give them.
pub const ITEM_STATUS_KIND_NONE: i32 = -1;
pub const ITEM_STATUS_KIND_THROW: i32 = 5;
pub const ITEM_STATUS_KIND_WAIT: i32 = 54;
pub const ITEM_STATUS_KIND_ENTRY: i32 = 61;
pub const ITEM_STATUS_KIND_FOR_BOSS_START: i32 = 61;
pub const ITEM_STATUS_KIND_START: i32 = 62;
pub const ITEM_STATUS_KIND_TRANS_PHASE: i32 = 63;
pub const ITEM_STATUS_KIND_DEAD: i32 = 64;
pub const ITEM_STATUS_KIND_FOR_BOSS_TERM: i32 = 65;

/// The bit of an item's trait flag that marks a boss.
pub const ITEM_TRAIT_FLAG_BOSS: i32 = 0x1000;

/// Variations of the Dharkon/Galeem item.
pub const ITEM_VARIATION_DARZ_OFFSET: i32 = 0;
pub const ITEM_VARIATION_DARZ_DARKMAP: i32 = 1;
pub const ITEM_VARIATION_DARZ_FINALMAP: i32 = 2;
pub const ITEM_VARIATION_DARZ_KIILA: i32 = 3;
pub const ITEM_VARIATION_KIILA_DARZ: i32 = 3;

pub const STAGE_ID_BOSS_PREVIEW: i32 = 0x139;
pub const STAGE_ID_CLASSIC_BONUS_GAME: i32 = 0x13A;
pub const STAGE_ID_CLASSIC_STAFFROLL: i32 = 0x13C;
pub const STAGE_ID_AMIIBO_PREVIEW: i32 = 0x135;
pub const STAGE_ID_RESULT: i32 = 0x136;

/// The voice that a stamina knockout of Mario plays.
pub const MARIO_STAMINA_KNOCKOUT_VOICE: &'static str = "vc_mario_knockout";

/// The number of fighter entries whose per-entry state is kept.
pub const ENTRY_SLOTS: usize = 8;

/// Whether a tracked boss item is dropped: never while a transition holds it;
/// otherwise when its kind is gone, or before GO when it was not prepared.
pub fn should_discard_tracked_boss(
    ready_go: bool,
    transition_quarantined: bool,
    expected_kind_active: bool,
    staged_boss_prepared: bool,
) -> (r: bool)
    ensures
        r == (!transition_quarantined && (!expected_kind_active || (!ready_go
            && !staged_boss_prepared))),
        transition_quarantined ==> !r,
        !transition_quarantined && !expected_kind_active ==> r,
        expected_kind_active && (ready_go || staged_boss_prepared) ==> !r,
{
    !transition_quarantined && (!expected_kind_active || (!ready_go && !staged_boss_prepared))
}

/// Whether a staged boss may be activated now: it was prepared, its kind is
/// live, no activation was tried yet, and the hidden helper is up.
pub fn staged_boss_ready_for_activation(
    staged_boss_prepared: bool,
    expected_kind_active: bool,
    activation_attempted: bool,
    hidden_helper_active: bool,
) -> (r: bool)
    ensures
        r == (staged_boss_prepared && expected_kind_active && !activation_attempted
            && hidden_helper_active),
        activation_attempted ==> !r,
        !staged_boss_prepared || !expected_kind_active || !hidden_helper_active ==> !r,
{
    staged_boss_prepared && expected_kind_active && !activation_attempted && hidden_helper_active
}

/// A hidden Kiila/Darz CPU is held only while it is active in status NONE.
pub fn hidden_kiila_darz_cpu_is_quarantined(active: bool, status: i32) -> (r: bool)
    ensures
        r == (active && status == ITEM_STATUS_KIND_NONE),
        !active || status != ITEM_STATUS_KIND_NONE ==> !r,
{
    active && status == ITEM_STATUS_KIND_NONE
}

/// WAIT is written only where the status is not WAIT already.
pub fn should_force_generic_wait(status: i32) -> (r: bool)
    ensures
        r == (status != ITEM_STATUS_KIND_WAIT),
        status == ITEM_STATUS_KIND_WAIT ==> !r,
{
    status != ITEM_STATUS_KIND_WAIT
}

/// Whether the trait flag has the boss bit.
pub fn item_trait_has_boss(trait_flag: i32) -> (r: bool)
    ensures
        r == (trait_flag & ITEM_TRAIT_FLAG_BOSS != 0),
{
    (trait_flag & ITEM_TRAIT_FLAG_BOSS) != 0
}

/// The trait flag with the boss bit cleared and every other bit kept.
pub fn trait_flag_without_boss(trait_flag: i32) -> (r: i32)
    ensures
        r == trait_flag & !ITEM_TRAIT_FLAG_BOSS,
        r & ITEM_TRAIT_FLAG_BOSS == 0,
        r | (trait_flag & ITEM_TRAIT_FLAG_BOSS) == trait_flag,
{
    let r = trait_flag & !ITEM_TRAIT_FLAG_BOSS;
    assert(r & 0x1000i32 == 0 && r | (trait_flag & 0x1000i32) == trait_flag) by (bit_vector)
        requires
            r == trait_flag & !0x1000i32,
    ;
    r
}

/// Clearing the boss bit leaves a flag with no boss bit, and clearing it
/// again changes nothing.
pub proof fn lemma_trait_flag_without_boss_is_idempotent(trait_flag: i32)
    ensures
        (trait_flag & !ITEM_TRAIT_FLAG_BOSS) & ITEM_TRAIT_FLAG_BOSS == 0,
        (trait_flag & !ITEM_TRAIT_FLAG_BOSS) & !ITEM_TRAIT_FLAG_BOSS == trait_flag
            & !ITEM_TRAIT_FLAG_BOSS,
{
    assert((trait_flag & !0x1000i32) & 0x1000i32 == 0 && (trait_flag & !0x1000i32) & !0x1000i32
        == trait_flag & !0x1000i32) by (bit_vector);
}

/// The name of a generic boss lifecycle status, or `other`.
pub open spec fn spec_generic_item_status_name(status: i32) -> Seq<char> {
    if status == ITEM_STATUS_KIND_WAIT {
        "WAIT"@
    } else if status == ITEM_STATUS_KIND_FOR_BOSS_START {
        "FOR_BOSS_START"@
    } else if status == ITEM_STATUS_KIND_START {
        "START"@
    } else if status == ITEM_STATUS_KIND_TRANS_PHASE {
        "TRANS_PHASE"@
    } else if status == ITEM_STATUS_KIND_DEAD {
        "DEAD"@
    } else if status == ITEM_STATUS_KIND_FOR_BOSS_TERM {
        "FOR_BOSS_TERM"@
    } else {
        "other"@
    }
}

/// The name of a generic boss lifecycle status, for the logs.
pub fn generic_item_status_name(status: i32) -> (r: &'static str)
    ensures
        r@ == spec_generic_item_status_name(status),
{
    if status == ITEM_STATUS_KIND_WAIT {
        "WAIT"
    } else if status == ITEM_STATUS_KIND_FOR_BOSS_START {
        "FOR_BOSS_START"
    } else if status == ITEM_STATUS_KIND_START {
        "START"
    } else if status == ITEM_STATUS_KIND_TRANS_PHASE {
        "TRANS_PHASE"
    } else if status == ITEM_STATUS_KIND_DEAD {
        "DEAD"
    } else if status == ITEM_STATUS_KIND_FOR_BOSS_TERM {
        "FOR_BOSS_TERM"
    } else {
        "other"
    }
}

/// The staged entry motion is put back while the intro runs and either a
/// status was forced or the motion left the intro.
pub fn should_restore_staged_entry(
    intro_active: bool,
    is_intro_motion: bool,
    status_force_performed: bool,
) -> (r: bool)
    ensures
        r == (intro_active && (status_force_performed || !is_intro_motion)),
        !intro_active ==> !r,
        intro_active && status_force_performed ==> r,
{
    intro_active && (status_force_performed || !is_intro_motion)
}

/// What to do with the audio of a Mario that may host a boss.
#[derive(Debug, Clone, Copy, PartialEq, Eq, Structural)]
pub enum BossMarioHostAudioDecision {
    /// Hidden host, or latched through the death window after scale resets.
    Suppress,
    /// The latch of an earlier host is still set, but this Mario is visibly
    /// alive.
    ReleaseLatch,
    NoAction,
}

/// A hidden host is muted; a latched host is muted while it is in a death
/// status and released otherwise; anything else is left alone.
pub open spec fn spec_boss_mario_host_audio_decision(
    hidden_now: bool,
    latched: bool,
    death_audio_status: bool,
) -> BossMarioHostAudioDecision {
    if hidden_now || (latched && death_audio_status) {
        BossMarioHostAudioDecision::Suppress
    } else if latched {
        BossMarioHostAudioDecision::ReleaseLatch
    } else {
        BossMarioHostAudioDecision::NoAction
    }
}

pub fn boss_mario_host_audio_decision(
    hidden_now: bool,
    latched: bool,
    death_audio_status: bool,
) -> (r: BossMarioHostAudioDecision)
    ensures
        r == spec_boss_mario_host_audio_decision(hidden_now, latched, death_audio_status),
        hidden_now ==> r == BossMarioHostAudioDecision::Suppress,
{
    if hidden_now {
        BossMarioHostAudioDecision::Suppress
    } else if latched && death_audio_status {
        BossMarioHostAudioDecision::Suppress
    } else if latched {
        BossMarioHostAudioDecision::ReleaseLatch
    } else {
        BossMarioHostAudioDecision::NoAction
    }
}

/// A hidden host is always muted, whatever its latch and status; a latched
/// host stays muted through its death window; a latch is only ever released
/// for a visible Mario, and a Mario that was never latched and is visible is
/// left alone.
pub proof fn lemma_hidden_host_is_always_muted(hidden_now: bool, latched: bool, death_audio_status: bool)
    ensures
        hidden_now ==> spec_boss_mario_host_audio_decision(hidden_now, latched, death_audio_status)
            == BossMarioHostAudioDecision::Suppress,
        latched && death_audio_status ==> spec_boss_mario_host_audio_decision(
            hidden_now,
            latched,
            death_audio_status,
        ) == BossMarioHostAudioDecision::Suppress,
        spec_boss_mario_host_audio_decision(hidden_now, latched, death_audio_status)
            == BossMarioHostAudioDecision::ReleaseLatch ==> !hidden_now && latched
            && !death_audio_status,
        !hidden_now && !latched ==> spec_boss_mario_host_audio_decision(
            hidden_now,
            latched,
            death_audio_status,
        ) == BossMarioHostAudioDecision::NoAction,
{
}

/// A visible Mario outside a death status is never muted, whatever the latch
/// says; a latch left over from an earlier host is released instead.
pub proof fn lemma_living_mario_is_not_muted(latched: bool)
    ensures
        spec_boss_mario_host_audio_decision(false, latched, false)
            != BossMarioHostAudioDecision::Suppress,
        latched ==> spec_boss_mario_host_audio_decision(false, latched, false)
            == BossMarioHostAudioDecision::ReleaseLatch,
{
}

/// Scenes that show a boss in the preview presentation.
pub fn is_boss_preview_stage(stage_id: i32) -> (r: bool)
    ensures
        r == (stage_id == STAGE_ID_BOSS_PREVIEW || stage_id == STAGE_ID_CLASSIC_STAFFROLL
            || stage_id == STAGE_ID_AMIIBO_PREVIEW),
{
    stage_id == STAGE_ID_BOSS_PREVIEW || stage_id == STAGE_ID_CLASSIC_STAFFROLL || stage_id
        == STAGE_ID_AMIIBO_PREVIEW
}

/// The World of Light preview, whose host is built after the selection.
pub fn is_world_of_light_boss_preview_stage(stage_id: i32) -> (r: bool)
    ensures
        r == (stage_id == STAGE_ID_BOSS_PREVIEW),
{
    stage_id == STAGE_ID_BOSS_PREVIEW
}

/// Scenes that keep the base fighter, where a boss cannot be played.
pub fn is_boss_passthrough_stage(stage_id: i32) -> (r: bool)
    ensures
        r == (stage_id == STAGE_ID_CLASSIC_BONUS_GAME),
{
    stage_id == STAGE_ID_CLASSIC_BONUS_GAME
}

/// Scenes that are not a boss battle: previews and passthroughs.
pub fn is_boss_nonbattle_stage(stage_id: i32) -> (r: bool)
    ensures
        r == (stage_id == STAGE_ID_BOSS_PREVIEW || stage_id == STAGE_ID_CLASSIC_STAFFROLL
            || stage_id == STAGE_ID_AMIIBO_PREVIEW || stage_id == STAGE_ID_CLASSIC_BONUS_GAME),
{
    is_boss_preview_stage(stage_id) || is_boss_passthrough_stage(stage_id)
}

/// The slot of an entry; entries past the last share the last slot.
pub open spec fn entry_slot(entry: usize) -> int {
    if entry < 7 {
        entry as int
    } else {
        7
    }
}

fn slot_of(entry: usize) -> (r: usize)
    ensures
        r == entry_slot(entry),
        r < ENTRY_SLOTS,
{
    if entry < 7 {
        entry
    } else {
        7
    }
}

/// The trait flag that each entry's boss had when it was first seen before
/// GO; `i32::MIN` marks an entry with nothing remembered.
pub struct PreGoTraitLedger {
    pub acquired: [i32; 8],
}

/// The ledger after `acquired` is remembered for an entry: the slot takes it
/// only while it remembers nothing.
pub open spec fn spec_remember(ledger: Seq<i32>, entry: usize, acquired: i32) -> Seq<i32> {
    if ledger[entry_slot(entry)] == i32::MIN {
        ledger.update(entry_slot(entry), acquired)
    } else {
        ledger
    }
}

/// The flag the ledger gives for an entry: what it remembers, else `staged`.
pub open spec fn spec_acquired_flag(ledger: Seq<i32>, entry: usize, staged: i32) -> i32 {
    if ledger[entry_slot(entry)] == i32::MIN {
        staged
    } else {
        ledger[entry_slot(entry)]
    }
}

impl PreGoTraitLedger {
    pub open spec fn view(&self) -> Seq<i32> {
        self.acquired@
    }

    /// A ledger that remembers nothing.
    pub fn new() -> (r: PreGoTraitLedger)
        ensures
            forall|i: int| 0 <= i < 8 ==> #[trigger] r.view()[i] == i32::MIN,
            r.view().len() == 8,
    {
        PreGoTraitLedger { acquired: [i32::MIN; 8] }
    }

    /// Forgets what the entry's slot remembered.
    pub fn reset_pre_go_trait_isolation(&mut self, entry: usize)
        ensures
            final(self).view() == old(self).view().update(entry_slot(entry), i32::MIN),
    {
        let slot = slot_of(entry);
        self.acquired[slot] = i32::MIN;
    }

    /// Remembers the acquired flag for the entry's slot, unless one is
    /// remembered already.
    pub fn remember_pre_go_acquired_trait(&mut self, entry: usize, acquired: i32)
        ensures
            final(self).view() == spec_remember(old(self).view(), entry, acquired),
    {
        let slot = slot_of(entry);
        if self.acquired[slot] == i32::MIN {
            self.acquired[slot] = acquired;
        }
    }

    /// The remembered flag of the entry's slot, else `staged`.
    pub fn pre_go_acquired_trait_flag(&self, entry: usize, staged: i32) -> (r: i32)
        ensures
            r == spec_acquired_flag(self.view(), entry, staged),
    {
        let stored = self.acquired[slot_of(entry)];
        if stored == i32::MIN {
            staged
        } else {
            stored
        }
    }
}

/// The first flag remembered for an entry stays until it is reset: a later
/// remember does not replace it, and it is what the ledger gives back.
pub proof fn lemma_first_remembered_trait_stays(
    ledger: Seq<i32>,
    entry: usize,
    first: i32,
    second: i32,
    staged: i32,
)
    requires
        ledger.len() == 8,
        ledger[entry_slot(entry)] == i32::MIN,
        first != i32::MIN,
    ensures
        spec_remember(spec_remember(ledger, entry, first), entry, second) == spec_remember(
            ledger,
            entry,
            first,
        ),
        spec_acquired_flag(spec_remember(spec_remember(ledger, entry, first), entry, second), entry, staged)
            == first,
{
}

/// After a reset the ledger gives back the staged flag again.
pub proof fn lemma_reset_forgets(ledger: Seq<i32>, entry: usize, staged: i32)
    requires
        ledger.len() == 8,
    ensures
        spec_acquired_flag(ledger.update(entry_slot(entry), i32::MIN), entry, staged) == staged,
{
}

/// Which entries are hosts of a boss Mario, so that their death audio stays
/// muted after the host's hidden scale resets.
pub struct BossMarioHostLatch {
    pub latched: [bool; 8],
}

impl BossMarioHostLatch {
    pub open spec fn view(&self) -> Seq<bool> {
        self.latched@
    }

    /// No entry latched.
    pub fn new() -> (r: BossMarioHostLatch)
        ensures
            forall|i: int| 0 <= i < 8 ==> !#[trigger] r.view()[i],
            r.view().len() == 8,
    {
        BossMarioHostLatch { latched: [false; 8] }
    }

    /// Latches the entry's slot.
    pub fn mark_boss_mario_host(&mut self, entry: usize)
        ensures
            final(self).view() == old(self).view().update(entry_slot(entry), true),
    {
        let slot = slot_of(entry);
        self.latched[slot] = true;
    }

    /// Whether the entry's slot is latched.
    pub fn is_marked_boss_mario_host(&self, entry: usize) -> (r: bool)
        ensures
            r == self.view()[entry_slot(entry)],
    {
        self.latched[slot_of(entry)]
    }

    /// Releases an entry; an entry past the last slot changes nothing.
    pub fn clear_boss_mario_host_latch(&mut self, entry: usize)
        ensures
            final(self).view() == if entry < 8 {
                old(self).view().update(entry as int, false)
            } else {
                old(self).view()
            },
    {
        if entry < 8 {
            self.latched[entry] = false;
        }
    }
}


/// The signature of a blocked-transition log line: the operation, the entry
/// and the two values each at a place of their own.
pub open spec fn spec_transition_block_signature(operation: u64, entry: usize, value_a: u32, value_b: u32) -> u64 {
    operation ^ ((entry as u64) << 8u64) ^ ((value_a as u64) << 24u64) ^ spec_rotate_left(
        value_b as u64,
        17,
    )
}

/// The entry slot of the per-entry latches: entries past the last share it.
pub open spec fn clamp_entry(entry: usize) -> usize {
    if entry < ENTRY_SLOTS {
        entry
    } else {
        (ENTRY_SLOTS - 1) as usize
    }
}

/// The latches after a blocked transition, and whether its line is written.
pub open spec fn spec_transition_log_once(
    latches: Seq<u64>,
    debug: bool,
    operation: u64,
    entry: usize,
    value_a: u32,
    value_b: u32,
) -> (Seq<u64>, bool) {
    let e = clamp_entry(entry) as int;
    let signature = spec_transition_block_signature(operation, clamp_entry(entry), value_a, value_b);
    if debug && latches[e] != signature {
        (latches.update(e, signature), true)
    } else {
        (latches, false)
    }
}

/// A transition that stays blocked is logged once: the same block seen again
/// right after writes no line.
pub proof fn lemma_blocked_transition_is_logged_once(
    latches: Seq<u64>,
    debug: bool,
    operation: u64,
    entry: usize,
    value_a: u32,
    value_b: u32,
)
    requires
        latches.len() == ENTRY_SLOTS,
    ensures
        !spec_transition_log_once(
            spec_transition_log_once(latches, debug, operation, entry, value_a, value_b).0,
            debug,
            operation,
            entry,
            value_a,
            value_b,
        ).1,
{
}

/// The last blocked-transition line written for each entry, so that a
/// transition that stays blocked is logged once.
pub struct TransitionBlockLog {
    pub last_signature: [u64; 8],
}

impl TransitionBlockLog {
    pub fn new() -> (r: TransitionBlockLog)
        ensures
            forall|i: int| 0 <= i < 8 ==> #[trigger] r.last_signature@[i] == u64::MAX,
    {
        TransitionBlockLog { last_signature: [u64::MAX; 8] }
    }

    /// Whether a blocked transition is worth a line: with debug logs on,
    /// when it differs from the last line of its entry, which then remembers
    /// it.
    pub fn log_once(&mut self, debug: bool, operation: u64, entry: usize, value_a: u32, value_b: u32) -> (r: bool)
        ensures
            (final(self).last_signature@, r) == spec_transition_log_once(
                old(self).last_signature@,
                debug,
                operation,
                entry,
                value_a,
                value_b,
            ),
    {
        if !debug {
            return false;
        }
        let e = if entry < ENTRY_SLOTS {
            entry
        } else {
            ENTRY_SLOTS - 1
        };
        let signature = operation ^ ((e as u64) << 8u64) ^ ((value_a as u64) << 24u64) ^ rotate_left(
            value_b as u64,
            17,
        );
        if self.last_signature[e] == signature {
            return false;
        }
        self.last_signature[e] = signature;
        true
    }

    /// Forgets the entry's last line, once its transition is no longer
    /// blocked.
    pub fn reset(&mut self, entry: usize)
        ensures
            final(self).last_signature@ == old(self).last_signature@.update(
                clamp_entry(entry) as int,
                u64::MAX,
            ),
    {
        let e = if entry < ENTRY_SLOTS {
            entry
        } else {
            ENTRY_SLOTS - 1
        };
        self.last_signature[e] = u64::MAX;
    }
}

/// The signature of a scene-phase trace line of an entry.
pub open spec fn spec_scene_phase_signature(
    ready_go: bool,
    result_mode: bool,
    post_match: bool,
    boss_active: bool,
    decoy_active: bool,
    stage_id: i32,
    host_status: i32,
) -> u64 {
    flag_word(ready_go) ^ spec_rotate_left(flag_word(result_mode), 3) ^ spec_rotate_left(
        flag_word(post_match),
        6,
    ) ^ spec_rotate_left(flag_word(boss_active), 9) ^ spec_rotate_left(flag_word(decoy_active), 12)
        ^ ((stage_id as u32 as u64) << 16u64) ^ spec_rotate_left(host_status as u32 as u64, 40)
}

/// The signature of a boss status trace line: the status, the status
/// before it, the motion and the boss's scale in ten-thousandths. The
/// motion frame is left out, so that a line marks a transition.
pub open spec fn spec_status_trace_signature(status: i32, prev_status: i32, motion: u64, scale_word: i32) -> u64 {
    (status as u32 as u64) ^ spec_rotate_left(prev_status as u32 as u64, 11) ^ spec_rotate_left(
        motion,
        23,
    ) ^ spec_rotate_left(scale_word as u64, 47)
}

/// The last scene-phase and status trace lines written for each entry.
pub struct BossTraceLatches {
    pub scene_phase: [u64; 8],
    pub status: [u64; 8],
}

impl BossTraceLatches {
    pub fn new() -> (r: BossTraceLatches)
        ensures
            forall|i: int|
                0 <= i < 8 ==> #[trigger] r.scene_phase@[i] == u64::MAX && r.status@[i] == u64::MAX,
    {
        BossTraceLatches { scene_phase: [u64::MAX; 8], status: [u64::MAX; 8] }
    }

    /// Whether a scene-phase line is written for an entry. Both boss
    /// modules run on the same host, and the one that owns no boss reports
    /// zero ids: only the owner writes, with debug logs on, when the line
    /// differs from the entry's last one, which then remembers it.
    pub fn trace_scene_phase(
        &mut self,
        debug: bool,
        entry: usize,
        ready_go: bool,
        result_mode: bool,
        post_match: bool,
        boss_id: u32,
        decoy_id: u32,
        boss_active: bool,
        decoy_active: bool,
        stage_id: i32,
        host_status: i32,
    ) -> (r: bool)
        ensures
            ({
                let e = clamp_entry(entry) as int;
                let signature = spec_scene_phase_signature(
                    ready_go,
                    result_mode,
                    post_match,
                    boss_id != 0 && boss_active,
                    decoy_id != 0 && decoy_active,
                    stage_id,
                    host_status,
                );
                &&& r == (debug && (boss_id != 0 || decoy_id != 0) && old(self).scene_phase@[e]
                    != signature)
                &&& final(self).scene_phase@ == if r {
                    old(self).scene_phase@.update(e, signature)
                } else {
                    old(self).scene_phase@
                }
                &&& final(self).status@ == old(self).status@
            }),
    {
        if !debug || (boss_id == 0 && decoy_id == 0) {
            return false;
        }
        let e = if entry < ENTRY_SLOTS {
            entry
        } else {
            ENTRY_SLOTS - 1
        };
        let signature = flag_word_exec(ready_go) ^ rotate_left(flag_word_exec(result_mode), 3)
            ^ rotate_left(flag_word_exec(post_match), 6) ^ rotate_left(
            flag_word_exec(boss_id != 0 && boss_active),
            9,
        ) ^ rotate_left(flag_word_exec(decoy_id != 0 && decoy_active), 12) ^ ((stage_id as u32
            as u64) << 16u64) ^ rotate_left(host_status as u32 as u64, 40);
        if self.scene_phase[e] == signature {
            return false;
        }
        self.scene_phase[e] = signature;
        true
    }

    /// Whether a boss status line is written for an entry: with debug logs
    /// on, for a boss, when the line differs from the entry's last one,
    /// which then remembers it. `scale_word` is the boss's scale in
    /// ten-thousandths, as the plugin rounds it.
    pub fn trace_boss_status(
        &mut self,
        debug: bool,
        entry: usize,
        status: i32,
        prev_status: i32,
        motion: u64,
        scale_word: i32,
    ) -> (r: bool)
        ensures
            ({
                let e = clamp_entry(entry) as int;
                let signature = spec_status_trace_signature(status, prev_status, motion, scale_word);
                &&& r == (debug && old(self).status@[e] != signature)
                &&& final(self).status@ == if r {
                    old(self).status@.update(e, signature)
                } else {
                    old(self).status@
                }
                &&& final(self).scene_phase@ == old(self).scene_phase@
            }),
    {
        if !debug {
            return false;
        }
        let e = if entry < ENTRY_SLOTS {
            entry
        } else {
            ENTRY_SLOTS - 1
        };
        let signature = (status as u32 as u64) ^ rotate_left(prev_status as u32 as u64, 11)
            ^ rotate_left(motion, 23) ^ rotate_left(scale_word as u64, 47);
        if self.status[e] == signature {
            return false;
        }
        self.status[e] = signature;
        true
    }
}

/// What the plugin read of a staged Kiila/Darz boss before GO. The motion
/// frame and the staged intro's frame are given in whole frames, as the
/// plugin rounds them toward zero.
#[derive(Debug, Clone, Copy, PartialEq, Eq, Structural)]
pub struct PreGoRead {
    pub status: i32,
    pub motion: u64,
    pub motion_frame_word: i32,
    pub tick_frame_word: i32,
    pub hidden_cpu_active: bool,
    pub hidden_cpu_status: i32,
    pub manager_active: bool,
    pub manager_status: i32,
    pub have_item: bool,
    pub status_force_performed: bool,
    pub motion_restore_performed: bool,
    pub intro_completed: bool,
    pub ready_go: bool,
    pub kind: i32,
    pub variation: i32,
    pub staged_trait_flag: i32,
}

/// The signature of a pre-GO line, with the trait flag acquired before GO.
pub open spec fn spec_pre_go_signature(r: PreGoRead, acquired_trait_flag: i32) -> u64 {
    (r.status as u32 as u64) ^ spec_rotate_left(r.motion, 8) ^ spec_rotate_left(
        r.motion_frame_word as u64,
        16,
    ) ^ spec_rotate_left(r.tick_frame_word as u64, 24) ^ spec_rotate_left(
        r.hidden_cpu_status as u32 as u64,
        32,
    ) ^ spec_rotate_left(r.manager_status as u32 as u64, 40) ^ spec_rotate_left(
        flag_word(r.hidden_cpu_active && r.hidden_cpu_status == ITEM_STATUS_KIND_NONE),
        48,
    ) ^ spec_rotate_left(flag_word(r.manager_active), 49) ^ spec_rotate_left(
        flag_word(r.have_item),
        50,
    ) ^ spec_rotate_left(flag_word(r.status_force_performed), 51) ^ spec_rotate_left(
        flag_word(r.motion_restore_performed),
        52,
    ) ^ spec_rotate_left(flag_word(r.intro_completed), 53) ^ spec_rotate_left(
        flag_word(r.ready_go),
        54,
    ) ^ spec_rotate_left(r.kind as u32 as u64, 4) ^ spec_rotate_left(r.variation as u32 as u64, 12)
        ^ spec_rotate_left(r.staged_trait_flag as u32 as u64, 20) ^ spec_rotate_left(
        acquired_trait_flag as u32 as u64,
        28,
    ) ^ spec_rotate_left(flag_word(r.staged_trait_flag & ITEM_TRAIT_FLAG_BOSS != 0), 55)
}

/// The last pre-GO line written for each entry.
pub struct PreGoTrace {
    pub last_signature: [u64; 8],
}

impl PreGoTrace {
    pub fn new() -> (r: PreGoTrace)
        ensures
            forall|i: int| 0 <= i < 8 ==> #[trigger] r.last_signature@[i] == u64::MAX,
    {
        PreGoTrace { last_signature: [u64::MAX; 8] }
    }

    /// Whether a pre-GO line is written for an entry: with debug logs on,
    /// when it differs from the entry's last one, which then remembers it.
    /// The result is the acquired trait flag the line reports, where it is
    /// written.
    pub fn trace(&mut self, debug: bool, entry: usize, read: &PreGoRead, ledger: &PreGoTraitLedger) -> (r:
        Option<i32>)
        ensures
            ({
                let e = clamp_entry(entry);
                let acquired = spec_acquired_flag(ledger.view(), e, read.staged_trait_flag);
                let signature = spec_pre_go_signature(*read, acquired);
                let written = debug && old(self).last_signature@[e as int] != signature;
                &&& r == if written {
                    Some(acquired)
                } else {
                    None::<i32>
                }
                &&& final(self).last_signature@ == if written {
                    old(self).last_signature@.update(e as int, signature)
                } else {
                    old(self).last_signature@
                }
            }),
    {
        if !debug {
            return None;
        }
        let e = if entry < ENTRY_SLOTS {
            entry
        } else {
            ENTRY_SLOTS - 1
        };
        let acquired = ledger.pre_go_acquired_trait_flag(e, read.staged_trait_flag);
        let quarantined = hidden_kiila_darz_cpu_is_quarantined(read.hidden_cpu_active, read.hidden_cpu_status);
        let boss_trait = item_trait_has_boss(read.staged_trait_flag);
        let signature = (read.status as u32 as u64) ^ rotate_left(read.motion, 8) ^ rotate_left(
            read.motion_frame_word as u64,
            16,
        ) ^ rotate_left(read.tick_frame_word as u64, 24) ^ rotate_left(
            read.hidden_cpu_status as u32 as u64,
            32,
        ) ^ rotate_left(read.manager_status as u32 as u64, 40) ^ rotate_left(
            flag_word_exec(quarantined),
            48,
        ) ^ rotate_left(flag_word_exec(read.manager_active), 49) ^ rotate_left(
            flag_word_exec(read.have_item),
            50,
        ) ^ rotate_left(flag_word_exec(read.status_force_performed), 51) ^ rotate_left(
            flag_word_exec(read.motion_restore_performed),
            52,
        ) ^ rotate_left(flag_word_exec(read.intro_completed), 53) ^ rotate_left(
            flag_word_exec(read.ready_go),
            54,
        ) ^ rotate_left(read.kind as u32 as u64, 4) ^ rotate_left(read.variation as u32 as u64, 12)
            ^ rotate_left(read.staged_trait_flag as u32 as u64, 20) ^ rotate_left(
            acquired as u32 as u64,
            28,
        ) ^ rotate_left(flag_word_exec(boss_trait), 55);
        if self.last_signature[e] == signature {
            return None;
        }
        self.last_signature[e] = signature;
        Some(acquired)
    }
}

/// The last status and GO flag that a Kiila/Darz drift line reported for
/// each entry.
pub struct NativeDriftLatch {
    pub last_status: [i32; 8],
    pub last_ready_go: [u8; 8],
}

impl NativeDriftLatch {
    pub fn new() -> (r: NativeDriftLatch)
        ensures
            forall|i: int|
                0 <= i < 8 ==> #[trigger] r.last_status@[i] == i32::MIN && r.last_ready_go@[i] == 0xff,
    {
        NativeDriftLatch { last_status: [i32::MIN; 8], last_ready_go: [0xff; 8] }
    }

    /// Whether a boss that drifted out of WAIT is reported: with debug logs
    /// on, for a status other than WAIT, when the status or the GO flag
    /// differs from the entry's last report, which then remembers both.
    pub fn observe(&mut self, debug: bool, entry: usize, observed_status: i32, ready_go: bool) -> (r: bool)
        ensures
            ({
                let e = clamp_entry(entry) as int;
                let key: u8 = if ready_go {
                    1
                } else {
                    0
                };
                &&& r == (debug && observed_status != ITEM_STATUS_KIND_WAIT && !(
                old(self).last_status@[e] == observed_status && old(self).last_ready_go@[e] == key))
                &&& observed_status == ITEM_STATUS_KIND_WAIT || !debug ==> !r
                    && final(self).last_status@ == old(self).last_status@
                &&& r ==> final(self).last_status@[e] == observed_status
                    && final(self).last_ready_go@[e] == key
                &&& final(self).last_status@ == if r {
                    old(self).last_status@.update(e, observed_status)
                } else {
                    old(self).last_status@
                }
                &&& final(self).last_ready_go@ == if r {
                    old(self).last_ready_go@.update(e, key)
                } else {
                    old(self).last_ready_go@
                }
            }),
    {
        if !debug || observed_status == ITEM_STATUS_KIND_WAIT {
            return false;
        }
        let e = if entry < ENTRY_SLOTS {
            entry
        } else {
            ENTRY_SLOTS - 1
        };
        let key: u8 = if ready_go {
            1
        } else {
            0
        };
        if self.last_status[e] == observed_status && self.last_ready_go[e] == key {
            return false;
        }
        self.last_status[e] = observed_status;
        self.last_ready_go[e] = key;
        true
    }
}

/// The summon id that the roster shows for "no summon".
pub const NO_SUMMON_SENTINEL: u32 = 0x5000_0000;

/// What the plugin read of a fighter entry for the category probe: its
/// category and summon id, and of the object that the id names, whether it
/// is active and its kind.
#[derive(Debug, Clone, Copy, PartialEq, Eq, Structural)]
pub struct CategoryRead {
    pub fighter_category: u64,
    pub summon_boss_id: u64,
    pub summon_active: bool,
    pub summon_kind: i32,
}

/// One entry with a fighter category, and the object its summon id names.
#[derive(Debug, Clone, Copy, PartialEq, Eq, Structural)]
pub struct CategoryFinding {
    pub entry: usize,
    pub fighter_category: u64,
    pub summon_id: u32,
    pub resolvable: bool,
    pub kind: i32,
}

/// The finding for an entry: the summon id resolves when it is neither
/// zero nor the sentinel and its object is active; its kind is read only
/// then.
pub open spec fn spec_category_finding(entry: int, r: CategoryRead) -> CategoryFinding {
    let id = r.summon_boss_id as u32;
    let resolvable = id != 0 && id != NO_SUMMON_SENTINEL && r.summon_active;
    CategoryFinding {
        entry: entry as usize,
        fighter_category: r.fighter_category,
        summon_id: id,
        resolvable,
        kind: if resolvable {
            r.summon_kind
        } else {
            -1i32
        },
    }
}

/// The findings of the first `n` entries: those read with a category.
pub open spec fn spec_category_findings(reads: Seq<Option<CategoryRead>>, n: int) -> Seq<CategoryFinding>
    decreases n,
{
    if n <= 0 {
        Seq::empty()
    } else {
        let before = spec_category_findings(reads, n - 1);
        match reads[n - 1] {
            Some(r) => if r.fighter_category != 0 {
                before.push(spec_category_finding(n - 1, r))
            } else {
                before
            },
            None => before,
        }
    }
}

/// The findings are exactly the entries read with a fighter category, each
/// once and in entry order, with the summon id the entry shows; a summon id
/// resolves only when it is neither zero nor the sentinel and its object is
/// active, and a kind is reported only for a resolved id.
pub proof fn lemma_category_findings_are_the_categorised_entries(reads: Seq<Option<CategoryRead>>, n: int)
    requires
        0 <= n <= reads.len(),
        n <= usize::MAX,
    ensures
        ({
            let f = spec_category_findings(reads, n);
            &&& forall|k: int|
                0 <= k < f.len() ==> {
                    let e = #[trigger] f[k].entry as int;
                    &&& 0 <= e < n
                    &&& reads[e] matches Some(read) && read.fighter_category != 0
                        && f[k].fighter_category == read.fighter_category && f[k].summon_id
                        == read.summon_boss_id as u32 && (f[k].resolvable <==> (f[k].summon_id != 0
                        && f[k].summon_id != NO_SUMMON_SENTINEL && read.summon_active)) && f[k].kind
                        == (if f[k].resolvable {
                        read.summon_kind
                    } else {
                        -1i32
                    })
                }
            &&& forall|k: int, l: int|
                0 <= k < l < f.len() ==> #[trigger] f[k].entry < #[trigger] f[l].entry
            &&& forall|e: int|
                0 <= e < n && (#[trigger] reads[e] matches Some(read) && read.fighter_category != 0)
                    ==> exists|k: int| 0 <= k < f.len() && #[trigger] f[k].entry == e
        }),
    decreases n,
{
    if n > 0 {
        lemma_category_findings_are_the_categorised_entries(reads, n - 1);
        let before = spec_category_findings(reads, n - 1);
        let f = spec_category_findings(reads, n);
        if f.len() > before.len() {
            assert(f == before.push(f.last()));
            assert(f[before.len() as int].entry == (n - 1) as usize);
            assert forall|k: int, l: int| 0 <= k < l < f.len() implies #[trigger] f[k].entry
                < #[trigger] f[l].entry by {
                assert(f[k] == before[k]);
                if l < before.len() {
                    assert(f[l] == before[l]);
                }
            }
            assert forall|e: int|
                0 <= e < n && (#[trigger] reads[e] matches Some(read) && read.fighter_category != 0)
                    implies exists|k: int| 0 <= k < f.len() && #[trigger] f[k].entry == e by {
                if e < n - 1 {
                    let k = choose|k: int| 0 <= k < before.len() && #[trigger] before[k].entry == e;
                    assert(f[k] == before[k]);
                } else {
                    assert(f[before.len() as int].entry == e);
                }
            }
            assert forall|k: int| 0 <= k < f.len() implies {
                let e = #[trigger] f[k].entry as int;
                &&& 0 <= e < n
                &&& reads[e] matches Some(read) && read.fighter_category != 0
                    && f[k].fighter_category == read.fighter_category && f[k].summon_id
                    == read.summon_boss_id as u32 && (f[k].resolvable <==> (f[k].summon_id != 0
                    && f[k].summon_id != NO_SUMMON_SENTINEL && read.summon_active)) && f[k].kind
                    == (if f[k].resolvable {
                    read.summon_kind
                } else {
                    -1i32
                })
            } by {
                if k < before.len() {
                    assert(f[k] == before[k]);
                }
            }
        } else {
            assert(f == before);
            assert forall|e: int|
                0 <= e < n && (#[trigger] reads[e] matches Some(read) && read.fighter_category != 0)
                    implies exists|k: int| 0 <= k < f.len() && #[trigger] f[k].entry == e by {
                let k = choose|k: int| 0 <= k < before.len() && #[trigger] before[k].entry == e;
            }
        }
    }
}

/// The word a finding mixes into the probe's signature.
pub open spec fn spec_finding_word(f: CategoryFinding) -> u64 {
    ((f.entry as u64) << 1u64) ^ spec_rotate_left(f.fighter_category, 8) ^ spec_rotate_left(
        f.summon_id as u64,
        20,
    ) ^ spec_rotate_left(f.kind as u32 as u64, 44)
}

/// The probe's signature: the words of the findings mixed in turn.
pub open spec fn spec_findings_signature(findings: Seq<CategoryFinding>) -> u64
    decreases findings.len(),
{
    if findings.len() == 0 {
        0
    } else {
        spec_findings_signature(findings.drop_last()) ^ spec_finding_word(findings.last())
    }
}

/// The entries with a fighter category, and the probe's signature.
pub fn category_findings(reads: &[Option<CategoryRead>; 8]) -> (r: (Vec<CategoryFinding>, u64))
    ensures
        r.0@ == spec_category_findings(reads@, 8),
        r.1 == spec_findings_signature(r.0@),
{
    let mut findings: Vec<CategoryFinding> = Vec::new();
    let mut signature: u64 = 0;
    let mut entry: usize = 0;
    while entry < 8
        invariant
            entry <= 8,
            findings@ == spec_category_findings(reads@, entry as int),
            signature == spec_findings_signature(findings@),
        decreases 8 - entry,
    {
        match reads[entry] {
            Some(read) => {
                if read.fighter_category != 0 {
                    let id = read.summon_boss_id as u32;
                    let resolvable = id != 0 && id != NO_SUMMON_SENTINEL && read.summon_active;
                    let kind = if resolvable {
                        read.summon_kind
                    } else {
                        -1
                    };
                    let finding = CategoryFinding {
                        entry,
                        fighter_category: read.fighter_category,
                        summon_id: id,
                        resolvable,
                        kind,
                    };
                    let ghost before = findings@;
                    findings.push(finding);
                    signature = signature ^ (((entry as u64) << 1u64) ^ rotate_left(
                        read.fighter_category,
                        8,
                    ) ^ rotate_left(id as u64, 20) ^ rotate_left(kind as u32 as u64, 44));
                    proof {
                        assert(findings@.drop_last() =~= before);
                    }
                }
            },
            None => {},
        }
        entry = entry + 1;
    }
    (findings, signature)
}

/// The last signature of the category probe.
pub struct CategoryProbe {
    pub last_signature: u64,
}

impl CategoryProbe {
    pub fn new() -> (r: CategoryProbe)
        ensures
            r.last_signature == u64::MAX,
    {
        CategoryProbe { last_signature: u64::MAX }
    }

    /// The findings to log: with debug logs on, after GO, where there are
    /// findings and their signature differs from the last one logged, which
    /// then is remembered. Otherwise nothing.
    pub fn observe(&mut self, debug: bool, ready_go: bool, reads: &[Option<CategoryRead>; 8]) -> (r: Vec<
        CategoryFinding,
    >)
        ensures
            ({
                let findings = spec_category_findings(reads@, 8);
                let signature = spec_findings_signature(findings);
                let logged = debug && ready_go && findings.len() > 0 && old(self).last_signature
                    != signature;
                &&& r@ == if logged {
                    findings
                } else {
                    Seq::<CategoryFinding>::empty()
                }
                &&& final(self).last_signature == if logged {
                    signature
                } else {
                    old(self).last_signature
                }
            }),
    {
        if !debug || !ready_go {
            return Vec::new();
        }
        let (findings, signature) = category_findings(reads);
        if findings.len() == 0 || self.last_signature == signature {
            return Vec::new();
        }
        self.last_signature = signature;
        findings
    }
}

/// Whether a Kiila/Darz motion is one of its intro motions, `entry` or
/// `entry2`, as their label hashes name them.
pub fn is_kiila_darz_intro_motion(motion: u64) -> (r: bool)
    ensures
        r == (motion == hash40_of("entry".spec_bytes()) || motion == hash40_of(
            "entry2".spec_bytes(),
        )),
{
    motion == label_hash40("entry") || motion == label_hash40("entry2")
}

/// The status kinds of the first Kiila/Darz attacks, as the game's item
/// constants give them: Dharkon's Pierce start and loop, Galeem's Static
/// Missile start, loop and end. The plugin reads them from the game's
/// constant tables.
#[derive(Debug, Clone, Copy, PartialEq, Eq, Structural)]
pub struct KiilaDarzAttackStatuses {
    pub darz_pierce_start: i32,
    pub darz_pierce_loop: i32,
    pub kiila_static_missile_start: i32,
    pub kiila_static_missile_loop: i32,
    pub kiila_static_missile_end: i32,
}

/// Whether a status is one of the first attacks that native GO hands a
/// Kiila/Darz boss into: Pierce or Static Missile only.
pub fn is_kiila_darz_first_attack_status(status: i32, statuses: &KiilaDarzAttackStatuses) -> (r: bool)
    ensures
        r == (status == statuses.darz_pierce_start || status == statuses.darz_pierce_loop || status
            == statuses.kiila_static_missile_start || status == statuses.kiila_static_missile_loop
            || status == statuses.kiila_static_missile_end),
{
    status == statuses.darz_pierce_start || status == statuses.darz_pierce_loop || status
        == statuses.kiila_static_missile_start || status == statuses.kiila_static_missile_loop
        || status == statuses.kiila_static_missile_end
}

/// Whether a spawned Kiila/Darz boss in `status` is pulled back to WAIT: in
/// exactly its first attacks.
pub fn should_intercept_kiila_darz_spawn_status(status: i32, statuses: &KiilaDarzAttackStatuses) -> (r:
    bool)
    ensures
        r == (status == statuses.darz_pierce_start || status == statuses.darz_pierce_loop || status
            == statuses.kiila_static_missile_start || status == statuses.kiila_static_missile_loop
            || status == statuses.kiila_static_missile_end),
{
    is_kiila_darz_first_attack_status(status, statuses)
}

} // verus!
