//! The per-slot tables of the Galeem/Dharkon summon bookkeeping: one slot for
//! each boss kind and fighter entry, holding the summon observation, the
//! child ledger, the parent death cleanup and the log latches. The plugin
//! reads the game and hands the readings to these operations.
use crate::bits::{flag_word, flag_word_exec, rotate_left, spec_rotate_left};
use crate::boss_summon::{
    observation_index, spec_cleanup_step, ParentDeathCleanup, ParentDeathCleanupAction,
    SummonControlState, SummonEntryLifecycle, SummonEntrySnapshot,
};
use crate::summon_observation::{
    observe_summon_entry_lifecycle, parent_death_cleanup_transition,
    spec_cleanup_exit_reason, spec_cleanup_log_signature, spec_cleanup_phase_initial,
    spec_is_empty_observation, spec_observe_lifecycle, spec_slot_index, MatchAuditLatch,
    SummonObservation,
};
use vstd::prelude::*;

verus! {

/// The number of slots: one per boss kind and fighter entry.
pub const SUMMON_SLOTS: usize = 16;

/// The summon bookkeeping of every slot.
pub struct BossSummonSlots {
    pub observations: [SummonObservation; 16],
    pub lifecycles: [SummonEntryLifecycle; 16],
    pub cleanups: [ParentDeathCleanup; 16],
    pub scene_exit_last_signature: [u64; 16],
    pub match_audit: MatchAuditLatch,
}

/// What one death callback of a parent did.
#[derive(Debug, Clone, Copy)]
pub struct ParentDeathCallback {
    pub action: ParentDeathCleanupAction,
    /// The child reading the cleanup works with.
    pub child: SummonEntrySnapshot,
    /// Whether the child ledger writes a line.
    pub lifecycle_line: bool,
    /// The exit reason of the cleanup line, where one is written.
    pub cleanup_line: Option<&'static str>,
}

/// What resetting a slot wrote.
#[derive(Debug, Clone, Copy)]
pub struct SlotReset {
    /// Whether the child ledger writes a last line for the prior parent.
    pub lifecycle_line: bool,
    /// The control state of a summon that the reset cancels, where one was
    /// running and debug logs are on.
    pub cancelled: Option<SummonControlState>,
}

/// What cancelling the observation of one slot at a transition wrote.
#[derive(Debug, Clone, Copy, PartialEq, Eq, Structural)]
pub struct TransitionCancel {
    /// Whether the child ledger writes a line.
    pub lifecycle_line: bool,
    /// Whether a running summon is reported cancelled.
    pub cancelled: bool,
}

/// A slot's child ledger after the observation of its slot is dropped at a
/// transition: the last parent's child is observed once more.
pub open spec fn spec_cancel_ledger(
    o: SummonObservation,
    ledger: SummonEntryLifecycle,
    child: SummonEntrySnapshot,
    reason: Seq<char>,
    debug: bool,
) -> (SummonEntryLifecycle, bool) {
    if o.initialized && o.last_boss_id != 0 {
        spec_observe_lifecycle(
            ledger,
            o.last_boss_id,
            false,
            crate::boss_summon::spec_is_result_transition_phase(reason),
            child,
            debug,
        )
    } else {
        (ledger, false)
    }
}

/// The signature of a scene-exit line of a slot.
pub open spec fn spec_scene_exit_signature(
    parent_boss_id: u32,
    cleanup: ParentDeathCleanup,
    child: SummonEntrySnapshot,
    parent_active: bool,
    ready_go: bool,
    result_mode: bool,
    stage_id: i32,
) -> u64 {
    spec_rotate_left(parent_boss_id as u64, 7) ^ spec_rotate_left(cleanup.generation as u64, 13)
        ^ spec_rotate_left(spec_cleanup_phase_initial(cleanup.phase) as u64, 19) ^ spec_rotate_left(
        child.entry as u64,
        25,
    ) ^ spec_rotate_left(child.object_id, 31) ^ spec_rotate_left(child.stock, 37) ^ (flag_word(
        child.active,
    ) << 43u64) ^ (flag_word(parent_active) << 44u64) ^ (flag_word(ready_go) << 45u64) ^ (
    flag_word(result_mode) << 46u64) ^ spec_rotate_left(stage_id as u32 as u64, 49)
}

fn scene_exit_signature(
    parent_boss_id: u32,
    cleanup: &ParentDeathCleanup,
    child: &SummonEntrySnapshot,
    parent_active: bool,
    ready_go: bool,
    result_mode: bool,
    stage_id: i32,
) -> (r: u64)
    ensures
        r == spec_scene_exit_signature(
            parent_boss_id,
            *cleanup,
            *child,
            parent_active,
            ready_go,
            result_mode,
            stage_id,
        ),
{
    let initial: u8 = match cleanup.phase {
        crate::boss_summon::ParentDeathCleanupPhase::Inactive => 0x69,
        crate::boss_summon::ParentDeathCleanupPhase::DeathObserved => 0x64,
        crate::boss_summon::ParentDeathCleanupPhase::NativeGrace => 0x6e,
        crate::boss_summon::ParentDeathCleanupPhase::RecheckParent => 0x72,
        crate::boss_summon::ParentDeathCleanupPhase::FallbackPending => 0x66,
        crate::boss_summon::ParentDeathCleanupPhase::Complete => 0x63,
        crate::boss_summon::ParentDeathCleanupPhase::Aborted => 0x61,
    };
    rotate_left(parent_boss_id as u64, 7) ^ rotate_left(cleanup.generation as u64, 13)
        ^ rotate_left(initial as u64, 19) ^ rotate_left(child.entry as u64, 25) ^ rotate_left(
        child.object_id,
        31,
    ) ^ rotate_left(child.stock, 37) ^ (flag_word_exec(child.active) << 43u64) ^ (flag_word_exec(
        parent_active,
    ) << 44u64) ^ (flag_word_exec(ready_go) << 45u64) ^ (flag_word_exec(result_mode) << 46u64)
        ^ rotate_left(stage_id as u32 as u64, 49)
}

impl BossSummonSlots {
    /// Every slot empty.
    pub fn new() -> (r: BossSummonSlots)
        ensures
            forall|i: int|
                0 <= i < 16 ==> {
                    &&& spec_is_empty_observation(#[trigger] r.observations@[i])
                    &&& r.lifecycles@[i] == SummonEntryLifecycle::spec_empty()
                    &&& r.cleanups@[i] == ParentDeathCleanup::spec_empty()
                    &&& r.scene_exit_last_signature@[i] == u64::MAX
                    &&& r.match_audit.last_signature@[i] == u64::MAX
                    &&& r.match_audit.last_dead@[i] == -1
                },
    {
        let observation = SummonObservation::empty();
        let lifecycle = SummonEntryLifecycle::empty();
        let cleanup = ParentDeathCleanup::empty();
        BossSummonSlots {
            observations: [observation; 16],
            lifecycles: [lifecycle; 16],
            cleanups: [cleanup; 16],
            scene_exit_last_signature: [u64::MAX; 16],
            match_audit: MatchAuditLatch::new(),
        }
    }

    /// One death callback of the parent of a slot: the child ledger observes
    /// the child of the dead parent, then the cleanup steps with what the
    /// ledger observed. `child` is what the plugin read of the parent's child
    /// entry; `parent_active` and `parent_status` what the parent shows.
    pub fn parent_death_cleanup_step(
        &mut self,
        kind: &str,
        entry: usize,
        parent_boss_id: u32,
        child: SummonEntrySnapshot,
        parent_active: bool,
        parent_status: i32,
        debug: bool,
    ) -> (r: ParentDeathCallback)
        ensures
            ({
                let i = spec_slot_index(kind@, entry);
                let (ledger, lifecycle_line) = spec_observe_lifecycle(
                    old(self).lifecycles@[i],
                    parent_boss_id,
                    true,
                    false,
                    child,
                    debug,
                );
                let kept = if parent_boss_id == 0 {
                    SummonEntrySnapshot::spec_empty()
                } else {
                    child
                };
                let (next, action) = spec_cleanup_step(
                    old(self).cleanups@[i],
                    parent_boss_id,
                    kept,
                    parent_active,
                    parent_status,
                );
                let signature = spec_cleanup_log_signature(next, parent_active, parent_status, action);
                let logged = debug && next.last_log_signature != signature;
                &&& final(self).lifecycles@ == old(self).lifecycles@.update(i, ledger)
                &&& final(self).cleanups@ == old(self).cleanups@.update(
                    i,
                    if logged {
                        ParentDeathCleanup { last_log_signature: signature, ..next }
                    } else {
                        next
                    },
                )
                &&& final(self).observations@ == old(self).observations@
                &&& final(self).scene_exit_last_signature@ == old(self).scene_exit_last_signature@
                &&& final(self).match_audit.last_signature@ == old(self).match_audit.last_signature@
                &&& final(self).match_audit.last_dead@ == old(self).match_audit.last_dead@
                &&& r.action == action
                &&& r.child == kept
                &&& r.lifecycle_line == lifecycle_line
                &&& r.cleanup_line is Some == logged
                &&& logged ==> r.cleanup_line->0@ == spec_cleanup_exit_reason(
                    old(self).cleanups@[i],
                    parent_boss_id,
                    kept.found,
                    action,
                )
            }),
    {
        let index = observation_index(kind, entry);
        let mut ledger = self.lifecycles[index];
        let (kept, lifecycle_line) = observe_summon_entry_lifecycle(
            &mut ledger,
            parent_boss_id,
            true,
            "battle",
            child,
            debug,
        );
        proof {
            reveal_strlit("battle");
            reveal_strlit("post_match_pre_result");
            reveal_strlit("result_ready");
            reveal_strlit("scene_exit");
            assert("battle"@.len() == 6);
            assert("scene_exit"@.len() == 10);
            assert("result_ready"@.len() == 12);
            assert("post_match_pre_result"@.len() == 21);
            assert(!crate::boss_summon::spec_is_result_transition_phase("battle"@));
        }
        self.lifecycles[index] = ledger;
        let mut cleanup = self.cleanups[index];
        let (action, cleanup_line) = parent_death_cleanup_transition(
            &mut cleanup,
            parent_boss_id,
            kept,
            parent_active,
            parent_status,
            debug,
        );
        self.cleanups[index] = cleanup;
        ParentDeathCallback { action, child: kept, lifecycle_line, cleanup_line }
    }

    /// The parent whose child the slot's ledger follows, if any: the plugin
    /// reads that parent's child before it resets the slot.
    pub fn prior_parent(&self, kind: &str, entry: usize) -> (r: u32)
        ensures
            ({
                let ledger = self.lifecycles@[spec_slot_index(kind@, entry)];
                r == if ledger.initialized {
                    ledger.parent_boss_id
                } else {
                    0
                }
            }),
    {
        let index = observation_index(kind, entry);
        let ledger = &self.lifecycles[index];
        if ledger.initialized {
            ledger.parent_boss_id
        } else {
            0
        }
    }

    /// Resets a slot for a new boss. `prior_child` is what the plugin read of
    /// the child of the slot's prior parent. A child that is still there is
    /// observed once more at scene exit; otherwise the ledger is emptied.
    /// The cleanup, the observation and the slot's latches start over.
    pub fn reset(&mut self, kind: &str, entry: usize, prior_child: SummonEntrySnapshot, debug: bool) -> (r:
        SlotReset)
        ensures
            ({
                let i = spec_slot_index(kind@, entry);
                let old_ledger = old(self).lifecycles@[i];
                let prior = if old_ledger.initialized {
                    old_ledger.parent_boss_id
                } else {
                    0
                };
                let observed = spec_observe_lifecycle(old_ledger, prior, false, true, prior_child, debug);
                let o = old(self).observations@[i];
                &&& final(self).lifecycles@[i] == if prior == 0 {
                    old_ledger
                } else if prior_child.found {
                    observed.0
                } else {
                    SummonEntryLifecycle::spec_empty()
                }
                &&& r.lifecycle_line == (prior != 0 && prior_child.found && observed.1)
                &&& r.cancelled == if debug && (o.request_pending || o.last_phase == 1
                    || o.last_phase == 2) {
                    Some(o.control_state)
                } else {
                    None::<SummonControlState>
                }
                &&& final(self).cleanups@ == old(self).cleanups@.update(i, ParentDeathCleanup::spec_empty())
                &&& final(self).scene_exit_last_signature@ == old(
                    self,
                ).scene_exit_last_signature@.update(i, u64::MAX)
                &&& final(self).match_audit.last_signature@ == old(
                    self,
                ).match_audit.last_signature@.update(i, u64::MAX)
                &&& final(self).match_audit.last_dead@ == old(self).match_audit.last_dead@.update(
                    i,
                    -1i8,
                )
                &&& spec_is_empty_observation(final(self).observations@[i])
                &&& forall|j: int|
                    0 <= j < 16 && j != i ==> #[trigger] final(self).observations@[j] == old(
                        self,
                    ).observations@[j] && final(self).lifecycles@[j] == old(self).lifecycles@[j]
            }),
    {
        let index = observation_index(kind, entry);
        let ledger = self.lifecycles[index];
        let prior = if ledger.initialized {
            ledger.parent_boss_id
        } else {
            0
        };
        let mut lifecycle_line = false;
        if prior != 0 {
            if prior_child.found {
                let mut observed = ledger;
                let (_, line) = observe_summon_entry_lifecycle(
                    &mut observed,
                    prior,
                    false,
                    "scene_exit",
                    prior_child,
                    debug,
                );
                proof {
                    reveal_strlit("scene_exit");
                }
                lifecycle_line = line;
                self.lifecycles[index] = observed;
            } else {
                self.lifecycles[index] = SummonEntryLifecycle::empty();
            }
        }
        self.cleanups[index] = ParentDeathCleanup::empty();
        self.scene_exit_last_signature[index] = u64::MAX;
        let o = &self.observations[index];
        let cancelled = if debug && (o.request_pending || o.last_phase == 1 || o.last_phase == 2) {
            Some(o.control_state)
        } else {
            None
        };
        self.observations[index] = SummonObservation::empty();
        self.match_audit.last_signature[index] = u64::MAX;
        self.match_audit.last_dead[index] = -1;
        SlotReset { lifecycle_line, cancelled }
    }

    /// Whether a scene-exit line is written for a slot: with debug logs on,
    /// when it differs from the slot's last one, which then remembers it.
    /// `child` is what was read of the parent's child; without a parent the
    /// empty reading counts.
    pub fn log_boss_scene_exit(
        &mut self,
        debug: bool,
        kind: &str,
        entry: usize,
        parent_boss_id: u32,
        child: SummonEntrySnapshot,
        parent_active: bool,
        ready_go: bool,
        result_mode: bool,
        stage_id: i32,
    ) -> (r: bool)
        ensures
            ({
                let i = spec_slot_index(kind@, entry);
                let kept = if parent_boss_id == 0 {
                    SummonEntrySnapshot::spec_empty()
                } else {
                    child
                };
                let signature = spec_scene_exit_signature(
                    parent_boss_id,
                    old(self).cleanups@[i],
                    kept,
                    parent_active,
                    ready_go,
                    result_mode,
                    stage_id,
                );
                &&& r == (debug && old(self).scene_exit_last_signature@[i] != signature)
                &&& final(self).scene_exit_last_signature@ == if r {
                    old(self).scene_exit_last_signature@.update(i, signature)
                } else {
                    old(self).scene_exit_last_signature@
                }
                &&& final(self).cleanups@ == old(self).cleanups@
                &&& final(self).lifecycles@ == old(self).lifecycles@
                &&& final(self).observations@ == old(self).observations@
            }),
    {
        if !debug {
            return false;
        }
        let index = observation_index(kind, entry);
        let kept = if parent_boss_id == 0 {
            SummonEntrySnapshot::empty()
        } else {
            child
        };
        let signature = scene_exit_signature(
            parent_boss_id,
            &self.cleanups[index],
            &kept,
            parent_active,
            ready_go,
            result_mode,
            stage_id,
        );
        if self.scene_exit_last_signature[index] == signature {
            return false;
        }
        self.scene_exit_last_signature[index] = signature;
        true
    }

    /// Drops the observation of every slot when the match is torn down; the
    /// native summon itself is left alone. `children` holds, for each slot,
    /// what the plugin read of the child of the slot's last observed boss.
    /// A slot that observed nothing is untouched; in the others the child
    /// ledger observes once more, a running summon is reported cancelled,
    /// and the observation is emptied.
    pub fn cancel_for_transition(
        &mut self,
        reason: &str,
        children: &[SummonEntrySnapshot; 16],
        debug: bool,
    ) -> (r: [TransitionCancel; 16])
        ensures
            forall|j: int|
                0 <= j < 16 ==> {
                    let o = #[trigger] old(self).observations@[j];
                    let (ledger, line) = spec_cancel_ledger(
                        o,
                        old(self).lifecycles@[j],
                        children@[j],
                        reason@,
                        debug,
                    );
                    &&& final(self).lifecycles@[j] == ledger
                    &&& if o.initialized {
                        spec_is_empty_observation(final(self).observations@[j])
                    } else {
                        final(self).observations@[j] == o
                    }
                    &&& r@[j] == (TransitionCancel {
                        lifecycle_line: line,
                        cancelled: o.initialized && debug && o.last_phase != 0,
                    })
                },
            forall|j: int| 0 <= j < 16 ==> !(#[trigger] final(self).observations@[j]).initialized,
            final(self).cleanups@ == old(self).cleanups@,
            final(self).scene_exit_last_signature@ == old(self).scene_exit_last_signature@,
            final(self).match_audit.last_signature@ == old(self).match_audit.last_signature@,
            final(self).match_audit.last_dead@ == old(self).match_audit.last_dead@,
    {
        let mut lines = [TransitionCancel { lifecycle_line: false, cancelled: false }; 16];
        let mut j: usize = 0;
        while j < SUMMON_SLOTS
            invariant
                j <= SUMMON_SLOTS,
                self.cleanups@ == old(self).cleanups@,
                self.scene_exit_last_signature@ == old(self).scene_exit_last_signature@,
                self.match_audit.last_signature@ == old(self).match_audit.last_signature@,
                self.match_audit.last_dead@ == old(self).match_audit.last_dead@,
                forall|k: int|
                    0 <= k < j ==> {
                        let o = #[trigger] old(self).observations@[k];
                        let (ledger, line) = spec_cancel_ledger(
                            o,
                            old(self).lifecycles@[k],
                            children@[k],
                            reason@,
                            debug,
                        );
                        &&& self.lifecycles@[k] == ledger
                        &&& if o.initialized {
                            spec_is_empty_observation(self.observations@[k])
                        } else {
                            self.observations@[k] == o
                        }
                        &&& lines@[k] == (TransitionCancel {
                            lifecycle_line: line,
                            cancelled: o.initialized && debug && o.last_phase != 0,
                        })
                    },
                forall|k: int|
                    j <= k < 16 ==> #[trigger] self.observations@[k] == old(self).observations@[k]
                        && self.lifecycles@[k] == old(self).lifecycles@[k] && lines@[k] == (
                    TransitionCancel { lifecycle_line: false, cancelled: false }),
            decreases SUMMON_SLOTS - j,
        {
            let o = self.observations[j];
            if o.initialized {
                let mut lifecycle_line = false;
                if o.last_boss_id != 0 {
                    let mut ledger = self.lifecycles[j];
                    let (_, line) = observe_summon_entry_lifecycle(
                        &mut ledger,
                        o.last_boss_id,
                        false,
                        reason,
                        children[j],
                        debug,
                    );
                    lifecycle_line = line;
                    self.lifecycles[j] = ledger;
                }
                let cancelled = debug && o.last_phase != 0;
                self.observations[j] = SummonObservation::empty();
                lines[j] = TransitionCancel { lifecycle_line, cancelled };
            }
            j = j + 1;
        }
        assert forall|k: int| 0 <= k < 16 implies !(#[trigger] self.observations@[k]).initialized by {
            let o = old(self).observations@[k];
        }
        lines
    }
}

} // verus!
