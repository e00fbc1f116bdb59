//! Decisions behind the AI and Figure Player diagnostics: when an entry is
//! sampled, how its control source is named, and the bounded summaries of
//! the commands a CPU host issues.
use crate::amiibo::{boss_identities, spec_boss_identities};
use crate::bits::{flag_word, flag_word_exec, rotate_left, spec_rotate_left};
use crate::preview::{hash40_of, label_hash40};
use vstd::prelude::*;
use vstd::string::StringSliceAdditionalSpecFns;

verus! {

pub const DIAGNOSTIC_FIGHTERS: usize = 8;

/// Every `SAMPLE_PERIOD`-th callback of an entry is sampled, and every one
/// where its boss or selection changed.
pub const SAMPLE_PERIOD: u32 = 60;

/// Command summaries sample every fourth callback and are written out after
/// a window of sixty samples.
pub const FP_COMPARE_SAMPLE_PERIOD: u32 = 4;
pub const FP_COMPARE_WINDOW_SAMPLES: u32 = 60;

pub open spec fn diagnostic_slot(entry: usize) -> int {
    if entry < DIAGNOSTIC_FIGHTERS - 1 {
        entry as int
    } else {
        DIAGNOSTIC_FIGHTERS - 1
    }
}

fn diagnostic_slot_exec(entry: usize) -> (r: usize)
    ensures
        r == diagnostic_slot(entry),
        r < DIAGNOSTIC_FIGHTERS,
{
    if entry < DIAGNOSTIC_FIGHTERS - 1 {
        entry
    } else {
        DIAGNOSTIC_FIGHTERS - 1
    }
}

/// Per entry: callbacks seen, and the boss and selection of the last one.
pub struct SampleLedger {
    pub ticks: [u32; 8],
    pub last_boss_id: [u32; 8],
    pub last_ui_hash: [u64; 8],
}

impl SampleLedger {
    /// Nothing seen: the first callback of every entry is sampled.
    pub fn new() -> (r: SampleLedger)
        ensures
            forall|i: int|
                0 <= i < 8 ==> #[trigger] r.ticks@[i] == 0 && r.last_boss_id@[i] == u32::MAX
                    && r.last_ui_hash@[i] == u64::MAX,
    {
        SampleLedger { ticks: [0; 8], last_boss_id: [u32::MAX; 8], last_ui_hash: [u64::MAX; 8] }
    }

    /// Whether this callback of the entry is sampled: its boss or selection
    /// changed, or its count is a multiple of the period. The callback is
    /// counted, wrapping, and remembered.
    pub fn should_sample(&mut self, entry: usize, boss_id: u32, ui_hash: u64) -> (r: bool)
        ensures
            ({
                let e = diagnostic_slot(entry);
                let tick = old(self).ticks@[e];
                &&& r == (old(self).last_boss_id@[e] != boss_id || old(self).last_ui_hash@[e]
                    != ui_hash || tick % SAMPLE_PERIOD == 0)
                &&& final(self).ticks@ == old(self).ticks@.update(
                    e,
                    if tick == u32::MAX {
                        0
                    } else {
                        (tick + 1) as u32
                    },
                )
                &&& final(self).last_boss_id@ == old(self).last_boss_id@.update(e, boss_id)
                &&& final(self).last_ui_hash@ == old(self).last_ui_hash@.update(e, ui_hash)
            }),
    {
        let e = diagnostic_slot_exec(entry);
        let changed = self.last_boss_id[e] != boss_id || self.last_ui_hash[e] != ui_hash;
        let tick = self.ticks[e];
        self.ticks[e] = tick.wrapping_add(1);
        self.last_boss_id[e] = boss_id;
        self.last_ui_hash[e] = ui_hash;
        changed || tick % SAMPLE_PERIOD == 0
    }
}

/// Who controls a host, as the logs name it.
pub open spec fn spec_control_source_name(operation_cpu: Option<bool>) -> Seq<char> {
    match operation_cpu {
        Some(false) => "human"@,
        Some(true) => "cpu_or_figure_player"@,
        None => "unknown"@,
    }
}

pub fn control_source_name(operation_cpu: Option<bool>) -> (r: &'static str)
    ensures
        r@ == spec_control_source_name(operation_cpu),
{
    match operation_cpu {
        Some(false) => "human",
        Some(true) => "cpu_or_figure_player",
        None => "unknown",
    }
}

/// The host's CPU flag, as the logs write it.
pub fn host_cpu_state_name(operation_cpu: Option<bool>) -> (r: &'static str)
    ensures
        r@ == match operation_cpu {
            Some(true) => "true"@,
            Some(false) => "false"@,
            None => "unknown"@,
        },
{
    match operation_cpu {
        Some(true) => "true",
        Some(false) => "false",
        None => "unknown",
    }
}

/// Where a boss's difficulty comes from.
pub fn difficulty_source(operation_cpu: Option<bool>, native_fighter_path: bool) -> (r:
    &'static str)
    ensures
        r@ == match operation_cpu {
            Some(true) => if native_fighter_path {
                "native_fighter_ai_unverified"@
            } else {
                "config_or_boss_native"@
            },
            Some(false) => "host_input"@,
            None => "unknown"@,
        },
{
    match operation_cpu {
        Some(true) => if native_fighter_path {
            "native_fighter_ai_unverified"
        } else {
            "config_or_boss_native"
        },
        Some(false) => "host_input",
        None => "unknown",
    }
}

/// The first catalogue identity, from `i` on, whose character id hashes to
/// `ui_hash`.
pub open spec fn identity_hash_index_from(ui_hash: u64, i: int) -> Option<int>
    decreases 11 - i,
{
    if i < 0 || i >= 11 {
        None
    } else if hash40_of(spec_boss_identities()[i].ui_chara_id.spec_bytes()) == ui_hash {
        Some(i)
    } else {
        identity_hash_index_from(ui_hash, i + 1)
    }
}

/// The name of the boss selected by a character hash.
pub fn selected_boss_name(ui_hash: u64) -> (r: &'static str)
    ensures
        match identity_hash_index_from(ui_hash, 0) {
            Some(i) => r@ == spec_boss_identities()[i].name@,
            None => r@ == "<none-or-unknown>"@,
        },
{
    let identities = boss_identities();
    let mut i: usize = 0;
    while i < 11
        invariant
            i <= 11,
            identities@ == spec_boss_identities(),
            identity_hash_index_from(ui_hash, 0) == identity_hash_index_from(ui_hash, i as int),
        decreases 11 - i,
    {
        if label_hash40(identities[i].ui_chara_id) == ui_hash {
            return identities[i].name;
        }
        i = i + 1;
    }
    "<none-or-unknown>"
}

/// The command summary of one entry's CPU host.
#[derive(Debug, Clone, Copy, PartialEq, Eq, Structural)]
pub struct FpCommandSummary {
    pub initialized: bool,
    pub signature: u64,
    pub selected_hash: u64,
    pub boss_object_id: u32,
    pub boss_kind: i32,
    pub operation_cpu: bool,
    pub host_kind: i32,
    pub fighter_category: u64,
    pub summon_boss_id: u64,
    pub samples: u32,
    pub nonzero_command_samples: u32,
    pub stick_samples: u32,
    pub attack_events: u32,
    pub special_events: u32,
    pub guard_events: u32,
    pub jump_events: u32,
    pub unique_cat1: i32,
    pub unique_cat2: i32,
    pub unique_cat3: i32,
    pub unique_cat4: i32,
    pub previous_attack: bool,
    pub previous_special: bool,
    pub previous_guard: bool,
    pub previous_jump: bool,
}

/// The context that a summary is kept for.
#[derive(Debug, Clone, Copy, PartialEq, Eq, Structural)]
pub struct FpContext {
    pub selected_hash: u64,
    pub boss_object_id: u32,
    pub boss_kind: i32,
    pub operation_cpu: bool,
    pub fighter_category: u64,
    pub summon_boss_id: u64,
    pub host_kind: i32,
}

/// The commands read from the host on one callback. `stick_active` is
/// whether either stick axis is past the dead zone.
#[derive(Debug, Clone, Copy, PartialEq, Eq, Structural)]
pub struct FpSample {
    pub command_cat1: i32,
    pub command_cat2: i32,
    pub command_cat3: i32,
    pub command_cat4: i32,
    pub stick_active: bool,
    pub attack: bool,
    pub special: bool,
    pub guard: bool,
    pub jump: bool,
}

/// The signature of a summary's context.
pub open spec fn spec_fp_context_signature(c: FpContext) -> u64 {
    c.selected_hash ^ spec_rotate_left(c.boss_object_id as u64, 11) ^ spec_rotate_left(
        c.boss_kind as i64 as u64,
        17,
    ) ^ spec_rotate_left(flag_word(c.operation_cpu), 23) ^ spec_rotate_left(c.fighter_category, 29)
        ^ spec_rotate_left(c.summon_boss_id, 37) ^ spec_rotate_left(c.host_kind as i64 as u64, 43)
}

pub fn fp_context_signature(c: &FpContext) -> (r: u64)
    ensures
        r == spec_fp_context_signature(*c),
{
    c.selected_hash ^ rotate_left(c.boss_object_id as u64, 11) ^ rotate_left(
        c.boss_kind as i64 as u64,
        17,
    ) ^ rotate_left(flag_word_exec(c.operation_cpu), 23) ^ rotate_left(c.fighter_category, 29)
        ^ rotate_left(c.summon_boss_id, 37) ^ rotate_left(c.host_kind as i64 as u64, 43)
}

impl FpCommandSummary {
    /// Whether the summary is worth its comparison line: with debug logs on,
    /// for a window that started and took at least one sample.
    pub fn emits_compare_summary(&self, debug: bool) -> (r: bool)
        ensures
            r == (debug && self.initialized && self.samples != 0),
    {
        debug && self.initialized && self.samples != 0
    }

    pub open spec fn spec_empty() -> FpCommandSummary {
        FpCommandSummary {
            initialized: false,
            signature: u64::MAX,
            selected_hash: 0,
            boss_object_id: 0,
            boss_kind: -1i32,
            operation_cpu: false,
            host_kind: -1i32,
            fighter_category: 0,
            summon_boss_id: 0,
            samples: 0,
            nonzero_command_samples: 0,
            stick_samples: 0,
            attack_events: 0,
            special_events: 0,
            guard_events: 0,
            jump_events: 0,
            unique_cat1: 0,
            unique_cat2: 0,
            unique_cat3: 0,
            unique_cat4: 0,
            previous_attack: false,
            previous_special: false,
            previous_guard: false,
            previous_jump: false,
        }
    }

    /// No summary yet.
    pub fn empty() -> (r: FpCommandSummary)
        ensures
            r == FpCommandSummary::spec_empty(),
    {
        FpCommandSummary {
            initialized: false,
            signature: u64::MAX,
            selected_hash: 0,
            boss_object_id: 0,
            boss_kind: -1,
            operation_cpu: false,
            host_kind: -1,
            fighter_category: 0,
            summon_boss_id: 0,
            samples: 0,
            nonzero_command_samples: 0,
            stick_samples: 0,
            attack_events: 0,
            special_events: 0,
            guard_events: 0,
            jump_events: 0,
            unique_cat1: 0,
            unique_cat2: 0,
            unique_cat3: 0,
            unique_cat4: 0,
            previous_attack: false,
            previous_special: false,
            previous_guard: false,
            previous_jump: false,
        }
    }

    /// Every count is at most the samples, and the samples are below the
    /// window.
    pub open spec fn wf(&self) -> bool {
        &&& self.samples < FP_COMPARE_WINDOW_SAMPLES
        &&& self.nonzero_command_samples <= self.samples
        &&& self.stick_samples <= self.samples
        &&& self.attack_events <= self.samples
        &&& self.special_events <= self.samples
        &&& self.guard_events <= self.samples
        &&& self.jump_events <= self.samples
    }
}

/// A fresh summary for a context.
pub open spec fn spec_fresh_summary(c: FpContext, signature: u64) -> FpCommandSummary {
    FpCommandSummary {
        initialized: true,
        signature,
        selected_hash: c.selected_hash,
        boss_object_id: c.boss_object_id,
        boss_kind: c.boss_kind,
        operation_cpu: c.operation_cpu,
        host_kind: c.host_kind,
        fighter_category: c.fighter_category,
        summon_boss_id: c.summon_boss_id,
        ..FpCommandSummary::spec_empty()
    }
}

fn fresh_summary(c: &FpContext, signature: u64) -> (r: FpCommandSummary)
    ensures
        r == spec_fresh_summary(*c, signature),
{
    let mut r = FpCommandSummary::empty();
    r.initialized = true;
    r.signature = signature;
    r.selected_hash = c.selected_hash;
    r.boss_object_id = c.boss_object_id;
    r.boss_kind = c.boss_kind;
    r.operation_cpu = c.operation_cpu;
    r.host_kind = c.host_kind;
    r.fighter_category = c.fighter_category;
    r.summon_boss_id = c.summon_boss_id;
    r
}

pub open spec fn inc_if(x: u32, b: bool) -> u32 {
    if b {
        (x + 1) as u32
    } else {
        x
    }
}

/// The summary after one sample: the sample is counted, command bits are
/// gathered, a sample with any command or stick is counted as active, and a
/// button counts an event when it goes down.
pub open spec fn spec_record_sample(s: FpCommandSummary, x: FpSample) -> FpCommandSummary {
    let active = x.command_cat1 != 0 || x.command_cat2 != 0 || x.command_cat3 != 0
        || x.command_cat4 != 0 || x.stick_active || x.attack || x.special || x.guard || x.jump;
    FpCommandSummary {
        samples: (s.samples + 1) as u32,
        unique_cat1: s.unique_cat1 | x.command_cat1,
        unique_cat2: s.unique_cat2 | x.command_cat2,
        unique_cat3: s.unique_cat3 | x.command_cat3,
        unique_cat4: s.unique_cat4 | x.command_cat4,
        stick_samples: inc_if(s.stick_samples, x.stick_active),
        nonzero_command_samples: inc_if(s.nonzero_command_samples, active),
        attack_events: inc_if(s.attack_events, x.attack && !s.previous_attack),
        special_events: inc_if(s.special_events, x.special && !s.previous_special),
        guard_events: inc_if(s.guard_events, x.guard && !s.previous_guard),
        jump_events: inc_if(s.jump_events, x.jump && !s.previous_jump),
        previous_attack: x.attack,
        previous_special: x.special,
        previous_guard: x.guard,
        previous_jump: x.jump,
        ..s
    }
}

/// The summaries that one callback writes out: the summary of a context
/// that ended, and a summary whose window filled.
#[derive(Debug, Clone, Copy, PartialEq, Eq, Structural)]
pub struct FpCompareEmits {
    pub context_change: Option<FpCommandSummary>,
    pub window: Option<FpCommandSummary>,
}

/// One callback of the command comparison for an entry. A new context
/// writes out the old summary and starts a fresh one with the tick count at
/// zero. Every fourth tick of a CPU host is sampled; a summary that reaches
/// the window is written out and started afresh.
pub open spec fn spec_fp_observe(
    summary: FpCommandSummary,
    tick: u32,
    c: FpContext,
    x: FpSample,
) -> (FpCommandSummary, u32, FpCompareEmits) {
    let signature = spec_fp_context_signature(c);
    let switch = !summary.initialized || summary.signature != signature;
    let s0 = if switch {
        spec_fresh_summary(c, signature)
    } else {
        summary
    };
    let t0 = if switch {
        0
    } else {
        tick
    };
    let t1 = if t0 == u32::MAX {
        0
    } else {
        (t0 + 1) as u32
    };
    let context_change = if switch {
        Some(summary)
    } else {
        None
    };
    if !c.operation_cpu || t0 % FP_COMPARE_SAMPLE_PERIOD != 0 {
        (s0, t1, FpCompareEmits { context_change, window: None })
    } else {
        let s1 = spec_record_sample(s0, x);
        if s1.samples >= FP_COMPARE_WINDOW_SAMPLES {
            (
                spec_fresh_summary(c, signature),
                t1,
                FpCompareEmits { context_change, window: Some(s1) },
            )
        } else {
            (s1, t1, FpCompareEmits { context_change, window: None })
        }
    }
}

/// Observes one callback of an entry's host for the command comparison.
pub fn observe_fp_commands(
    summary: &mut FpCommandSummary,
    tick: &mut u32,
    context: &FpContext,
    sample: &FpSample,
) -> (r: FpCompareEmits)
    requires
        old(summary).wf(),
    ensures
        (*final(summary), *final(tick), r) == spec_fp_observe(
            *old(summary),
            *old(tick),
            *context,
            *sample,
        ),
        final(summary).wf(),
{
    let signature = fp_context_signature(context);
    let mut context_change: Option<FpCommandSummary> = None;
    if !summary.initialized || summary.signature != signature {
        context_change = Some(*summary);
        *summary = fresh_summary(context, signature);
        *tick = 0;
    }
    let t = *tick;
    *tick = t.wrapping_add(1);
    if !context.operation_cpu || t % FP_COMPARE_SAMPLE_PERIOD != 0 {
        return FpCompareEmits { context_change, window: None };
    }
    summary.samples = summary.samples + 1;
    summary.unique_cat1 = summary.unique_cat1 | sample.command_cat1;
    summary.unique_cat2 = summary.unique_cat2 | sample.command_cat2;
    summary.unique_cat3 = summary.unique_cat3 | sample.command_cat3;
    summary.unique_cat4 = summary.unique_cat4 | sample.command_cat4;
    if sample.stick_active {
        summary.stick_samples = summary.stick_samples + 1;
    }
    if sample.command_cat1 != 0 || sample.command_cat2 != 0 || sample.command_cat3 != 0
        || sample.command_cat4 != 0 || sample.stick_active || sample.attack || sample.special
        || sample.guard || sample.jump {
        summary.nonzero_command_samples = summary.nonzero_command_samples + 1;
    }
    if sample.attack && !summary.previous_attack {
        summary.attack_events = summary.attack_events + 1;
    }
    if sample.special && !summary.previous_special {
        summary.special_events = summary.special_events + 1;
    }
    if sample.guard && !summary.previous_guard {
        summary.guard_events = summary.guard_events + 1;
    }
    if sample.jump && !summary.previous_jump {
        summary.jump_events = summary.jump_events + 1;
    }
    summary.previous_attack = sample.attack;
    summary.previous_special = sample.special;
    summary.previous_guard = sample.guard;
    summary.previous_jump = sample.jump;
    if summary.samples >= FP_COMPARE_WINDOW_SAMPLES {
        let completed = *summary;
        *summary = fresh_summary(context, signature);
        return FpCompareEmits { context_change, window: Some(completed) };
    }
    FpCompareEmits { context_change, window: None }
}

/// A written-out window always holds exactly the window's samples, and a
/// summary never grows past it.
pub proof fn lemma_fp_window_is_exact(
    summary: FpCommandSummary,
    tick: u32,
    c: FpContext,
    x: FpSample,
)
    requires
        summary.wf(),
    ensures
        spec_fp_observe(summary, tick, c, x).2.window matches Some(w) ==> w.samples
            == FP_COMPARE_WINDOW_SAMPLES,
        spec_fp_observe(summary, tick, c, x).0.samples < FP_COMPARE_WINDOW_SAMPLES,
{
}

/// A summary is written out for a context only when the context changes,
/// and then it is the whole old summary; only a CPU host is sampled, and
/// only on every fourth tick of a context; a button held across samples is
/// one event, counted when it goes down; every sample is counted and keeps
/// the well-formedness of the summary.
pub proof fn lemma_fp_comparison_samples_cpu_hosts_by_edges(
    summary: FpCommandSummary,
    tick: u32,
    c: FpContext,
    x: FpSample,
)
    requires
        summary.wf(),
    ensures
        ({
            let (next, next_tick, emits) = spec_fp_observe(summary, tick, c, x);
            let switch = !summary.initialized || summary.signature != spec_fp_context_signature(c);
            &&& emits.context_change is Some <==> switch
            &&& emits.context_change matches Some(old_summary) ==> old_summary == summary
            &&& !c.operation_cpu ==> emits.window is None && next == (if switch {
                spec_fresh_summary(c, spec_fp_context_signature(c))
            } else {
                summary
            })
            &&& switch ==> next_tick == 1
            &&& next.wf()
            &&& next.initialized && next.signature == spec_fp_context_signature(c)
        }),
        ({
            let once = spec_record_sample(summary, x);
            let twice = spec_record_sample(once, x);
            &&& once.samples == summary.samples + 1
            &&& x.attack && summary.previous_attack ==> once.attack_events == summary.attack_events
            &&& !x.attack ==> once.attack_events == summary.attack_events
            &&& x.attack && !summary.previous_attack ==> once.attack_events == summary.attack_events + 1
            &&& twice.attack_events == once.attack_events
            &&& twice.special_events == once.special_events
            &&& twice.guard_events == once.guard_events
            &&& twice.jump_events == once.jump_events
        }),
{
}

/// The signature of a host's control context for the Figure Player log;
/// an unknown CPU flag is marked apart from a known one.
pub open spec fn spec_fp_transition_signature(
    selected_hash: u64,
    boss_object_id: u32,
    boss_kind: i32,
    operation_cpu: Option<bool>,
    fighter_category: u64,
    summon_boss_id: u64,
    host_kind: i32,
    host_status: i32,
) -> u64 {
    let base = selected_hash ^ spec_rotate_left(boss_object_id as u64, 11) ^ spec_rotate_left(
        boss_kind as i64 as u64,
        17,
    ) ^ spec_rotate_left(fighter_category, 23) ^ spec_rotate_left(summon_boss_id, 29)
        ^ spec_rotate_left(host_kind as i64 as u64, 37) ^ spec_rotate_left(
        host_status as i64 as u64,
        43,
    );
    let with_cpu = base ^ (flag_word(operation_cpu == Some(true)) << 7u64);
    if operation_cpu is None {
        with_cpu ^ (1u64 << 8u64)
    } else {
        with_cpu
    }
}

pub fn fp_transition_signature(
    selected_hash: u64,
    boss_object_id: u32,
    boss_kind: i32,
    operation_cpu: Option<bool>,
    fighter_category: u64,
    summon_boss_id: u64,
    host_kind: i32,
    host_status: i32,
) -> (r: u64)
    ensures
        r == spec_fp_transition_signature(
            selected_hash,
            boss_object_id,
            boss_kind,
            operation_cpu,
            fighter_category,
            summon_boss_id,
            host_kind,
            host_status,
        ),
{
    let base = selected_hash ^ rotate_left(boss_object_id as u64, 11) ^ rotate_left(
        boss_kind as i64 as u64,
        17,
    ) ^ rotate_left(fighter_category, 23) ^ rotate_left(summon_boss_id, 29) ^ rotate_left(
        host_kind as i64 as u64,
        37,
    ) ^ rotate_left(host_status as i64 as u64, 43);
    let cpu = match operation_cpu {
        Some(v) => v,
        None => false,
    };
    let with_cpu = base ^ (flag_word_exec(cpu) << 7u64);
    match operation_cpu {
        None => with_cpu ^ (1u64 << 8u64),
        Some(_) => with_cpu,
    }
}

/// The last Figure Player signature logged for each entry.
pub struct FpTransitionLedger {
    pub last: [u64; 8],
}

impl FpTransitionLedger {
    pub fn new() -> (r: FpTransitionLedger)
        ensures
            forall|i: int| 0 <= i < 8 ==> #[trigger] r.last@[i] == u64::MAX,
    {
        FpTransitionLedger { last: [u64::MAX; 8] }
    }

    /// Whether the entry's signature changed since it was last logged; a
    /// change is remembered.
    pub fn record(&mut self, entry: usize, signature: u64) -> (r: bool)
        ensures
            r == (old(self).last@[diagnostic_slot(entry)] != signature),
            final(self).last@ == old(self).last@.update(diagnostic_slot(entry), signature),
    {
        let e = diagnostic_slot_exec(entry);
        if self.last[e] == signature {
            return false;
        }
        self.last[e] = signature;
        true
    }
}

} // verus!
