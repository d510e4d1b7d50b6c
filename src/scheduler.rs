//! The intervention scheduler: a state machine fed one activity verdict per
//! tick, which confirms stalls, picks recovery commands round-robin, and
//! stops for good once the retry budget is spent.
use vstd::prelude::*;
use vstd::arithmetic::div_mod::{lemma_add_mod_noop_right, lemma_mod_add_multiples_vanish, lemma_small_mod};
use crate::policy::InterventionConfig;
use crate::timing::{elapsed, elapsed_ms};

verus! {

/// Where the scheduler stands between ticks.
#[derive(Clone, Copy, Debug, PartialEq, Eq, Structural)]
pub enum Phase {
    Monitoring,
    StuckConfirmed,
    Exhausted,
}

/// What a tick asks the monitor to do.
#[derive(Clone, Copy, Debug, PartialEq, Eq, Structural)]
pub enum Decision {
    /// Nothing to send.
    Idle,
    /// Send the policy's command at this index.
    Intervene(usize),
    /// The retry budget is spent: the monitor stops.
    Exhausted,
}

/// The scheduler's state; times are milliseconds on the monitor's clock.
#[derive(Clone, Copy, Debug, PartialEq, Eq, Structural)]
pub struct SchedulerState {
    pub last_active_at: u64,
    pub retry_count: usize,
    pub command_cursor: usize,
    pub phase: Phase,
}

/// The state after a verdict is taken in: activity resets the retry count and
/// the stall timer; a quiet spell longer than the threshold confirms a stall.
pub open spec fn observed(s: SchedulerState, p: InterventionConfig, active: bool, now: u64) -> SchedulerState {
    if s.phase == Phase::Exhausted {
        s
    } else if active {
        SchedulerState { last_active_at: now, retry_count: 0, phase: Phase::Monitoring, ..s }
    } else if elapsed_ms(s.last_active_at, now) > p.stuck_threshold_ms {
        SchedulerState { phase: Phase::StuckConfirmed, ..s }
    } else {
        SchedulerState { phase: Phase::Monitoring, ..s }
    }
}

/// A retry count raised by one, saturating at the largest `usize`.
pub open spec fn raised(n: usize) -> usize {
    if n < usize::MAX {
        (n + 1) as usize
    } else {
        n
    }
}

/// The state and decision once a confirmed stall is acted on: the retry count
/// is raised, and the command under the cursor is issued and the cursor moves
/// on; when the raised count exceeds the retry budget, the scheduler gives up
/// instead. Issuing a command does not count as activity: `last_active_at` is
/// kept.
pub open spec fn intervened(s: SchedulerState, p: InterventionConfig) -> (SchedulerState, Decision) {
    if s.phase == Phase::Exhausted {
        (s, Decision::Exhausted)
    } else if s.phase == Phase::Monitoring {
        (s, Decision::Idle)
    } else if s.retry_count < p.max_retry {
        (
            SchedulerState {
                retry_count: (s.retry_count + 1) as usize,
                command_cursor: ((s.command_cursor + 1) % (p.commands@.len() as int)) as usize,
                phase: Phase::Monitoring,
                ..s
            },
            Decision::Intervene(s.command_cursor),
        )
    } else {
        (
            SchedulerState { retry_count: raised(s.retry_count), phase: Phase::Exhausted, ..s },
            Decision::Exhausted,
        )
    }
}

/// One whole tick: take in the verdict, then act on a confirmed stall.
pub open spec fn ticked(s: SchedulerState, p: InterventionConfig, active: bool, now: u64) -> (SchedulerState, Decision) {
    intervened(observed(s, p, active, now), p)
}

/// The final state and the decisions of a run of ticks, each event being a
/// verdict (`true` for active) and the time it was taken.
pub open spec fn run(s: SchedulerState, p: InterventionConfig, events: Seq<(bool, u64)>) -> (SchedulerState, Seq<Decision>)
    decreases events.len(),
{
    if events.len() == 0 {
        (s, Seq::empty())
    } else {
        let first = ticked(s, p, events[0].0, events[0].1);
        let rest = run(first.0, p, events.drop_first());
        (rest.0, seq![first.1] + rest.1)
    }
}

/// Every event is an inactive verdict past the stall threshold, counted from
/// the last activity that `s` has seen.
pub open spec fn all_stuck(s: SchedulerState, p: InterventionConfig, events: Seq<(bool, u64)>) -> bool {
    forall|i: int|
        0 <= i < events.len() ==> !(#[trigger] events[i]).0 && elapsed_ms(s.last_active_at, events[i].1)
            > p.stuck_threshold_ms
}

/// The state of a scheduler started at `now`.
pub open spec fn fresh_state(now: u64) -> SchedulerState {
    SchedulerState { last_active_at: now, retry_count: 0, command_cursor: 0, phase: Phase::Monitoring }
}

/// The command at `index` is issued somewhere in `ds`.
pub open spec fn issued(ds: Seq<Decision>, index: int) -> bool {
    exists|i: int| 0 <= i < ds.len() && #[trigger] ds[i] == Decision::Intervene(index as usize)
}

impl SchedulerState {
    pub open spec fn wf(self, p: InterventionConfig) -> bool {
        &&& self.command_cursor < p.commands@.len()
        &&& self.phase != Phase::Exhausted ==> self.retry_count <= p.max_retry
    }

    /// A fresh scheduler, assuming the worker was active at `now_ms`.
    pub fn new(now_ms: u64) -> (r: SchedulerState)
        ensures
            r == fresh_state(now_ms),
    {
        SchedulerState { last_active_at: now_ms, retry_count: 0, command_cursor: 0, phase: Phase::Monitoring }
    }

    /// Time since activity was last seen.
    pub fn elapsed_since_active(&self, now_ms: u64) -> (r: u64)
        ensures
            r == elapsed_ms(self.last_active_at, now_ms),
    {
        elapsed(self.last_active_at, now_ms)
    }

    pub fn is_exhausted(&self) -> (r: bool)
        ensures
            r == (self.phase == Phase::Exhausted),
    {
        self.phase == Phase::Exhausted
    }

    /// Takes in one verdict; returns whether a stall is now confirmed.
    pub fn observe(&mut self, p: &InterventionConfig, is_active: bool, now_ms: u64) -> (stuck: bool)
        requires
            p.wf(),
            old(self).wf(*p),
        ensures
            *final(self) == observed(*old(self), *p, is_active, now_ms),
            final(self).wf(*p),
            stuck == (final(self).phase == Phase::StuckConfirmed),
    {
        if self.phase == Phase::Exhausted {
            return false;
        }
        if is_active {
            self.last_active_at = now_ms;
            self.retry_count = 0;
            self.phase = Phase::Monitoring;
            false
        } else if self.elapsed_since_active(now_ms) > p.stuck_threshold_ms {
            self.phase = Phase::StuckConfirmed;
            true
        } else {
            self.phase = Phase::Monitoring;
            false
        }
    }

    /// Acts on a confirmed stall: issues the next command, or gives up once
    /// the retry budget is spent. Does nothing unless a stall is confirmed.
    pub fn intervene(&mut self, p: &InterventionConfig) -> (d: Decision)
        requires
            p.wf(),
            old(self).wf(*p),
        ensures
            (*final(self), d) == intervened(*old(self), *p),
            final(self).wf(*p),
    {
        match self.phase {
            Phase::Exhausted => Decision::Exhausted,
            Phase::Monitoring => Decision::Idle,
            Phase::StuckConfirmed => {
                if self.retry_count < p.max_retry {
                    let index: usize = self.command_cursor;
                    let n: usize = p.commands.len();
                    self.retry_count = self.retry_count + 1;
                    self.command_cursor = (self.command_cursor + 1) % n;
                    self.phase = Phase::Monitoring;
                    Decision::Intervene(index)
                } else {
                    if self.retry_count < usize::MAX {
                        self.retry_count = self.retry_count + 1;
                    }
                    self.phase = Phase::Exhausted;
                    Decision::Exhausted
                }
            },
        }
    }

    /// One tick without an outside confirmation gate.
    pub fn tick(&mut self, p: &InterventionConfig, is_active: bool, now_ms: u64) -> (d: Decision)
        requires
            p.wf(),
            old(self).wf(*p),
        ensures
            (*final(self), d) == ticked(*old(self), *p, is_active, now_ms),
            final(self).wf(*p),
    {
        self.observe(p, is_active, now_ms);
        self.intervene(p)
    }
}

pub(crate) proof fn lemma_wrap(c: int, i: int, n: int)
    requires
        0 <= c < n,
        0 <= i < n,
    ensures
        (c + i) % n == (if c + i < n { c + i } else { c + i - n }),
{
    if c + i < n {
        lemma_small_mod((c + i) as nat, n as nat);
    } else {
        lemma_mod_add_multiples_vanish(c + i - n, n);
        lemma_small_mod((c + i - n) as nat, n as nat);
    }
}

/// Ticks on a stalled worker issue commands from the cursor on, one per
/// tick, while the retry budget lasts.
proof fn lemma_stuck_run(s: SchedulerState, p: InterventionConfig, events: Seq<(bool, u64)>)
    requires
        p.wf(),
        s.wf(p),
        s.phase != Phase::Exhausted,
        s.retry_count + events.len() <= p.max_retry,
        all_stuck(s, p, events),
    ensures
        run(s, p, events).1.len() == events.len(),
        forall|i: int|
            0 <= i < events.len() ==> #[trigger] run(s, p, events).1[i] == Decision::Intervene(
                ((s.command_cursor + i) % (p.commands@.len() as int)) as usize,
            ),
    decreases events.len(),
{
    if events.len() > 0 {
        let n = p.commands@.len() as int;
        let c = s.command_cursor as int;
        let s1 = ticked(s, p, events[0].0, events[0].1).0;
        let rest = events.drop_first();
        assert(!events[0].0);
        assert(s1.last_active_at == s.last_active_at);
        assert forall|i: int| 0 <= i < rest.len() implies !(#[trigger] rest[i]).0 && elapsed_ms(
            s1.last_active_at,
            rest[i].1,
        ) > p.stuck_threshold_ms by {
            assert(rest[i] == events[i + 1]);
        }
        assert(s1.command_cursor == (c + 1) % n);
        lemma_stuck_run(s1, p, rest);
        let ds = run(s, p, events).1;
        assert(ds == seq![Decision::Intervene(s.command_cursor)] + run(s1, p, rest).1);
        assert forall|i: int| 0 <= i < events.len() implies #[trigger] ds[i] == Decision::Intervene(
            ((c + i) % n) as usize,
        ) by {
            if i > 0 {
                lemma_add_mod_noop_right(i - 1, c + 1, n);
                assert((i - 1 + (c + 1) % n) % n == (i - 1 + c + 1) % n);
                assert(ds[i] == run(s1, p, rest).1[i - 1]);
            } else {
                lemma_small_mod(c as nat, n as nat);
            }
        }
    }
}

/// Once a stall is confirmed, the first tick past the threshold issues the
/// command under the cursor, and it is the only intervention in that run:
/// the ticks before it, still within the grace window, do nothing.
pub proof fn lemma_first_intervention_at_threshold(
    s: SchedulerState,
    p: InterventionConfig,
    events: Seq<(bool, u64)>,
)
    requires
        p.wf(),
        s.wf(p),
        s.phase == Phase::Monitoring,
        s.retry_count == 0,
        p.max_retry >= 1,
        events.len() >= 1,
        forall|i: int| 0 <= i < events.len() ==> !(#[trigger] events[i]).0,
        forall|i: int|
            0 <= i < events.len() - 1 ==> elapsed_ms(s.last_active_at, (#[trigger] events[i]).1)
                <= p.stuck_threshold_ms,
        elapsed_ms(s.last_active_at, events[events.len() - 1].1) > p.stuck_threshold_ms,
    ensures
        run(s, p, events).1.len() == events.len(),
        forall|i: int| 0 <= i < events.len() - 1 ==> #[trigger] run(s, p, events).1[i] == Decision::Idle,
        run(s, p, events).1[events.len() - 1] == Decision::Intervene(s.command_cursor),
        run(s, p, events).0.retry_count == 1,
    decreases events.len(),
{
    reveal_with_fuel(run, 2);
    let rest = events.drop_first();
    assert(!events[0].0);
    if events.len() == 1 {
        assert(rest.len() == 0);
    } else {
        assert(ticked(s, p, events[0].0, events[0].1) == (s, Decision::Idle));
        assert forall|i: int| 0 <= i < rest.len() implies !(#[trigger] rest[i]).0 by {
            assert(rest[i] == events[i + 1]);
        }
        assert forall|i: int| 0 <= i < rest.len() - 1 implies elapsed_ms(
            s.last_active_at,
            (#[trigger] rest[i]).1,
        ) <= p.stuck_threshold_ms by {
            assert(rest[i] == events[i + 1]);
        }
        assert(rest[rest.len() - 1] == events[events.len() - 1]);
        lemma_first_intervention_at_threshold(s, p, rest);
        let ds = run(s, p, events).1;
        assert forall|i: int| 0 <= i < events.len() - 1 implies #[trigger] ds[i] == Decision::Idle by {
            if i > 0 {
                assert(ds[i] == run(s, p, rest).1[i - 1]);
            }
        }
        assert(ds[events.len() - 1] == run(s, p, rest).1[rest.len() - 1]);
    }
}

/// Round robin: as many consecutive interventions as there are commands,
/// with no activity between them, issue every command exactly once, in list
/// order starting from the cursor.
pub proof fn lemma_round_robin(s: SchedulerState, p: InterventionConfig, events: Seq<(bool, u64)>)
    requires
        p.wf(),
        s.wf(p),
        s.phase != Phase::Exhausted,
        events.len() == p.commands@.len(),
        s.retry_count + events.len() <= p.max_retry,
        all_stuck(s, p, events),
    ensures
        run(s, p, events).1.len() == p.commands@.len(),
        forall|i: int|
            0 <= i < events.len() ==> #[trigger] run(s, p, events).1[i] == Decision::Intervene(
                ((s.command_cursor + i) % (p.commands@.len() as int)) as usize,
            ),
        forall|j: int| 0 <= j < p.commands@.len() ==> #[trigger] issued(run(s, p, events).1, j),
        forall|i1: int, i2: int|
            0 <= i1 < i2 < events.len() ==> #[trigger] run(s, p, events).1[i1] != #[trigger] run(
                s,
                p,
                events,
            ).1[i2],
{
    lemma_stuck_run(s, p, events);
    let n = p.commands@.len() as int;
    let c = s.command_cursor as int;
    let ds = run(s, p, events).1;
    assert forall|j: int| 0 <= j < n implies #[trigger] issued(ds, j) by {
        let i = if j >= c { j - c } else { j + n - c };
        lemma_wrap(c, i, n);
        assert(ds[i] == Decision::Intervene(j as usize));
    }
    assert forall|i1: int, i2: int| 0 <= i1 < i2 < events.len() implies #[trigger] ds[i1]
        != #[trigger] ds[i2] by {
        lemma_wrap(c, i1, n);
        lemma_wrap(c, i2, n);
    }
}

/// A run's decisions split at any point into those of its two parts.
proof fn lemma_run_append(s: SchedulerState, p: InterventionConfig, a: Seq<(bool, u64)>, b: Seq<(bool, u64)>)
    ensures
        run(s, p, a + b).0 == run(run(s, p, a).0, p, b).0,
        run(s, p, a + b).1 == run(s, p, a).1 + run(run(s, p, a).0, p, b).1,
    decreases a.len(),
{
    if a.len() == 0 {
        assert(a + b =~= b);
        assert(run(s, p, a).1 + run(s, p, b).1 =~= run(s, p, b).1);
    } else {
        let s1 = ticked(s, p, a[0].0, a[0].1);
        assert((a + b)[0] == a[0]);
        assert((a + b).drop_first() =~= a.drop_first() + b);
        lemma_run_append(s1.0, p, a.drop_first(), b);
        assert(seq![s1.1] + (run(s1.0, p, a.drop_first()).1 + run(run(s, p, a).0, p, b).1) =~= (seq![s1.1]
            + run(s1.0, p, a.drop_first()).1) + run(run(s, p, a).0, p, b).1);
    }
}

/// Exhausted is final: whatever comes after, nothing changes and no command
/// is ever issued again.
pub proof fn lemma_exhausted_is_final(s: SchedulerState, p: InterventionConfig, events: Seq<(bool, u64)>)
    requires
        s.phase == Phase::Exhausted,
    ensures
        run(s, p, events).0 == s,
        run(s, p, events).1.len() == events.len(),
        forall|i: int| 0 <= i < events.len() ==> #[trigger] run(s, p, events).1[i] == Decision::Exhausted,
    decreases events.len(),
{
    if events.len() > 0 {
        lemma_exhausted_is_final(s, p, events.drop_first());
        let ds = run(s, p, events).1;
        assert forall|i: int| 0 <= i < events.len() implies #[trigger] ds[i] == Decision::Exhausted by {
            if i > 0 {
                assert(ds[i] == run(s, p, events.drop_first()).1[i - 1]);
            }
        }
    }
}

/// The confirmed stall that follows a spent retry budget gives up instead of
/// intervening, and from then on no command is issued, whatever is observed.
pub proof fn lemma_retry_budget(
    s: SchedulerState,
    p: InterventionConfig,
    stuck: Seq<(bool, u64)>,
    later: Seq<(bool, u64)>,
)
    requires
        p.wf(),
        s.wf(p),
        s.phase != Phase::Exhausted,
        stuck.len() == p.max_retry - s.retry_count + 1,
        all_stuck(s, p, stuck),
    ensures
        run(s, p, stuck + later).1.len() == stuck.len() + later.len(),
        forall|i: int| 0 <= i < stuck.len() - 1 ==> #[trigger] run(s, p, stuck + later).1[i] is Intervene,
        forall|i: int|
            stuck.len() - 1 <= i < stuck.len() + later.len() ==> #[trigger] run(s, p, stuck + later).1[i]
                == Decision::Exhausted,
        run(s, p, stuck + later).0.phase == Phase::Exhausted,
        p.max_retry < usize::MAX ==> run(s, p, stuck + later).0.retry_count == p.max_retry + 1,
{
    reveal_with_fuel(run, 2);
    let k = stuck.len() - 1;
    let head = stuck.subrange(0, k);
    let last = stuck.subrange(k, stuck.len() as int);
    assert(head + last =~= stuck);
    assert(all_stuck(s, p, head)) by {
        assert forall|i: int| 0 <= i < head.len() implies !(#[trigger] head[i]).0 && elapsed_ms(
            s.last_active_at,
            head[i].1,
        ) > p.stuck_threshold_ms by {
            assert(head[i] == stuck[i]);
        }
    }
    lemma_stuck_run(s, p, head);
    lemma_stuck_run_state(s, p, head);
    let m = run(s, p, head).0;
    assert(last[0] == stuck[k]);
    assert(last.drop_first().len() == 0);
    let f = ticked(m, p, last[0].0, last[0].1).0;
    assert(f.phase == Phase::Exhausted);
    lemma_run_append(s, p, head, last);
    lemma_run_append(s, p, stuck, later);
    lemma_exhausted_is_final(f, p, later);
    assert(run(s, p, stuck).0 == f);
    let ds = run(s, p, stuck + later).1;
    assert forall|i: int| 0 <= i < k implies #[trigger] ds[i] is Intervene by {
        assert(ds[i] == run(s, p, head).1[i]);
    }
    assert forall|i: int| k <= i < stuck.len() + later.len() implies #[trigger] ds[i] == Decision::Exhausted by {
        if i > k {
            assert(ds[i] == run(f, p, later).1[i - k - 1]);
        }
    }
}

/// The state after a run of stalled ticks within the retry budget.
proof fn lemma_stuck_run_state(s: SchedulerState, p: InterventionConfig, events: Seq<(bool, u64)>)
    requires
        p.wf(),
        s.wf(p),
        s.phase != Phase::Exhausted,
        s.retry_count + events.len() <= p.max_retry,
        all_stuck(s, p, events),
    ensures
        run(s, p, events).0.wf(p),
        run(s, p, events).0.phase != Phase::Exhausted,
        run(s, p, events).0.retry_count == s.retry_count + events.len(),
        run(s, p, events).0.last_active_at == s.last_active_at,
    decreases events.len(),
{
    if events.len() > 0 {
        let s1 = ticked(s, p, events[0].0, events[0].1).0;
        let rest = events.drop_first();
        assert(!events[0].0);
        assert forall|i: int| 0 <= i < rest.len() implies !(#[trigger] rest[i]).0 && elapsed_ms(
            s1.last_active_at,
            rest[i].1,
        ) > p.stuck_threshold_ms by {
            assert(rest[i] == events[i + 1]);
        }
        lemma_stuck_run_state(s1, p, rest);
    }
}

} // verus!
