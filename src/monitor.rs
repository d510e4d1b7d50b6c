//! One monitor tick's decisions: classify the capture, feed the verdict to
//! the scheduler, and turn a decision into the keys to send.
use vstd::prelude::*;
use crate::activity::{ActivityDetector, INTERRUPT_MARKER, WORKING_MARKER};
use crate::policy::{Intervention, InterventionConfig};
use crate::scheduler::{fresh_state, intervened, observed, Decision, Phase, SchedulerState};
use crate::text::text_contains;
use crate::timing::elapsed_ms;

verus! {

/// The pane text shows one of the activity markers.
pub open spec fn shows_activity(text: Seq<char>) -> bool {
    text_contains(text, WORKING_MARKER@) || text_contains(text, INTERRUPT_MARKER@)
}

/// The pane text has not changed for longer than the stall threshold: a
/// marker shown over it is stale and does not count as activity.
pub open spec fn frozen(last_change: u64, threshold_ms: u64, now: u64) -> bool {
    elapsed_ms(last_change, now) > threshold_ms
}

/// What the monitor does after a tick.
#[derive(Debug, Clone)]
pub enum MonitorAction {
    /// Nothing to send; sleep until the next tick.
    Idle,
    /// Send this intervention.
    Send(Intervention),
    /// The retry budget is spent: stop monitoring.
    Stop,
}

pub struct Monitor {
    pub policy: InterventionConfig,
    pub detector: ActivityDetector,
    pub scheduler: SchedulerState,
}

impl Monitor {
    pub open spec fn wf(&self) -> bool {
        self.policy.wf() && self.scheduler.wf(self.policy)
    }

    /// A monitor started at `now_ms`, assuming the worker was just active.
    pub fn new(policy: InterventionConfig, now_ms: u64) -> (r: Monitor)
        requires
            policy.wf(),
        ensures
            r.wf(),
            r.policy == policy,
            r.scheduler == fresh_state(now_ms),
            r.detector.last_content@ == Seq::<char>::empty(),
            r.detector.last_content_change == now_ms,
    {
        Monitor { policy, detector: ActivityDetector::new(now_ms), scheduler: SchedulerState::new(now_ms) }
    }

    /// Takes in a capture of the pane; returns whether a stall is confirmed.
    /// A marker counts as activity only while the text keeps changing within
    /// the stall threshold.
    pub fn observe(&mut self, content: &str, now_ms: u64) -> (stuck: bool)
        requires
            old(self).wf(),
        ensures
            final(self).wf(),
            final(self).policy == old(self).policy,
            final(self).scheduler == observed(
                old(self).scheduler,
                old(self).policy,
                shows_activity(content@) && !frozen(
                    final(self).detector.last_content_change,
                    old(self).policy.stuck_threshold_ms,
                    now_ms,
                ),
                now_ms,
            ),
            final(self).detector.last_content@ == content@,
            final(self).detector.last_check == now_ms,
            final(self).detector.last_content_change == (if content@ != old(self).detector.last_content@ {
                now_ms
            } else {
                old(self).detector.last_content_change
            }),
            stuck == (final(self).scheduler.phase == Phase::StuckConfirmed),
    {
        let verdict = self.detector.check_activity(content, now_ms);
        let stale = self.detector.check_long_stuck(self.policy.stuck_threshold_ms, now_ms);
        self.scheduler.observe(&self.policy, verdict.is_active && !stale, now_ms)
    }

    /// Acts on a confirmed stall: the intervention to send, or a stop once the
    /// retry budget is spent. Call it only when no outside check has cleared
    /// the stall.
    pub fn act(&mut self) -> (r: MonitorAction)
        requires
            old(self).wf(),
        ensures
            final(self).wf(),
            final(self).policy == old(self).policy,
            final(self).detector == old(self).detector,
            final(self).scheduler == intervened(old(self).scheduler, old(self).policy).0,
            match intervened(old(self).scheduler, old(self).policy).1 {
                Decision::Idle => r is Idle,
                Decision::Exhausted => r is Stop,
                Decision::Intervene(i) => match r {
                    MonitorAction::Send(v) => v.plans(old(self).policy, i as int),
                    _ => false,
                },
            },
    {
        match self.scheduler.intervene(&self.policy) {
            Decision::Idle => MonitorAction::Idle,
            Decision::Exhausted => MonitorAction::Stop,
            Decision::Intervene(i) => MonitorAction::Send(self.policy.plan(i)),
        }
    }
}

} // verus!
