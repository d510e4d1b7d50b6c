//! Activity classification of pane text, and a detector that remembers the
//! previous capture and when the text last changed.
use vstd::prelude::*;
use crate::text::{contains_text, same_text, text_contains};
use crate::timing::{elapsed, elapsed_ms};

verus! {

/// Marker the worker shows while it is busy.
pub const WORKING_MARKER: &'static str = "working";

/// Marker the worker shows while an interrupt is pending.
pub const INTERRUPT_MARKER: &'static str = "esc interrupt";

/// The verdict on one capture of the pane.
#[derive(Debug, Clone)]
pub struct ActivityResult {
    pub is_active: bool,
    pub has_working: bool,
    pub has_esc_interrupt: bool,
    pub content_changed: bool,
    pub last_content: String,
}

impl ActivityResult {
    /// This is the verdict on `current` after `previous`, with the two markers.
    pub open spec fn describes(
        self,
        previous: Seq<char>,
        current: Seq<char>,
        primary: Seq<char>,
        secondary: Seq<char>,
    ) -> bool {
        &&& self.has_working == text_contains(current, primary)
        &&& self.has_esc_interrupt == text_contains(current, secondary)
        &&& self.is_active == (self.has_working || self.has_esc_interrupt)
        &&& self.content_changed == (current != previous)
        &&& self.last_content@ == current
    }
}

/// Classifies `current` against the previous capture: a marker present means
/// active; `content_changed` records whether the text differs at all.
pub fn classify(previous: &str, current: &str, primary: &str, secondary: &str) -> (r: ActivityResult)
    ensures
        r.describes(previous@, current@, primary@, secondary@),
{
    let has_working = contains_text(current, primary);
    let has_esc_interrupt = contains_text(current, secondary);
    let content_changed = !same_text(current, previous);
    ActivityResult {
        is_active: has_working || has_esc_interrupt,
        has_working,
        has_esc_interrupt,
        content_changed,
        last_content: current.to_owned(),
    }
}

/// Text with neither marker that is the same as before is not active and
/// not changed.
pub proof fn lemma_quiet_unchanged_is_inactive(
    r: ActivityResult,
    previous: Seq<char>,
    current: Seq<char>,
    primary: Seq<char>,
    secondary: Seq<char>,
)
    requires
        r.describes(previous, current, primary, secondary),
        !text_contains(current, primary),
        !text_contains(current, secondary),
        previous == current,
    ensures
        !r.is_active,
        !r.content_changed,
{
}

/// Text with the primary marker is active, whether it changed or not.
pub proof fn lemma_primary_marker_is_active(
    r: ActivityResult,
    previous: Seq<char>,
    current: Seq<char>,
    primary: Seq<char>,
    secondary: Seq<char>,
)
    requires
        r.describes(previous, current, primary, secondary),
        text_contains(current, primary),
    ensures
        r.is_active,
{
}

/// Classifying the same inputs twice gives the same verdict.
pub proof fn lemma_classify_idempotent(
    r1: ActivityResult,
    r2: ActivityResult,
    previous: Seq<char>,
    current: Seq<char>,
    primary: Seq<char>,
    secondary: Seq<char>,
)
    requires
        r1.describes(previous, current, primary, secondary),
        r2.describes(previous, current, primary, secondary),
    ensures
        r1.is_active == r2.is_active,
        r1.has_working == r2.has_working,
        r1.has_esc_interrupt == r2.has_esc_interrupt,
        r1.content_changed == r2.content_changed,
        r1.last_content@ == r2.last_content@,
{
}

/// Remembers the previous capture, when the text last changed and when it
/// was last checked (milliseconds on the monitor's clock).
pub struct ActivityDetector {
    pub last_content: String,
    pub last_content_change: u64,
    pub last_check: u64,
}

impl ActivityDetector {
    /// A detector that has seen an empty pane at `now_ms`.
    pub fn new(now_ms: u64) -> (r: ActivityDetector)
        ensures
            r.last_content@ == Seq::<char>::empty(),
            r.last_content_change == now_ms,
            r.last_check == now_ms,
    {
        ActivityDetector { last_content: String::new(), last_content_change: now_ms, last_check: now_ms }
    }

    /// Classifies a fresh capture against the previous one with the standard
    /// markers, and remembers it; a change of text restarts the change timer.
    pub fn check_activity(&mut self, content: &str, now_ms: u64) -> (r: ActivityResult)
        ensures
            r.describes(old(self).last_content@, content@, WORKING_MARKER@, INTERRUPT_MARKER@),
            final(self).last_content@ == content@,
            final(self).last_check == now_ms,
            final(self).last_content_change == (if r.content_changed {
                now_ms
            } else {
                old(self).last_content_change
            }),
    {
        let r = classify(self.last_content.as_str(), content, WORKING_MARKER, INTERRUPT_MARKER);
        if r.content_changed {
            self.last_content_change = now_ms;
        }
        self.last_content = content.to_owned();
        self.last_check = now_ms;
        r
    }

    /// Whether the text has not changed for longer than `threshold_ms`: a
    /// marker shown over a frozen pane is stale.
    pub fn check_long_stuck(&self, threshold_ms: u64, now_ms: u64) -> (r: bool)
        ensures
            r == (elapsed_ms(self.last_content_change, now_ms) > threshold_ms),
    {
        elapsed(self.last_content_change, now_ms) > threshold_ms
    }

    pub fn get_time_since_last_change(&self, now_ms: u64) -> (r: u64)
        ensures
            r == elapsed_ms(self.last_content_change, now_ms),
    {
        elapsed(self.last_content_change, now_ms)
    }

    pub fn get_time_since_last_check(&self, now_ms: u64) -> (r: u64)
        ensures
            r == elapsed_ms(self.last_check, now_ms),
    {
        elapsed(self.last_check, now_ms)
    }
}

} // verus!
