use opencode_watch::activity::{classify, ActivityDetector, INTERRUPT_MARKER, WORKING_MARKER};
use opencode_watch::llm::{analysis_confirms_stuck, LlmBackend, LlmClient, ANALYSIS_PROMPT};
use opencode_watch::monitor::{Monitor, MonitorAction};
use opencode_watch::policy::{secs_to_millis, InterventionCommand, InterventionConfig};
use opencode_watch::scheduler::{Decision, Phase, SchedulerState};
use opencode_watch::text::{contains_text, same_text};
use opencode_watch::timing::elapsed;
use opencode_watch::tmux::TmuxClient;

fn policy(commands: &[&str], stuck_sec: u64, max_retry: usize) -> InterventionConfig {
    let list: Vec<String> = commands.iter().map(|c| c.to_string()).collect();
    InterventionConfig::new(&list, 1000, 3000, max_retry, stuck_sec, 5)
}

#[test]
fn text_search_and_equality() {
    assert!(contains_text("is working now", "working"));
    assert!(!contains_text("is Working now", "working"));
    assert!(contains_text("继续工作", "工作"));
    assert!(!contains_text("wor", "working"));
    assert!(contains_text("anything", ""));
    assert!(contains_text("", ""));
    assert!(!contains_text("", "x"));
    assert!(contains_text("abcabd", "abd"));
    assert!(same_text("é", "é"));
    assert!(!same_text("é", "e"));
    assert!(!same_text("ab", "abc"));
}

#[test]
fn classify_unmarked_identical_is_idle() {
    let r = classify("idle prompt $", "idle prompt $", WORKING_MARKER, INTERRUPT_MARKER);
    assert!(!r.is_active);
    assert!(!r.content_changed);
    assert!(!r.has_working);
    assert!(!r.has_esc_interrupt);
    assert_eq!(r.last_content, "idle prompt $");
}

#[test]
fn classify_primary_marker_is_active_changed_or_not() {
    let r = classify("Build working...", "Build working...", WORKING_MARKER, INTERRUPT_MARKER);
    assert!(r.is_active && r.has_working && !r.content_changed);
    let r = classify("", "Build working...", WORKING_MARKER, INTERRUPT_MARKER);
    assert!(r.is_active && r.has_working && r.content_changed);
}

#[test]
fn classify_secondary_marker_is_active() {
    let r = classify("a", "press esc interrupt", WORKING_MARKER, INTERRUPT_MARKER);
    assert!(r.is_active);
    assert!(!r.has_working);
    assert!(r.has_esc_interrupt);
}

#[test]
fn classify_twice_gives_same_verdict() {
    let a = classify("old text", "new text working", WORKING_MARKER, INTERRUPT_MARKER);
    let b = classify("old text", "new text working", WORKING_MARKER, INTERRUPT_MARKER);
    assert_eq!(
        (a.is_active, a.has_working, a.has_esc_interrupt, a.content_changed, a.last_content),
        (b.is_active, b.has_working, b.has_esc_interrupt, b.content_changed, b.last_content)
    );
}

#[test]
fn classify_empty_text() {
    let r = classify("", "", WORKING_MARKER, INTERRUPT_MARKER);
    assert!(!r.is_active && !r.has_working && !r.has_esc_interrupt && !r.content_changed);
    let r = classify("before", "", WORKING_MARKER, INTERRUPT_MARKER);
    assert!(!r.is_active && r.content_changed);
}

#[test]
fn detector_tracks_changes_and_checks() {
    let mut d = ActivityDetector::new(1_000);
    let r = d.check_activity("hello", 2_000);
    assert!(r.content_changed);
    assert_eq!(d.last_content_change, 2_000);
    let r = d.check_activity("hello", 9_000);
    assert!(!r.content_changed);
    assert_eq!(d.last_content_change, 2_000);
    assert_eq!(d.last_check, 9_000);
    assert_eq!(d.get_time_since_last_change(12_000), 10_000);
    assert_eq!(d.get_time_since_last_check(12_000), 3_000);
    assert!(d.check_long_stuck(9_999, 12_000));
    assert!(!d.check_long_stuck(10_000, 12_000));
    assert_eq!(d.get_time_since_last_change(1_000), 0);
}

#[test]
fn elapsed_never_negative() {
    assert_eq!(elapsed(5, 3), 0);
    assert_eq!(elapsed(3, 5), 2);
}

#[test]
fn command_attributes() {
    let c = InterventionCommand::from_text("continue");
    assert!(c.confirm);
    assert_eq!(c.keys, "continue");
    assert!(!InterventionCommand::from_text("/compact").confirm);
    assert!(!InterventionCommand::from_text("C-c").confirm);
    assert!(!InterventionCommand::from_text("M-x").confirm);
    assert!(InterventionCommand::from_text("").confirm);
    assert!(InterventionCommand::from_text("继续").confirm);
    for key in ["Escape", "Enter", "C-Space", "C-M-c", "S-Up", "F5", "F12", "BSpace", "PageDown"] {
        assert!(!InterventionCommand::from_text(key).confirm, "{}", key);
    }
    for text in ["F1x", "C- c", "Continue", "S-", "Esc", "escape"] {
        assert!(InterventionCommand::from_text(text).confirm, "{}", text);
    }
}

#[test]
fn plan_timing() {
    let p = policy(&["continue", "/compact"], 30, 3);
    let i = p.plan(0);
    assert_eq!(i.keys, "continue");
    assert!(i.confirm);
    assert_eq!(i.confirm_delay_ms, 1000);
    assert_eq!(i.settle_ms, 2000);
    let i = p.plan(1);
    assert_eq!(i.keys, "/compact");
    assert!(!i.confirm);
    assert_eq!(i.confirm_delay_ms, 0);
    assert_eq!(i.settle_ms, 0);

    let list = vec!["go".to_string()];
    let q = InterventionConfig::new(&list, 4000, 3000, 1, 1, 1);
    assert_eq!(q.plan(0).settle_ms, 0);
}

#[test]
fn seconds_to_milliseconds_saturate() {
    assert_eq!(secs_to_millis(31), 31_000);
    assert_eq!(secs_to_millis(u64::MAX), u64::MAX);
    assert_eq!(secs_to_millis(u64::MAX / 1000), (u64::MAX / 1000) * 1000);
}

#[test]
fn grace_window_then_single_intervention() {
    let p = policy(&["continue", "/compact"], 30, 3);
    let mut s = SchedulerState::new(0);
    assert_eq!(s.tick(&p, false, 10_000), Decision::Idle);
    assert_eq!(s.tick(&p, false, 20_000), Decision::Idle);
    assert_eq!(s.tick(&p, false, 30_000), Decision::Idle);
    assert_eq!(s.retry_count, 0);
    assert_eq!(s.tick(&p, false, 30_001), Decision::Intervene(0));
    assert_eq!(s.retry_count, 1);
    assert_eq!(s.last_active_at, 0);
}

#[test]
fn activity_resets_retry_and_timer() {
    let p = policy(&["a", "b", "c"], 1, 5);
    let mut s = SchedulerState::new(0);
    assert_eq!(s.tick(&p, false, 2_000), Decision::Intervene(0));
    assert_eq!(s.tick(&p, true, 3_000), Decision::Idle);
    assert_eq!(s.retry_count, 0);
    assert_eq!(s.last_active_at, 3_000);
    assert_eq!(s.elapsed_since_active(3_500), 500);
    assert_eq!(s.tick(&p, false, 3_900), Decision::Idle);
    // the cursor is not reset by activity
    assert_eq!(s.tick(&p, false, 4_001), Decision::Intervene(1));
}

#[test]
fn round_robin_over_the_list() {
    let p = policy(&["a", "b", "c"], 1, 10);
    let mut s = SchedulerState::new(0);
    let mut issued = Vec::new();
    for k in 0..6u64 {
        match s.tick(&p, false, 5_000 + k) {
            Decision::Intervene(i) => issued.push(p.plan(i).keys),
            other => panic!("unexpected {:?}", other),
        }
    }
    assert_eq!(issued, vec!["a", "b", "c", "a", "b", "c"]);
}

#[test]
fn retry_budget_of_two_halts_on_third() {
    let p = policy(&["a", "b", "c"], 1, 2);
    let mut s = SchedulerState::new(0);
    assert_eq!(s.tick(&p, false, 2_000), Decision::Intervene(0));
    assert_eq!(s.tick(&p, false, 3_000), Decision::Intervene(1));
    assert_eq!(s.tick(&p, false, 4_000), Decision::Exhausted);
    assert!(s.is_exhausted());
    assert_eq!(s.retry_count, 3);
    assert_eq!(s.tick(&p, false, 5_000), Decision::Exhausted);
    assert_eq!(s.tick(&p, true, 6_000), Decision::Exhausted);
    assert_eq!(s.phase, Phase::Exhausted);
    assert_eq!(s.retry_count, 3);
}

#[test]
fn zero_retry_budget_gives_up_at_once() {
    let p = policy(&["a"], 1, 0);
    let mut s = SchedulerState::new(0);
    assert_eq!(s.tick(&p, false, 2_000), Decision::Exhausted);
    assert_eq!(s.retry_count, 1);
}

#[test]
fn retry_count_saturates_at_largest_budget() {
    let p = policy(&["a"], 1, usize::MAX);
    let mut s = SchedulerState::new(0);
    s.retry_count = usize::MAX;
    assert_eq!(s.tick(&p, false, 2_000), Decision::Exhausted);
    assert_eq!(s.retry_count, usize::MAX);
}

#[test]
fn analyzer_gate_skips_without_spending_budget() {
    let p = policy(&["a", "b"], 1, 1);
    let mut s = SchedulerState::new(0);
    assert!(s.observe(&p, false, 2_000));
    // an outside check cleared the stall: no intervention this tick
    assert_eq!(s.retry_count, 0);
    assert!(s.observe(&p, false, 3_000));
    assert_eq!(s.intervene(&p), Decision::Intervene(0));
    assert_eq!(s.retry_count, 1);
    assert_eq!(s.intervene(&p), Decision::Idle);
}

#[test]
fn scenario_continue_then_compact() {
    // commands ["continue", "/compact"], threshold 30 s, pane frozen without markers
    let list = vec!["continue".to_string(), "/compact".to_string()];
    let p = InterventionConfig::new(&list, 1000, 3000, 1, 30, 5);
    let mut m = Monitor::new(p, 0);
    let frozen = "$ waiting for input";

    assert!(m.observe(frozen, 31_000));
    match m.act() {
        MonitorAction::Send(i) => {
            assert_eq!(i.keys, "continue");
            assert!(i.confirm);
            assert_eq!(i.confirm_delay_ms, 1000);
        },
        other => panic!("unexpected {:?}", other),
    }
    // with a budget of one retry the second stalled cycle gives up
    assert!(m.observe(frozen, 62_000));
    assert!(matches!(m.act(), MonitorAction::Stop));

    // with a budget of two, the second cycle sends "/compact" with no confirm
    let list = vec!["continue".to_string(), "/compact".to_string()];
    let p = InterventionConfig::new(&list, 1000, 3000, 2, 30, 5);
    let mut m = Monitor::new(p, 0);
    assert!(m.observe(frozen, 31_000));
    assert!(matches!(m.act(), MonitorAction::Send(_)));
    assert!(m.observe(frozen, 62_000));
    match m.act() {
        MonitorAction::Send(i) => {
            assert_eq!(i.keys, "/compact");
            assert!(!i.confirm);
        },
        other => panic!("unexpected {:?}", other),
    }
    assert!(m.observe(frozen, 93_000));
    assert!(matches!(m.act(), MonitorAction::Stop));
}

#[test]
fn monitor_marker_keeps_it_quiet() {
    let list = vec!["x".to_string()];
    let p = InterventionConfig::new(&list, 0, 0, 3, 1, 1);
    let mut m = Monitor::new(p, 0);
    assert!(!m.observe("still working", 10_000));
    assert!(matches!(m.act(), MonitorAction::Idle));
    assert_eq!(m.scheduler.last_active_at, 10_000);
    assert!(!m.observe("esc interrupt", 20_000));
    assert!(m.observe("done", 21_001));
}

#[test]
fn llm_backends_and_requests() {
    assert_eq!(LlmClient::new("ollama", "m").backend_kind(), Some(LlmBackend::Ollama));
    assert_eq!(LlmClient::new("openai", "m").backend_kind(), Some(LlmBackend::OpenAi));
    assert_eq!(LlmClient::new("openrouter", "m").backend_kind(), Some(LlmBackend::OpenRouter));
    assert_eq!(LlmClient::new("none", "m").backend_kind(), Some(LlmBackend::Disabled));
    assert_eq!(LlmClient::new("other", "m").backend_kind(), None);
    assert_eq!(LlmBackend::OpenAi.endpoint(), Some("https://api.openai.com/v1/chat/completions"));
    assert_eq!(LlmBackend::OpenRouter.endpoint(), Some("https://openrouter.ai/api/v1/chat/completions"));
    assert_eq!(LlmBackend::Ollama.endpoint(), None);

    let req = LlmClient::new("openai", "llama3.2").build_request("pane text");
    assert_eq!(req.model, "llama3.2");
    assert_eq!(req.prompt, format!("{}pane text", ANALYSIS_PROMPT));
    assert!(!req.stream);
}

#[test]
fn analysis_wording() {
    assert!(analysis_confirms_stuck("程序卡住了"));
    assert!(analysis_confirms_stuck("it looks stuck"));
    assert!(!analysis_confirms_stuck("Stuck"));
    assert!(!analysis_confirms_stuck("正常运行"));
    assert!(!analysis_confirms_stuck("the worker is not actually stuck"));
    assert!(!analysis_confirms_stuck("it is not stuck, just slow"));
    assert!(!analysis_confirms_stuck("it isn't stuck"));
    assert!(!analysis_confirms_stuck("程序没有卡住"));
    assert!(!analysis_confirms_stuck("程序没卡住"));
    assert!(!analysis_confirms_stuck("程序未卡住"));
    assert!(analysis_confirms_stuck("yes, stuck"));
}

#[test]
fn pane_listing() {
    let t = TmuxClient::new();
    let listing = "main:0.0: [80x24] %17 (active)\nmain:0.1: [80x24] %18\n";
    assert!(t.lists_pane(listing, "%18"));
    assert!(!t.lists_pane(listing, "%19"));
    assert!(!t.lists_pane("", "%1"));
    assert!(!t.lists_pane(listing, "%1"));
    assert!(!t.lists_pane(listing, "%"));
    assert!(!t.lists_pane(listing, ""));
    assert!(t.lists_pane("%3", "%3"));
    assert!(t.lists_pane("%3\n", "%3"));
    assert!(t.lists_pane("a\t%3 b", "%3"));
    assert!(!t.lists_pane("a %3x", "%3"));
    assert!(!t.lists_pane("a %1 %8", "%1 %8"));
}

#[test]
fn frozen_marker_is_stale() {
    let list = vec!["x".to_string()];
    let p = InterventionConfig::new(&list, 0, 0, 3, 1, 1);
    let mut m = Monitor::new(p, 0);
    assert!(!m.observe("working", 1_000));
    assert!(!m.observe("working", 1_500));
    assert_eq!(m.scheduler.last_active_at, 1_500);
    // unchanged for 1.5 s > 1 s: the marker no longer counts
    assert!(!m.observe("working", 2_500));
    assert_eq!(m.scheduler.last_active_at, 1_500);
    assert!(m.observe("working", 2_600));
    // fresh text with the marker is activity again
    assert!(!m.observe("working on it", 2_700));
    assert_eq!(m.scheduler.last_active_at, 2_700);
}
