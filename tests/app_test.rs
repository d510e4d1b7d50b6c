use opencode_watch::app::WatchApp;
use opencode_watch::state::WatchState;

#[test]
fn test_app_creation() {
    let app = WatchApp::new();
    assert!(app.is_stopped());
    assert!(!app.is_running());
    assert!(!app.is_interrupted());
}

#[test]
fn test_state_transitions() {
    let mut app = WatchApp::new();

    assert!(app.handle_input("\n"));
    assert!(app.is_running());
    assert!(!app.is_stopped());

    assert!(app.handle_input("esc"));
    assert!(app.is_interrupted());
    assert!(!app.is_running());
}

#[test]
fn test_display_strings() {
    let mut app = WatchApp::new();

    let stopped_display = app.get_display_string();
    assert!(stopped_display.contains("停止状态"));
    assert!(stopped_display.contains("Enter"));

    app.handle_input("\n");
    let running_display = app.get_display_string();
    assert!(running_display.contains("运行状态"));
    assert!(running_display.contains("Esc"));

    app.handle_input("esc");
    let interrupted_display = app.get_display_string();
    assert!(interrupted_display.contains("已中断"));
}

#[test]
fn app_test_invalid_input_handling() {
    let mut app = WatchApp::new();

    assert!(!app.handle_input("invalid"));
    assert!(app.is_stopped());

    app.handle_input("\n");
    assert!(!app.handle_input("invalid"));
    assert!(app.is_running());
}

#[test]
fn test_stopped_to_running() {
    let state = WatchState::Stopped;
    if let Some(new_state) = state.handle_input("\n") {
        assert_eq!(new_state, WatchState::Running);
    } else {
        panic!("Expected state transition from Stopped to Running");
    }
}

#[test]
fn test_running_to_interrupted() {
    let state = WatchState::Running;
    if let Some(new_state) = state.handle_input("esc") {
        assert_eq!(new_state, WatchState::Interrupted);
    } else {
        panic!("Expected state transition from Running to Interrupted");
    }
}

#[test]
fn test_invalid_transitions() {
    let state = WatchState::Stopped;
    assert!(state.handle_input("x").is_none());

    let state = WatchState::Running;
    assert!(state.handle_input("a").is_none());
}

#[test]
fn interrupted_ignores_every_key() {
    let state = WatchState::Interrupted;
    assert!(state.handle_input("\n").is_none());
    assert!(state.handle_input("esc").is_none());
    assert!(state.handle_input("").is_none());
}

#[test]
fn keys_match_exactly() {
    assert!(WatchState::Stopped.handle_input("\n\n").is_none());
    assert!(WatchState::Running.handle_input("Esc").is_none());
    assert!(WatchState::Running.handle_input("esc ").is_none());
}

#[test]
fn state_labels() {
    assert_eq!(WatchState::Stopped.label(), "🔴 停止状态");
    assert_eq!(WatchState::Running.label(), "⚪ 运行状态");
    assert_eq!(WatchState::Interrupted.label(), "⚠️ 已中断");
}

#[test]
fn display_strings_exact() {
    let mut app = WatchApp::default();
    assert_eq!(app.get_display_string(), "🔴 停止状态 - 按 Enter 发送");
    app.handle_input("\n");
    assert_eq!(app.get_display_string(), "⚪ 运行状态 - 按 Esc 中断");
    app.tick_animation();
    app.tick_animation();
    assert_eq!(app.get_display_string(), "⚪ 运行状态.. - 按 Esc 中断");
    app.handle_input("esc");
    assert_eq!(app.get_display_string(), "⚠️ 已中断 - 按任意键继续");
}
