use opencode_watch::app::WatchApp;
use opencode_watch::state::WatchState;

#[test]
fn test_full_workflow() {
    let mut app = WatchApp::new();

    assert!(app.is_stopped());
    assert_eq!(app.get_state(), &WatchState::Stopped);

    let display = app.get_display_string();
    assert!(display.contains("停止状态"));
    assert!(display.contains("Enter"));

    assert!(app.handle_input("\n"));
    assert!(app.is_running());
    assert_eq!(app.get_state(), &WatchState::Running);

    let display = app.get_display_string();
    assert!(display.contains("运行状态"));
    assert!(display.contains("Esc"));

    assert!(app.handle_input("esc"));
    assert!(app.is_interrupted());
    assert_eq!(app.get_state(), &WatchState::Interrupted);

    let display = app.get_display_string();
    assert!(display.contains("已中断"));
}

#[test]
fn integration_test_test_invalid_input_handling() {
    let mut app = WatchApp::new();

    assert!(!app.handle_input("invalid"));
    assert!(app.is_stopped());

    app.handle_input("\n");

    assert!(!app.handle_input("invalid"));
    assert!(app.is_running());
}

#[test]
fn test_state_display_consistency() {
    let mut app = WatchApp::new();

    let stopped_display = app.get_display_string();
    assert!(stopped_display.starts_with("🔴"));

    app.handle_input("\n");
    let running_display = app.get_display_string();
    assert!(running_display.starts_with("⚪"));

    app.handle_input("esc");
    let interrupted_display = app.get_display_string();
    assert!(interrupted_display.starts_with("⚠️"));
}

#[test]
fn test_animation_integration() {
    let mut app = WatchApp::new();

    app.handle_input("\n");

    let display = app.get_display_string();

    assert!(display.contains("运行状态"));
    assert!(display.contains("Esc"));

    let parts: Vec<&str> = display.split("运行状态").collect();
    assert!(parts.len() > 1);
}
