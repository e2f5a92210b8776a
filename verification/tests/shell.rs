use hotkey_shell::shell::log_call_event_name;
use hotkey_shell::shell::AppContext;
use hotkey_shell::shell::HostAction;
use hotkey_shell::window::WindowState;

fn ctx(window: Option<WindowState>, registered: bool) -> AppContext {
    AppContext::startup(window, registered)
}

#[test]
fn press_reveals_hidden_window_and_notifies() {
    let mut app = ctx(Some(WindowState::new(false, 42)), true);
    let actions = app.press_hotkey();
    let w = app.window.expect("window must survive a press");
    assert!(w.visible);
    assert!(w.focused);
    assert_eq!(w.content, 42);
    assert_eq!(
        actions,
        vec![HostAction::ShowWindow, HostAction::FocusWindow, HostAction::EmitLogCall]
    );
}

#[test]
fn notification_name_is_log_call() {
    assert_eq!(log_call_event_name(), "log-call");
}

#[test]
fn repeated_presses_are_idempotent() {
    let mut app = ctx(Some(WindowState::new(false, 7)), true);
    let first_actions = app.press_hotkey();
    let after_first = app;
    let second_actions = app.press_hotkey();
    assert_eq!(app, after_first);
    assert_eq!(second_actions, first_actions);
    let w = app.window.unwrap();
    assert!(w.visible);
    assert!(w.focused);
}

#[test]
fn hide_then_press_restores_window_with_content() {
    let mut app = ctx(Some(WindowState::new(true, 99)), true);
    let actions = app.close_window();
    assert_eq!(actions, vec![HostAction::HideWindow]);
    let hidden = app.window.expect("hide must not destroy the window");
    assert!(!hidden.visible);
    assert_eq!(hidden.content, 99);
    app.press_hotkey();
    let restored = app.window.unwrap();
    assert!(restored.visible);
    assert!(restored.focused);
    assert_eq!(restored.content, 99);
}

#[test]
fn press_without_window_is_a_silent_noop() {
    let mut app = ctx(None, true);
    let before = app;
    let actions = app.press_hotkey();
    assert_eq!(app, before);
    assert!(actions.is_empty());
}

#[test]
fn refused_registration_is_not_fatal() {
    let mut app = ctx(Some(WindowState::new(true, 3)), false);
    let press_actions = app.press_hotkey();
    assert!(press_actions.is_empty());
    assert!(app.window.unwrap().visible);
    let hide_actions = app.close_window();
    assert_eq!(hide_actions, vec![HostAction::HideWindow]);
    assert!(!app.window.unwrap().visible);
}

#[test]
fn hiding_a_hidden_window_is_a_noop() {
    let mut app = ctx(Some(WindowState::new(false, 5)), true);
    let before = app;
    app.close_window();
    assert_eq!(app, before);
}

#[test]
fn hide_command_without_window_is_a_silent_noop() {
    let mut app = ctx(None, false);
    let before = app;
    let actions = app.close_window();
    assert_eq!(app, before);
    assert!(actions.is_empty());
}

#[test]
fn fresh_window_starts_unfocused() {
    let visible = WindowState::new(true, 0);
    assert!(visible.visible);
    assert!(!visible.focused);
    let mut w = WindowState::new(false, 1);
    w.show_and_focus();
    assert!(w.visible && w.focused);
    w.conceal();
    assert!(!w.visible && !w.focused);
    assert_eq!(w.content, 1);
}
