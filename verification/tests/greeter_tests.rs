use strikeface::greeter::{Action, App, AuthState, FocusedField, Key, KeyPress};

fn press(key: Key) -> KeyPress {
    KeyPress { key, ctrl: false }
}

fn type_text(app: &mut App, text: &str) {
    for c in text.chars() {
        assert!(matches!(app.handle_key(press(Key::Char(c))), Action::Continue));
    }
}

#[test]
fn new_app_waits_for_password() {
    let app = App::new("tau".to_string(), None);
    assert_eq!(app.username, "tau");
    assert_eq!(app.password, "");
    assert_eq!(app.focused, FocusedField::Password);
    assert_eq!(app.state, AuthState::Idle);
    assert_eq!(app.time_offset_minutes, 0);
    assert_eq!(app.session, None);
    assert_eq!(app.exit_code(), 1);
    assert!(!app.is_unlocked());
}

#[test]
fn typing_goes_to_focused_field_and_backspace_erases() {
    let mut app = App::new("tau".to_string(), None);
    type_text(&mut app, "hunter2");
    assert_eq!(app.password, "hunter2");
    app.handle_key(press(Key::Backspace));
    assert_eq!(app.password, "hunter");
    app.handle_key(press(Key::Up));
    assert_eq!(app.focused, FocusedField::Username);
    type_text(&mut app, "+x");
    assert_eq!(app.username, "tau+x");
    app.handle_key(press(Key::Backspace));
    app.handle_key(press(Key::Backspace));
    assert_eq!(app.username, "tau");
    app.handle_key(press(Key::Backspace));
    app.handle_key(press(Key::Backspace));
    app.handle_key(press(Key::Backspace));
    app.handle_key(press(Key::Backspace));
    assert_eq!(app.username, "");
    assert_eq!(app.password, "hunter");
    app.handle_key(press(Key::Down));
    assert_eq!(app.focused, FocusedField::Password);
}

#[test]
fn clock_keys_move_offset_while_password_focused() {
    let mut app = App::new("tau".to_string(), None);
    app.handle_key(press(Key::Char('+')));
    app.handle_key(press(Key::Char('=')));
    assert_eq!(app.time_offset_minutes, 2);
    app.handle_key(press(Key::Char(']')));
    assert_eq!(app.time_offset_minutes, 12);
    app.handle_key(press(Key::Char('[')));
    app.handle_key(press(Key::Char('-')));
    app.handle_key(press(Key::Char('_')));
    assert_eq!(app.time_offset_minutes, 0);
    app.handle_key(press(Key::Left));
    assert_eq!(app.time_offset_minutes, -1);
    app.handle_key(press(Key::Right));
    app.handle_key(press(Key::Right));
    assert_eq!(app.time_offset_minutes, 1);
    assert_eq!(app.password, "");
    app.handle_key(press(Key::Char('r')));
    assert_eq!(app.time_offset_minutes, 0);
}

#[test]
fn reset_key_types_when_password_not_empty() {
    let mut app = App::new("tau".to_string(), None);
    app.handle_key(press(Key::Char(']')));
    type_text(&mut app, "a");
    app.handle_key(press(Key::Char('r')));
    assert_eq!(app.password, "ar");
    assert_eq!(app.time_offset_minutes, 10);
}

#[test]
fn clock_keys_type_into_username() {
    let mut app = App::new(String::new(), None);
    app.handle_key(press(Key::Up));
    type_text(&mut app, "+-[]r");
    app.handle_key(press(Key::Left));
    app.handle_key(press(Key::Right));
    assert_eq!(app.username, "+-[]r");
    assert_eq!(app.time_offset_minutes, 0);
}

#[test]
fn enter_moves_focus_then_asks_for_check() {
    let mut app = App::new("tau".to_string(), None);
    app.handle_key(press(Key::Up));
    assert!(matches!(app.handle_key(press(Key::Enter)), Action::Continue));
    assert_eq!(app.focused, FocusedField::Password);
    assert!(matches!(app.handle_key(press(Key::Enter)), Action::Continue));
    type_text(&mut app, "pw");
    match app.handle_key(press(Key::Enter)) {
        Action::Authenticate(req) => {
            assert_eq!(req.service, "strikeface");
            assert_eq!(req.user, "tau");
            assert_eq!(req.password, "pw");
        }
        _ => panic!("expected a credential check"),
    }
    assert_eq!(app.password, "pw");
}

#[test]
fn session_selects_login_service() {
    let mut app = App::new("tau".to_string(), Some("niri".to_string()));
    assert_eq!(app.service(), "login");
    type_text(&mut app, "pw");
    match app.handle_key(press(Key::Enter)) {
        Action::Authenticate(req) => assert_eq!(req.service, "login"),
        _ => panic!("expected a credential check"),
    }
}

#[test]
fn escape_clears_then_quits() {
    let mut app = App::new("tau".to_string(), None);
    type_text(&mut app, "abc");
    assert!(matches!(app.handle_key(press(Key::Esc)), Action::Continue));
    assert_eq!(app.password, "");
    assert!(matches!(app.handle_key(press(Key::Esc)), Action::Quit));
}

#[test]
fn control_c_quits_and_other_control_keys_type() {
    let mut app = App::new("tau".to_string(), None);
    let a = app.handle_key(KeyPress { key: Key::Char('a'), ctrl: true });
    assert!(matches!(a, Action::Continue));
    assert_eq!(app.password, "a");
    let q = app.handle_key(KeyPress { key: Key::Char('c'), ctrl: true });
    assert!(matches!(q, Action::Quit));
    assert_eq!(app.password, "a");
    assert!(matches!(app.handle_key(press(Key::Other)), Action::Continue));
}

#[test]
fn rejected_check_wipes_password() {
    let mut app = App::new("tau".to_string(), None);
    app.handle_key(press(Key::Char('+')));
    type_text(&mut app, "wrong");
    app.handle_key(press(Key::Up));
    app.finish_auth(false);
    assert_eq!(app.password, "");
    assert_eq!(app.focused, FocusedField::Password);
    assert_eq!(app.username, "tau");
    assert_eq!(app.time_offset_minutes, 1);
    assert_eq!(app.state, AuthState::Idle);
    assert_eq!(app.exit_code(), 1);
}

#[test]
fn accepted_check_unlocks() {
    let mut app = App::new("tau".to_string(), None);
    type_text(&mut app, "pass");
    app.finish_auth(true);
    assert!(app.is_unlocked());
    assert_eq!(app.state, AuthState::Success);
    assert_eq!(app.exit_code(), 0);
    assert_eq!(app.password, "pass");
}

#[test]
fn user_line_marks_focus() {
    let mut app = App::new("tau".to_string(), None);
    assert_eq!(app.user_line(), "tau");
    app.handle_key(press(Key::Up));
    assert_eq!(app.user_line(), "> tau <");
}

#[test]
fn password_mask_counts_bytes() {
    let mut app = App::new("tau".to_string(), None);
    assert_eq!(app.password_mask(), "");
    type_text(&mut app, "ab");
    assert_eq!(app.password_mask(), "██");
    type_text(&mut app, "é");
    assert_eq!(app.password_mask(), "████");
}

#[test]
fn clock_keys_undo_each_other() {
    let mut app = App::new("tau".to_string(), None);
    type_text(&mut app, "pw");
    app.handle_key(press(Key::Char('+')));
    app.handle_key(press(Key::Char('-')));
    assert_eq!(app.time_offset_minutes, 0);
    app.handle_key(press(Key::Char(']')));
    app.handle_key(press(Key::Char('[')));
    assert_eq!(app.time_offset_minutes, 0);
    app.handle_key(press(Key::Right));
    app.handle_key(press(Key::Left));
    assert_eq!(app.time_offset_minutes, 0);
    assert_eq!(app.password, "pw");
    assert_eq!(app.username, "tau");
}

#[test]
fn keys_never_unlock_or_change_session() {
    let mut app = App::new("tau".to_string(), Some("sway".to_string()));
    let keys = [
        Key::Char('a'), Key::Enter, Key::Up, Key::Char('b'), Key::Backspace, Key::Down,
        Key::Esc, Key::Left, Key::Other, Key::Char('+'),
    ];
    for k in keys {
        app.handle_key(press(k));
        assert_eq!(app.state, AuthState::Idle);
        assert_eq!(app.session, Some("sway".to_string()));
    }
}
