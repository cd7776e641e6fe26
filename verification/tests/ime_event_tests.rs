use waylandcraft::ime_event::{Commit, DownEvent, FocusChange, PreeditUpdate, UpEvent};
use waylandcraft::keyboard::{KeyState, KeyboardAction, RMLVO};

#[test]
fn preedit_clear_works() {
    let p = PreeditUpdate::clear();
    assert!(p.text.is_empty());
    assert_eq!(p.cursor_begin, 0);
    assert_eq!(p.cursor_end, 0);
}

#[test]
fn preedit_set_works() {
    let p = PreeditUpdate::set("nihao", 0, 2);
    assert_eq!(p.text, "nihao");
    assert_eq!(p.cursor_begin, 0);
    assert_eq!(p.cursor_end, 2);
}

#[test]
fn down_event_equality() {
    let a = DownEvent::State(FocusChange::Activate);
    let b = DownEvent::State(FocusChange::Activate);
    assert_eq!(a, b);
    let c = DownEvent::State(FocusChange::Deactivate);
    assert_ne!(a, c);
}

#[test]
fn up_event_commit_works() {
    let e = UpEvent::Commit(Commit { text: "汉".into() });
    match e {
        UpEvent::Commit(c) => assert_eq!(c.text, "汉"),
        _ => panic!("wrong variant"),
    }
}

#[test]
fn test_keyboard_action_mapping() {
    assert_eq!(KeyboardAction::from_i32(0), Some(KeyboardAction::Release));
    assert_eq!(KeyboardAction::from_i32(1), Some(KeyboardAction::Press));
    assert_eq!(KeyboardAction::from_i32(2), Some(KeyboardAction::Repeat));
    assert_eq!(KeyboardAction::from_i32(99), None);
    assert_eq!(KeyboardAction::from_i32(-1), None);

    assert_eq!(KeyboardAction::Release.key_state(), KeyState::Released);
    assert_eq!(KeyboardAction::Press.key_state(), KeyState::Pressed);
    assert_eq!(KeyboardAction::Repeat.key_state(), KeyState::Pressed);
}

#[test]
fn rmlvo_default_is_empty() {
    let r = RMLVO::default();
    assert!(r.rules.is_empty() && r.model.is_empty() && r.layout.is_empty());
    assert!(r.variant.is_empty() && r.options.is_empty());
}
