use waylandcraft::ime::{
    lookup_table_to_json, ImeState, ImeStateMachine, LookupTableSnapshot, Ti3Outcome, Ti3Snapshot,
};
use waylandcraft::ime_event::{
    Commit, CursorRect, DeleteSurrounding, DownEvent, Done, FocusChange, LookupTable, PreeditUpdate,
    SurroundingText, UpEvent,
};
use waylandcraft::keyboard::KeyboardAction;

fn snap(text: &str, cursor: u32, anchor: u32, rect: Option<(i32, i32, i32, i32)>) -> Ti3Snapshot {
    Ti3Snapshot { surrounding_text: text.into(), cursor, anchor, cursor_rect: rect }
}

#[test]
fn default_state_has_no_active_no_focus() {
    let ime = ImeState::default();
    assert!(!ime.app_active());
    assert!(!ime.keyboard_grabbed());
    assert!(!ime.has_focus());
}

#[test]
fn set_focus_then_clear_focus() {
    let mut ime = ImeState::default();
    ime.set_focus();
    ime.apply_ti3_outcome(Ti3Outcome::Enabled(snap("", 0, 0, None)), false);
    assert!(ime.app_active());
    let evs = ime.clear_focus(false, false);
    assert!(evs.is_empty());
    assert!(!ime.app_active(), "clear_focus resets app_active");
    assert!(!ime.has_focus());
}

#[test]
fn clear_focus_deactivates_a_ready_bridge() {
    let mut ime = ImeState::default();
    ime.set_focus();
    assert_eq!(ime.clear_focus(true, true), vec![DownEvent::State(FocusChange::Deactivate)]);
    assert!(ime.clear_focus(true, false).is_empty());
    assert!(ime.clear_focus(false, true).is_empty());
}

#[test]
fn take_lookup_table_returns_and_clears() {
    let mut ime = ImeState::default();
    ime.set_lookup_table(LookupTableSnapshot {
        candidates: vec!["一".into()],
        labels: vec!["1.".into()],
        cursor_pos: 0,
        cursor_visible: true,
        page_size: 9,
        orientation: 0,
        visible: true,
    });
    let snap = ime.take_lookup_table().expect("a snapshot is there");
    assert_eq!(snap.candidates, vec!["一".to_string()]);
    assert!(ime.take_lookup_table().is_none(), "take clears it");
}

#[test]
fn lookup_table_snapshot_default_is_empty() {
    let snap = LookupTableSnapshot::default();
    assert!(snap.candidates.is_empty());
    assert!(!snap.visible);
}

#[test]
fn ti3_outcome_enabled_marks_app_active() {
    let mut ime = ImeState::default();
    let evs = ime.apply_ti3_outcome(Ti3Outcome::Enabled(snap("hello", 5, 5, Some((10, 20, 30, 40)))), false);
    assert!(ime.app_active());
    assert!(evs.is_empty(), "no bridge, nothing to send");
}

#[test]
fn ti3_outcome_enabled_tells_a_ready_bridge() {
    let mut ime = ImeState::default();
    let evs = ime.apply_ti3_outcome(Ti3Outcome::Enabled(snap("hello", 5, 5, Some((10, 20, 30, 40)))), true);
    assert_eq!(
        evs,
        vec![
            DownEvent::State(FocusChange::Activate),
            DownEvent::Surrounding(SurroundingText { text: "hello".into(), cursor: 5, anchor: 5 }),
            DownEvent::CursorRect(CursorRect { x: 10, y: 20, w: 30, h: 40 }),
        ]
    );
    let empty = ime.apply_ti3_outcome(Ti3Outcome::State(snap("", 0, 0, None)), true);
    assert!(empty.is_empty(), "no text, no selection, no rectangle: nothing to send");
    let sel = ime.apply_ti3_outcome(Ti3Outcome::State(snap("", 1, 0, None)), true);
    assert_eq!(sel, vec![DownEvent::Surrounding(SurroundingText { text: String::new(), cursor: 1, anchor: 0 })]);
}

#[test]
fn ti3_outcome_disabled_clears_app_active() {
    let mut ime = ImeState::default();
    ime.apply_ti3_outcome(Ti3Outcome::Enabled(snap("", 0, 0, None)), false);
    let evs = ime.apply_ti3_outcome(Ti3Outcome::Disabled, true);
    assert!(!ime.app_active());
    assert_eq!(evs, vec![DownEvent::State(FocusChange::Deactivate)]);
}

#[test]
fn ti3_outcome_ignored_is_noop() {
    let mut ime = ImeState::default();
    let before = ime.app_active();
    assert!(ime.apply_ti3_outcome(Ti3Outcome::Ignored, true).is_empty());
    assert!(ime.apply_ti3_outcome(Ti3Outcome::DisabledInactive, true).is_empty());
    assert_eq!(ime.app_active(), before);
}

#[test]
fn ti3_outcome_state_no_host_bridge_does_not_panic() {
    let mut ime = ImeState::default();
    let evs = ime.apply_ti3_outcome(Ti3Outcome::State(snap("abc", 3, 3, None)), false);
    assert!(evs.is_empty());
}

#[test]
fn im2_grab_state_tracking() {
    let mut ime = ImeState::default();
    assert!(!ime.keyboard_grabbed());
    ime.note_im2_grab();
    assert!(ime.keyboard_grabbed());
    ime.note_im2_release();
    assert!(!ime.keyboard_grabbed());
}

#[test]
fn apply_up_events_records_lookup_table() {
    let mut ime = ImeState::default();
    ime.apply_up_events(vec![UpEvent::LookupTable(LookupTable {
        candidates: vec!["候选1".into(), "候选2".into()],
        labels: vec![],
        cursor_pos: 0,
        cursor_visible: true,
        page_size: 9,
        orientation: 0,
        visible: true,
    })]);
    let snap = ime.take_lookup_table().expect("a candidate window");
    assert_eq!(snap.candidates.len(), 2);
}

#[test]
fn apply_up_events_done_no_panic_without_ti3() {
    let mut ime = ImeState::default();
    let d = ime.apply_up_events(vec![UpEvent::Commit(Commit { text: "你".into() }), UpEvent::Done(Done { batch_id: 1 })]);
    assert_eq!(d.commit.as_deref(), Some("你"));
}

#[test]
fn apply_up_events_keeps_the_last_of_each_kind() {
    let mut ime = ImeState::default();
    let d = ime.apply_up_events(vec![
        UpEvent::Preedit(PreeditUpdate::set("n", 1, 1)),
        UpEvent::DeleteSurrounding(DeleteSurrounding { before_length: 1, after_length: 0 }),
        UpEvent::Commit(Commit { text: "一".into() }),
        UpEvent::Preedit(PreeditUpdate::clear()),
        UpEvent::Commit(Commit { text: "二".into() }),
        UpEvent::Done(Done { batch_id: 2 }),
    ]);
    assert_eq!(d.preedit, Some((None, 0, 0)), "an empty preedit is delivered as none");
    assert_eq!(d.delete, Some((1, 0)));
    assert_eq!(d.commit.as_deref(), Some("二"));
    assert!(ime.take_lookup_table().is_none(), "no candidate window in the batch");

    let d = ime.apply_up_events(vec![UpEvent::Preedit(PreeditUpdate::set("ni", 0, 2))]);
    assert_eq!(d.preedit, Some((Some("ni".to_string()), 0, 2)));
    assert_eq!(d.delete, None);
    assert_eq!(d.commit, None);
}

#[test]
fn handle_key_returns_false_in_v010() {
    let mut ime = ImeState::default();
    let handled = ime.handle_key(30, KeyboardAction::Press, (0, 0, 0, 0));
    assert!(!handled, "keys are not consumed here");
}

#[test]
fn state_machine_default_is_disconnected() {
    let m = ImeStateMachine::default();
    assert_eq!(m, ImeStateMachine::Disconnected);
}

#[test]
fn state_machine_transition_records_change() {
    let mut m = ImeStateMachine::default();
    m.transition(ImeStateMachine::Connecting);
    assert_eq!(m, ImeStateMachine::Connecting);
    m.transition(ImeStateMachine::Connected);
    assert_eq!(m, ImeStateMachine::Connected);
    m.transition(ImeStateMachine::Focused);
    assert_eq!(m, ImeStateMachine::Focused);
}

#[test]
fn state_machine_same_state_no_change() {
    let mut m = ImeStateMachine::Idle;
    m.transition(ImeStateMachine::Idle);
    assert_eq!(m, ImeStateMachine::Idle);
}

#[test]
fn state_machine_composing_flow() {
    let mut m = ImeStateMachine::Idle;
    m.transition(ImeStateMachine::Composing);
    m.transition(ImeStateMachine::Candidate);
    m.transition(ImeStateMachine::Idle);
    assert_eq!(m, ImeStateMachine::Idle);
}

#[test]
fn state_machine_error_recovery() {
    let mut m = ImeStateMachine::Focused;
    m.transition(ImeStateMachine::Error);
    m.transition(ImeStateMachine::Recovering);
    m.transition(ImeStateMachine::Connected);
    assert_eq!(m, ImeStateMachine::Connected);
}

#[test]
fn state_machine_transition_gives_log_line() {
    let mut m = ImeStateMachine::Disconnected;
    assert_eq!(m.transition(ImeStateMachine::Connecting), Some("IME_STATE: Disconnected -> Connecting".to_string()));
    assert_eq!(m.transition(ImeStateMachine::Connecting), None);
    m = ImeStateMachine::Error;
    assert_eq!(m.transition(ImeStateMachine::Recovering), Some("IME_STATE: Error -> Recovering".to_string()));
    assert_eq!(m.state_name(), "Recovering");
}

#[test]
fn ime_state_has_state_field() {
    let ime = ImeState::default();
    assert_eq!(ime.state(), ImeStateMachine::Disconnected);
}

#[test]
fn lookup_table_json_is_compact_and_escaped() {
    let lt = LookupTableSnapshot {
        candidates: vec!["你".into(), "a\"b".into()],
        labels: vec!["1".into()],
        cursor_pos: 1,
        cursor_visible: true,
        page_size: 9,
        orientation: 2,
        visible: true,
    };
    assert_eq!(
        lookup_table_to_json(&lt),
        "{\"visible\":true,\"cursor\":1,\"page_size\":9,\"orientation\":2,\"candidates\":[\"你\",\"a\\\"b\"],\"labels\":[\"1\"]}"
    );
    assert_eq!(
        lookup_table_to_json(&LookupTableSnapshot::default()),
        "{\"visible\":false,\"cursor\":0,\"page_size\":0,\"orientation\":0,\"candidates\":[],\"labels\":[]}"
    );
}
