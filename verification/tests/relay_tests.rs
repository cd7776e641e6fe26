use waylandcraft::relay::{AppState, ImeCommand, ImeOp, Relay, TiCommand};

#[test]
fn enable_before_ime_defers_activation() {
    let mut r = Relay::new();
    assert!(r.set_app_enabled(true).is_empty());
    assert!(r.app_active());

    let cmds = r.set_ime_present(true);
    assert_eq!(cmds.len(), 1);
    match &cmds[0] {
        ImeCommand::Activate(st) => assert_eq!(st, &AppState::default()),
        other => panic!("expect Activate, got {other:?}"),
    }
}

#[test]
fn disable_discards_pending_and_deactivates() {
    let mut r = Relay::new();
    r.set_app_enabled(true);
    r.set_ime_present(true);

    r.ime_op(ImeOp::Preedit("ni".into(), 0, 2));
    let cmds = r.set_app_enabled(false);
    assert_eq!(cmds, vec![ImeCommand::Deactivate]);

    let fr = r.ime_flush();
    assert!(!fr.applied);
    assert!(fr.commands.is_empty());
}

#[test]
fn serial_accounting_activate_deactivate() {
    let mut r = Relay::new();
    r.set_ime_present(true);
    r.set_app_enabled(true);
    assert_eq!(r.ime_done_count(), 1);
    r.set_app_enabled(false);
    assert_eq!(r.ime_done_count(), 2);
    r.set_app_enabled(true);
    assert_eq!(r.ime_done_count(), 3);

    r.ime_op(ImeOp::CommitString("你好".into()));
    let fr = r.ime_commit(1);
    assert!(!fr.applied);
    r.ime_op(ImeOp::CommitString("你好".into()));
    let fr = r.ime_commit(3);
    assert!(fr.applied);
    assert_eq!(fr.commands, vec![TiCommand::CommitString("你好".into())]);
}

#[test]
fn push_state_advances_serial() {
    let mut r = Relay::new();
    r.set_app_enabled(true);
    r.set_ime_present(true);
    assert_eq!(r.ime_done_count(), 1);

    let st = AppState {
        surrounding_text: "abc".into(),
        surrounding_cursor: 3,
        surrounding_anchor: 3,
        ..Default::default()
    };
    let cmds = r.push_app_state(st.clone());
    assert_eq!(cmds.len(), 1, "a meaningful change is pushed");
    assert_eq!(r.ime_done_count(), 2);

    assert!(r.push_app_state(st).is_empty());
    assert_eq!(r.ime_done_count(), 2);
}

#[test]
fn pinyin_composition_flow() {
    let mut r = Relay::new();
    r.set_ime_present(true);
    r.set_app_enabled(true);

    for s in ["n", "ni", "nih", "niha", "nihao"] {
        r.ime_op(ImeOp::Preedit(s.to_string(), s.len() as i32, s.len() as i32));
        let fr = r.ime_commit(1);
        assert!(fr.applied, "step {s} should apply");
        assert_eq!(fr.commands.len(), 1, "step {s}");
        assert_eq!(fr.commands[0], TiCommand::Preedit(s.to_string(), s.len() as i32, s.len() as i32));
    }

    r.ime_op(ImeOp::Preedit(String::new(), 0, 0));
    r.ime_op(ImeOp::CommitString("你好".into()));
    let fr = r.ime_commit(1);
    assert!(fr.applied);
    assert_eq!(
        fr.commands,
        vec![TiCommand::Preedit(String::new(), 0, 0), TiCommand::CommitString("你好".into())]
    );
}

#[test]
fn delete_then_commit_order_preserved() {
    let mut r = Relay::new();
    r.set_ime_present(true);
    r.set_app_enabled(true);

    r.ime_op(ImeOp::DeleteSurrounding(3, 0));
    r.ime_op(ImeOp::CommitString("你".into()));
    let fr = r.ime_commit(1);
    assert!(fr.applied);
    assert_eq!(
        fr.commands,
        vec![TiCommand::DeleteSurrounding(3, 0), TiCommand::CommitString("你".into())],
        "delete must reach the app before commit"
    );
}

#[test]
fn focus_lost_rejects_late_ops() {
    let mut r = Relay::new();
    r.set_ime_present(true);
    r.set_app_enabled(true);
    let cmds = r.focus_lost();
    assert_eq!(cmds, vec![ImeCommand::Deactivate]);

    r.ime_op(ImeOp::CommitString("迟到的".into()));
    let fr = r.ime_flush();
    assert!(!fr.applied);
}

#[test]
fn ime_restart_resets_serial() {
    let mut r = Relay::new();
    r.set_app_enabled(true);
    r.set_ime_present(true);
    assert_eq!(r.ime_done_count(), 1);

    r.set_ime_present(false);
    r.set_ime_present(true);
    assert_eq!(r.ime_done_count(), 1);

    r.ime_op(ImeOp::CommitString("好".into()));
    assert!(r.ime_commit(1).applied);
}

// ── further scenarios ───────────────────────────────────────────

#[test]
fn stale_serial_discards_whole_batch() {
    let mut r = Relay::new();
    r.set_ime_present(true);
    r.set_app_enabled(true);
    r.ime_op(ImeOp::Preedit("ni".into(), 2, 2));
    r.ime_op(ImeOp::CommitString("你".into()));
    let fr = r.ime_commit(7);
    assert!(!fr.applied);
    assert!(fr.commands.is_empty());
    assert!(!r.ime_flush().applied, "the discarded batch is gone");
}

#[test]
fn enable_twice_sends_one_activate() {
    let mut r = Relay::new();
    r.set_ime_present(true);
    assert_eq!(r.set_app_enabled(true).len(), 1);
    assert!(r.set_app_enabled(true).is_empty());
    assert_eq!(r.ime_done_count(), 1);
}

#[test]
fn from_pending_without_text_is_empty() {
    let st = AppState::from_pending(None, 4, 2, 1, 2, 3, Some((1, 2, 3, 4)));
    assert_eq!(st.surrounding_text, "");
    assert_eq!(st.surrounding_cursor, 4);
    assert_eq!(st.surrounding_anchor, 2);
    assert_eq!(st.content_hint, 1);
    assert_eq!(st.content_purpose, 2);
    assert_eq!(st.change_cause, 3);
    assert_eq!(st.cursor_rect, Some((1, 2, 3, 4)));
    assert!(st.is_meaningful());
    assert!(!AppState::default().is_meaningful());
}

#[test]
fn flush_applies_pending_in_order() {
    let mut r = Relay::new();
    r.set_ime_present(true);
    r.set_app_enabled(true);
    r.ime_op(ImeOp::DeleteSurrounding(1, 1));
    r.ime_op(ImeOp::Preedit("a".into(), 1, 1));
    let fr = r.ime_flush();
    assert!(fr.applied);
    assert_eq!(fr.commands, vec![TiCommand::DeleteSurrounding(1, 1), TiCommand::Preedit("a".into(), 1, 1)]);
    assert_eq!(r.pending_len(), 0);
}

#[test]
fn ime_online_activates_with_the_latest_state_even_without_text() {
    let mut r = Relay::new();
    r.set_app_enabled(true);
    // Only a cursor position: not meaningful, yet it is the latest state.
    let st = AppState::from_pending(None, 3, 3, 0, 0, 0, None);
    assert!(!st.is_meaningful());
    r.push_app_state(st.clone());
    let cmds = r.set_ime_present(true);
    assert_eq!(cmds, vec![ImeCommand::Activate(st)]);
}

#[test]
fn pushed_state_survives_disable_and_restart() {
    let mut r = Relay::new();
    r.set_ime_present(true);
    r.set_app_enabled(true);
    let st = AppState::from_pending(Some("hi"), 2, 2, 0, 0, 0, Some((10, 20, 0, 16)));
    r.push_app_state(st.clone());
    r.set_app_enabled(false);
    r.set_ime_present(false);
    r.set_ime_present(true);
    r.ime_op(ImeOp::CommitString("x".into()));
    r.ime_flush();
    assert_eq!(r.current_state(), &st);
    assert_eq!(r.set_app_enabled(true), vec![ImeCommand::Activate(st.clone())]);
    r.focus_lost();
    assert_eq!(r.current_state(), &AppState::default());
}
