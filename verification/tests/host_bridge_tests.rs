use std::sync::mpsc;

use waylandcraft::dbus_value::DbusValue;
use waylandcraft::host_bridge::dbus_fcitx5::{self as fcitx5, DbusFcitx5Bridge};
use waylandcraft::host_bridge::dbus_ibus::{plan_worker_calls, DbusIbusBridge, FromWorker, IcCall, ToWorker};
use waylandcraft::host_bridge::fcitx5_signal::handle_signal as fcitx5_signal;
use waylandcraft::host_bridge::ibus_signal::{extract_ibustext, extract_lookup_table, handle_signal};
use waylandcraft::host_bridge::{
    classify_fcitx5_init_error, classify_init_error, ping_failure, BridgeInit, HostBridge, HostBridgeHandle,
};
use waylandcraft::ime_event::{CursorRect, DownEvent, FocusChange, KeyEvent, SurroundingText, UpEvent};
use waylandcraft::keyboard::KeyboardAction;

fn send_preedit_or_commit(ev_tx: &mpsc::Sender<FromWorker>, text: &str, is_preedit: bool, is_commit: bool) {
    if is_preedit {
        let _ = ev_tx.send(FromWorker::Preedit {
            text: text.to_string(),
            cursor_begin: text.chars().count() as i32,
            cursor_end: text.chars().count() as i32,
            clear: text.is_empty(),
        });
    }
    if is_commit {
        let _ = ev_tx.send(FromWorker::Commit(text.to_string()));
    }
}

fn send_done(ev_tx: &mpsc::Sender<FromWorker>) {
    let _ = ev_tx.send(FromWorker::Done(0));
}

fn ibus_handle() -> (HostBridgeHandle<DbusIbusBridge>, mpsc::Receiver<ToWorker>, mpsc::Sender<FromWorker>) {
    let (cmd_tx, cmd_rx) = mpsc::channel();
    let (ev_tx, ev_rx) = mpsc::channel();
    let inner = Box::new(DbusIbusBridge::from_channels(cmd_tx, ev_rx));
    (HostBridgeHandle::new(inner), cmd_rx, ev_tx)
}

#[test]
fn take_up_events_batched_groups_by_done() {
    let (mut h, _cmd_rx, ev_tx) = ibus_handle();
    send_preedit_or_commit(&ev_tx, "年", true, false);
    send_done(&ev_tx);
    send_preedit_or_commit(&ev_tx, "你", false, true);
    send_done(&ev_tx);

    let batches = h.take_up_events_batched();
    assert_eq!(batches.len(), 2);
    assert_eq!(batches[0].len(), 2);
    assert_eq!(batches[1].len(), 2);
}

#[test]
fn batched_handles_no_done() {
    let (mut h, _cmd_rx, ev_tx) = ibus_handle();
    send_preedit_or_commit(&ev_tx, "你", false, true);

    let batches = h.take_up_events_batched();
    assert_eq!(batches.len(), 1);
    assert_eq!(batches[0].len(), 1);
}

#[test]
fn empty_handle_returns_empty_batches() {
    let (mut h, _cmd_rx, _ev_tx) = ibus_handle();
    assert!(h.take_up_events_batched().is_empty());
}

#[test]
fn submit_propagates_to_all_event_types() {
    let (mut h, cmd_rx, _ev_tx) = ibus_handle();

    h.submit(DownEvent::State(FocusChange::Activate));
    h.submit(DownEvent::Key(KeyEvent { keycode: 31, action: KeyboardAction::Press, mods: (0, 0, 0, 0) }));
    h.submit(DownEvent::Surrounding(SurroundingText { text: "abc".into(), cursor: 3, anchor: 3 }));
    h.submit(DownEvent::CursorRect(CursorRect { x: 1, y: 2, w: 3, h: 4 }));
    h.submit(DownEvent::State(FocusChange::Deactivate));

    let first_cmd = cmd_rx.try_recv().unwrap();
    assert!(matches!(first_cmd, ToWorker::FocusIn), "expected FocusIn, got {first_cmd:?}");
    let _ = cmd_rx.try_recv().unwrap();
    let _ = cmd_rx.try_recv().unwrap();
    let _ = cmd_rx.try_recv().unwrap();
    let _ = cmd_rx.try_recv().unwrap();
}

#[test]
fn commit_text_v010_skip_first_string() {
    let fields: Vec<String> = vec!["IBusText".to_string(), "你".to_string()];
    let text = fields.into_iter().find(|s| s != "IBusText" && !s.is_empty()).unwrap_or_default();
    assert_eq!(text, "你", "the GObject type name must be skipped");
}

#[test]
fn preedit_v010_skip_first_string() {
    let all_strs: Vec<String> = vec!["IBusText".to_string(), "年".to_string()];
    let text = all_strs.into_iter().find(|s| s != "IBusText" && !s.is_empty()).unwrap_or_default();
    assert_eq!(text, "年");
}

#[test]
fn lookup_table_v010_skip_type_names() {
    let all_strs: Vec<String> =
        vec!["IBusLookupTable".to_string(), "IBusText".to_string(), "候选1".to_string(), "候选2".to_string()];
    let candidates: Vec<String> =
        all_strs.into_iter().filter(|s| s != "IBusLookupTable" && s != "IBusText" && !s.is_empty()).collect();
    assert_eq!(candidates, vec!["候选1", "候选2"]);
}

// ── ibus bridge ─────────────────────────────────────────────────

#[test]
fn name_is_dbus_ibus() {
    let (cmd_tx, _cmd_rx) = mpsc::channel();
    let (_ev_tx, ev_rx) = mpsc::channel();
    let b = DbusIbusBridge::from_channels(cmd_tx, ev_rx);
    assert_eq!(b.name(), "dbus-ibus");
}

#[test]
fn fresh_bridge_is_ready_not_dead() {
    let (cmd_tx, _cmd_rx) = mpsc::channel();
    let (_ev_tx, ev_rx) = mpsc::channel();
    let b = DbusIbusBridge::from_channels(cmd_tx, ev_rx);
    assert!(b.is_ready());
    assert!(!b.is_dead());
}

#[test]
fn submit_state_passes_through() {
    let (cmd_tx, cmd_rx) = mpsc::channel();
    let (_ev_tx, ev_rx) = mpsc::channel();
    let mut b = DbusIbusBridge::from_channels(cmd_tx, ev_rx);
    b.submit(DownEvent::State(FocusChange::Activate));
    match cmd_rx.recv().unwrap() {
        ToWorker::FocusIn => {}
        other => panic!("expected FocusIn, got {other:?}"),
    }
}

#[test]
fn submit_surrounding_passes_text_and_cursor() {
    let (cmd_tx, cmd_rx) = mpsc::channel();
    let (_ev_tx, ev_rx) = mpsc::channel();
    let mut b = DbusIbusBridge::from_channels(cmd_tx, ev_rx);
    b.submit(DownEvent::Surrounding(SurroundingText { text: "hello".into(), cursor: 5, anchor: 5 }));
    match cmd_rx.recv().unwrap() {
        ToWorker::SetSurroundingText { text, cursor_pos, anchor_pos } => {
            assert_eq!(text, "hello");
            assert_eq!(cursor_pos, 5);
            assert_eq!(anchor_pos, 5);
        }
        other => panic!("expected SetSurroundingText, got {other:?}"),
    }
}

#[test]
fn submit_cursor_rect_passes() {
    let (cmd_tx, cmd_rx) = mpsc::channel();
    let (_ev_tx, ev_rx) = mpsc::channel();
    let mut b = DbusIbusBridge::from_channels(cmd_tx, ev_rx);
    b.submit(DownEvent::CursorRect(CursorRect { x: 100, y: 200, w: 10, h: 20 }));
    match cmd_rx.recv().unwrap() {
        ToWorker::SetCursorLocationRelative { x, y, w, h } => {
            assert_eq!((x, y, w, h), (100, 200, 10, 20));
        }
        other => panic!("expected SetCursorLocationRelative, got {other:?}"),
    }
}

#[test]
fn dbus_ibus_take_up_drains_commit() {
    let (cmd_tx, _cmd_rx) = mpsc::channel();
    let (ev_tx, ev_rx) = mpsc::channel();
    let mut b = DbusIbusBridge::from_channels(cmd_tx, ev_rx);
    ev_tx.send(FromWorker::Commit("你".into())).unwrap();
    ev_tx.send(FromWorker::Done(0)).unwrap();
    let events = b.take_up_events();
    assert_eq!(events.len(), 2);
    match &events[0] {
        UpEvent::Commit(c) => assert_eq!(c.text, "你"),
        _ => panic!("expected Commit, got {:?}", events[0]),
    }
    match &events[1] {
        UpEvent::Done(d) => assert!(d.batch_id > 0),
        _ => panic!("expected Done, got {:?}", events[1]),
    }
}

#[test]
fn take_up_drains_preedit_clear() {
    let (cmd_tx, _cmd_rx) = mpsc::channel();
    let (ev_tx, ev_rx) = mpsc::channel();
    let mut b = DbusIbusBridge::from_channels(cmd_tx, ev_rx);
    ev_tx.send(FromWorker::Preedit { text: String::new(), cursor_begin: 0, cursor_end: 0, clear: true }).unwrap();
    ev_tx.send(FromWorker::Done(0)).unwrap();
    let events = b.take_up_events();
    assert_eq!(events.len(), 2);
    match &events[0] {
        UpEvent::Preedit(p) => assert!(p.text.is_empty()),
        _ => panic!(),
    }
}

#[test]
fn take_up_drains_lookup() {
    let (cmd_tx, _cmd_rx) = mpsc::channel();
    let (ev_tx, ev_rx) = mpsc::channel();
    let mut b = DbusIbusBridge::from_channels(cmd_tx, ev_rx);
    ev_tx
        .send(FromWorker::LookupTable {
            candidates: vec!["一".into(), "二".into()],
            labels: Vec::new(),
            cursor_pos: 0,
            cursor_visible: true,
            page_size: 9,
            orientation: 0,
            visible: true,
        })
        .unwrap();
    ev_tx.send(FromWorker::Done(0)).unwrap();
    let events = b.take_up_events();
    assert_eq!(events.len(), 2);
    match &events[0] {
        UpEvent::LookupTable(lt) => {
            assert_eq!(lt.candidates, vec!["一", "二"]);
            assert!(lt.visible);
        }
        _ => panic!(),
    }
}

#[test]
fn take_up_returns_empty_when_no_events() {
    let (cmd_tx, _cmd_rx) = mpsc::channel();
    let (_ev_tx, ev_rx) = mpsc::channel();
    let mut b = DbusIbusBridge::from_channels(cmd_tx, ev_rx);
    assert!(b.take_up_events().is_empty());
}

#[test]
fn dead_bridge_drops_submit() {
    let (cmd_tx, cmd_rx) = mpsc::channel();
    let (_ev_tx, ev_rx) = mpsc::channel();
    let mut b = DbusIbusBridge::from_channels(cmd_tx, ev_rx);
    b.mark_dead("test".into());
    b.submit(DownEvent::State(FocusChange::Activate));
    assert!(!b.is_ready());
    assert!(cmd_rx.try_recv().is_err(), "a dead bridge sends nothing");
}

fn s(t: &str) -> DbusValue {
    DbusValue::Str(t.to_string())
}

fn st(fields: Vec<DbusValue>) -> DbusValue {
    DbusValue::Structure(fields)
}

fn var(v: DbusValue) -> DbusValue {
    DbusValue::Value(Box::new(v))
}

#[test]
fn extract_ibustext_skips_type_name_and_dict() {
    let v = st(vec![s("IBusText"), s("你"), s("IBusAttrList")]);
    assert_eq!(extract_ibustext(&v), "你");
}

#[test]
fn extract_ibustext_recursive_variant_wrap() {
    let inner = st(vec![s("IBusText"), s("你好")]);
    assert_eq!(extract_ibustext(&inner), "你好");
}

#[test]
fn extract_ibustext_empty_when_no_content() {
    let v = st(vec![s("IBusText")]);
    assert_eq!(extract_ibustext(&v), "");
}

// ── signal translation ──────────────────────────────────────────

fn ibus_text(t: &str) -> DbusValue {
    st(vec![s("IBusText"), DbusValue::Dict, s(t), var(st(vec![s("IBusAttrList"), DbusValue::Dict]))])
}

#[test]
fn commit_text_signal_gives_commit_then_done() {
    let msgs = handle_signal("CommitText", &[var(ibus_text("你好"))]).unwrap();
    assert_eq!(msgs.len(), 2);
    assert!(matches!(&msgs[0], FromWorker::Commit(t) if t == "你好"));
    assert!(matches!(&msgs[1], FromWorker::Done(0)));
}

#[test]
fn commit_text_with_wrong_body_commits_nothing_visible() {
    let msgs = handle_signal("CommitText", &[s("你好")]).unwrap();
    assert!(matches!(&msgs[0], FromWorker::Commit(t) if t.is_empty()));
}

#[test]
fn preedit_signal_reads_text_and_cursor() {
    let msgs =
        handle_signal("UpdatePreeditText", &[var(ibus_text("ni")), DbusValue::U32(2), DbusValue::Bool(true)]).unwrap();
    match &msgs[0] {
        FromWorker::Preedit { text, cursor_begin, cursor_end, clear } => {
            assert_eq!(text, "ni");
            assert_eq!((*cursor_begin, *cursor_end, *clear), (2, 2, false));
        }
        _ => panic!("expected Preedit"),
    }
    let with_mode = handle_signal(
        "UpdatePreeditTextWithMode",
        &[var(ibus_text("nih")), DbusValue::U32(3), DbusValue::Bool(true), DbusValue::U32(0)],
    )
    .unwrap();
    assert!(matches!(&with_mode[0], FromWorker::Preedit { text, cursor_begin: 3, .. } if text == "nih"));
}

#[test]
fn hide_preedit_clears() {
    let msgs = handle_signal("HidePreeditText", &[]).unwrap();
    assert!(matches!(&msgs[0], FromWorker::Preedit { clear: true, .. }));
    assert!(matches!(&msgs[1], FromWorker::Done(0)));
}

#[test]
fn delete_surrounding_offset_sign_picks_side() {
    let before = handle_signal("DeleteSurroundingText", &[DbusValue::I32(-2), DbusValue::U32(2)]).unwrap();
    assert!(matches!(&before[0], FromWorker::DeleteSurrounding { before: 2, after: 0 }));
    let after = handle_signal("DeleteSurroundingText", &[DbusValue::I32(3), DbusValue::U32(3)]).unwrap();
    assert!(matches!(&after[0], FromWorker::DeleteSurrounding { before: 0, after: 3 }));
    let most = handle_signal("DeleteSurroundingText", &[DbusValue::I32(i32::MIN), DbusValue::U32(0)]).unwrap();
    assert!(matches!(&most[0], FromWorker::DeleteSurrounding { before: 2147483648, after: 0 }));
}

#[test]
fn lookup_table_signal_reads_candidates_and_cursor() {
    let table = st(vec![
        s("IBusLookupTable"),
        DbusValue::Dict,
        DbusValue::U32(5),
        DbusValue::U32(1),
        DbusValue::Bool(true),
        DbusValue::Bool(false),
        DbusValue::I32(0),
        DbusValue::Array(vec![ibus_text("你"), ibus_text("泥")]),
    ]);
    let (cands, cursor) = extract_lookup_table(&table).unwrap();
    assert_eq!(cands, vec!["你", "泥"]);
    assert_eq!(cursor, 1);
    let msgs = handle_signal("UpdateLookupTable", &[var(table), DbusValue::Bool(true)]).unwrap();
    match &msgs[0] {
        FromWorker::LookupTable { candidates, labels, cursor_pos, page_size, visible, .. } => {
            assert_eq!(candidates, &vec!["你".to_string(), "泥".to_string()]);
            assert!(labels.is_empty());
            assert_eq!((*cursor_pos, *page_size, *visible), (1, 2, true));
        }
        _ => panic!("expected LookupTable"),
    }
}

#[test]
fn lookup_table_falls_back_to_nested_candidates() {
    let nested = st(vec![s("IBusLookupTable"), st(vec![DbusValue::Array(vec![ibus_text("深")])])]);
    let (cands, cursor) = extract_lookup_table(&nested).unwrap();
    assert_eq!(cands, vec!["深"]);
    assert_eq!(cursor, 0);
    assert!(extract_lookup_table(&s("x")).is_none());
    assert!(extract_lookup_table(&st(vec![])).is_none());
}

#[test]
fn forward_key_signal_has_no_done() {
    let msgs =
        handle_signal("ForwardKeyEvent", &[DbusValue::U32(0x61), DbusValue::U32(30), DbusValue::U32(0x4000_0000)])
            .unwrap();
    assert_eq!(msgs.len(), 1);
    assert!(matches!(&msgs[0], FromWorker::ForwardKey { keycode: 30, is_release: true }));
}

#[test]
fn ignored_and_unknown_signals() {
    assert!(handle_signal("RegisterProperties", &[]).unwrap().is_empty());
    match handle_signal("Bogus", &[]) {
        Err(e) => assert_eq!(e, "unknown signal Bogus"),
        Ok(_) => panic!("unknown signal must be refused"),
    }
}

#[test]
fn init_errors_are_classified() {
    assert!(matches!(classify_init_error::<()>("org.freedesktop.DBus.Error.UnknownMethod: x"), BridgeInit::Unsupported(m) if m.contains("UnknownMethod")));
    assert!(matches!(classify_init_error::<()>("timeout"), BridgeInit::Transient(m) if m == "timeout"));
    assert!(matches!(classify_fcitx5_init_error::<()>("ServiceUnknown"), BridgeInit::Transient(_)));
    assert!(matches!(classify_fcitx5_init_error::<()>("UnknownObject"), BridgeInit::Unsupported(_)));
    assert!(matches!(ping_failure::<()>("n", "ServiceUnknown"), BridgeInit::Unsupported(m) if m == "n: no owner 且无 activation service（ServiceUnknown）"));
    assert!(matches!(ping_failure::<()>("n", "busy"), BridgeInit::Transient(m) if m == "n: activation pending（busy）"));
}

// ── fcitx5 bridge ───────────────────────────────────────────────

#[test]
fn name_is_dbus_fcitx5() {
    let (cmd_tx, _cmd_rx) = mpsc::channel();
    let (_ev_tx, ev_rx) = mpsc::channel();
    let b = DbusFcitx5Bridge::from_channels(cmd_tx, ev_rx);
    assert_eq!(b.name(), "dbus-fcitx5");
}

#[test]
fn fresh_bridge_is_ready() {
    let (cmd_tx, _cmd_rx) = mpsc::channel();
    let (_ev_tx, ev_rx) = mpsc::channel();
    let b = DbusFcitx5Bridge::from_channels(cmd_tx, ev_rx);
    assert!(b.is_ready());
    assert!(!b.is_dead());
}

#[test]
fn submit_focus_in() {
    let (cmd_tx, cmd_rx) = mpsc::channel();
    let (_ev_tx, ev_rx) = mpsc::channel();
    let mut b = DbusFcitx5Bridge::from_channels(cmd_tx, ev_rx);
    b.submit(DownEvent::State(FocusChange::Activate));
    match cmd_rx.recv().unwrap() {
        fcitx5::ToWorker::FocusIn => {}
        other => panic!("expected FocusIn, got {other:?}"),
    }
}

#[test]
fn submit_process_key() {
    let (cmd_tx, cmd_rx) = mpsc::channel();
    let (_ev_tx, ev_rx) = mpsc::channel();
    let mut b = DbusFcitx5Bridge::from_channels(cmd_tx, ev_rx);
    b.submit(DownEvent::Key(KeyEvent { keycode: 31, action: KeyboardAction::Press, mods: (0, 0, 0, 0) }));
    match cmd_rx.recv().unwrap() {
        fcitx5::ToWorker::ProcessKey { evdev, release, .. } => {
            assert_eq!(evdev, 23);
            assert!(!release);
        }
        other => panic!("expected ProcessKey, got {other:?}"),
    }
}

#[test]
fn dbus_fcitx5_take_up_drains_commit() {
    let (cmd_tx, _cmd_rx) = mpsc::channel();
    let (ev_tx, ev_rx) = mpsc::channel();
    let mut b = DbusFcitx5Bridge::from_channels(cmd_tx, ev_rx);
    ev_tx.send(fcitx5::FromWorker::Commit("好".into())).unwrap();
    ev_tx.send(fcitx5::FromWorker::Done).unwrap();
    let events = b.take_up_events();
    assert_eq!(events.len(), 2);
    match &events[0] {
        UpEvent::Commit(c) => assert_eq!(c.text, "好"),
        _ => panic!(),
    }
}

#[test]
fn take_up_drains_preedit_set() {
    let (cmd_tx, _cmd_rx) = mpsc::channel();
    let (ev_tx, ev_rx) = mpsc::channel();
    let mut b = DbusFcitx5Bridge::from_channels(cmd_tx, ev_rx);
    ev_tx.send(fcitx5::FromWorker::Preedit { text: "年".into(), cursor: 1 }).unwrap();
    ev_tx.send(fcitx5::FromWorker::Done).unwrap();
    let events = b.take_up_events();
    match &events[0] {
        UpEvent::Preedit(p) => {
            assert_eq!(p.text, "年");
            assert_eq!(p.cursor_begin, 1);
        }
        _ => panic!(),
    }
}

#[test]
fn fcitx5_signals_read_top_level_fields() {
    let commit = fcitx5_signal("CommitString", &[s("好")]);
    assert!(matches!(&commit[0], fcitx5::FromWorker::Commit(t) if t == "好"));
    assert!(matches!(&commit[1], fcitx5::FromWorker::Done));

    let pre = fcitx5_signal("UpdateFormattedPreedit", &[s("ni"), s("hao"), DbusValue::I32(5)]);
    assert!(matches!(&pre[0], fcitx5::FromWorker::Preedit { text, cursor: 5 } if text == "nihao"));

    let items: Vec<DbusValue> = (0..12).map(|i| s(&format!("c{i}"))).collect();
    let ui = fcitx5_signal("UpdateClientSideUI", &[DbusValue::Array(items), DbusValue::Bool(true)]);
    match &ui[0] {
        fcitx5::FromWorker::LookupTable { candidates, cursor_pos, visible } => {
            assert_eq!(candidates.len(), 10, "at most ten candidates");
            assert_eq!(candidates[9], "c9");
            assert_eq!((*cursor_pos, *visible), (0, true));
        }
        _ => panic!("expected LookupTable"),
    }

    let del = fcitx5_signal("DeleteSurroundingText", &[DbusValue::I32(-4), DbusValue::U32(2)]);
    assert!(matches!(&del[0], fcitx5::FromWorker::DeleteSurrounding { before: 0, after: 2 }));
    assert!(fcitx5_signal("CommitString", &[]).is_empty());
    assert!(fcitx5_signal("ForwardKey", &[DbusValue::U32(1)]).is_empty());
}

#[test]
fn cursor_rect_report_reaches_both_workers() {
    let (cmd_tx, cmd_rx) = mpsc::channel();
    let (_ev_tx, ev_rx) = mpsc::channel();
    let mut b = DbusIbusBridge::from_channels(cmd_tx, ev_rx);
    b.update_cursor_rect(CursorRect { x: 1, y: 2, w: 3, h: 4 });
    assert!(matches!(cmd_rx.try_recv().unwrap(), ToWorker::SetCursorLocationRelative { x: 1, y: 2, w: 3, h: 4 }));

    let (cmd_tx, cmd_rx) = mpsc::channel();
    let (_ev_tx, ev_rx) = mpsc::channel();
    let mut f = DbusFcitx5Bridge::from_channels(cmd_tx, ev_rx);
    f.update_cursor_rect(CursorRect { x: 5, y: 6, w: 7, h: 8 });
    assert!(matches!(cmd_rx.try_recv().unwrap(), fcitx5::ToWorker::SetCursorRect { x: 5, y: 6, w: 7, h: 8 }));
}

#[test]
fn submit_to_a_gone_worker_marks_the_bridge_dead() {
    let (cmd_tx, cmd_rx) = mpsc::channel();
    let (_ev_tx, ev_rx) = mpsc::channel();
    drop(cmd_rx);
    let mut h = HostBridgeHandle::new(Box::new(DbusIbusBridge::from_channels(cmd_tx, ev_rx)));
    h.update_cursor_rect(CursorRect { x: 0, y: 0, w: 1, h: 1 });
    assert!(!h.is_dead());
    h.submit(DownEvent::State(FocusChange::Activate));
    assert!(h.is_dead());

    let (cmd_tx, cmd_rx) = mpsc::channel();
    let (_ev_tx, ev_rx) = mpsc::channel();
    drop(cmd_rx);
    let mut f = DbusFcitx5Bridge::from_channels(cmd_tx, ev_rx);
    f.submit(DownEvent::State(FocusChange::Deactivate));
    assert!(f.is_dead());
}

#[test]
fn fatal_in_drain_marks_bridge_dead_and_stops() {
    let (cmd_tx, _cmd_rx) = mpsc::channel();
    let (ev_tx, ev_rx) = mpsc::channel();
    let mut b = DbusIbusBridge::from_channels(cmd_tx, ev_rx);
    ev_tx.send(FromWorker::Commit("a".into())).unwrap();
    ev_tx.send(FromWorker::Fatal("bus gone".into())).unwrap();
    ev_tx.send(FromWorker::Commit("b".into())).unwrap();
    let evs = b.take_up_events();
    assert_eq!(evs.len(), 1);
    assert!(matches!(&evs[0], UpEvent::Commit(c) if c.text == "a"));
    assert!(b.is_dead());
    assert!(!b.is_ready());
    assert!(b.take_up_events().is_empty(), "a dead bridge reads nothing");
}

#[test]
fn closed_event_channel_marks_bridge_dead() {
    let (cmd_tx, _cmd_rx) = mpsc::channel();
    let (ev_tx, ev_rx) = mpsc::channel();
    let mut b = DbusIbusBridge::from_channels(cmd_tx, ev_rx);
    ev_tx.send(FromWorker::Done(0)).unwrap();
    drop(ev_tx);
    let evs = b.take_up_events();
    assert_eq!(evs.len(), 1);
    assert!(matches!(&evs[0], UpEvent::Done(d) if d.batch_id == 1));
    assert!(b.is_dead());
}

#[test]
fn fcitx5_fatal_marks_bridge_dead() {
    let (cmd_tx, _cmd_rx) = mpsc::channel();
    let (ev_tx, ev_rx) = mpsc::channel();
    let mut b = DbusFcitx5Bridge::from_channels(cmd_tx, ev_rx);
    ev_tx.send(fcitx5::FromWorker::Done).unwrap();
    ev_tx.send(fcitx5::FromWorker::Fatal("gone".into())).unwrap();
    let evs = b.take_up_events();
    assert_eq!(evs.len(), 1);
    assert!(b.is_dead());
    assert!(!b.is_ready());
}

#[test]
fn first_focus_in_attaches_the_engine_once() {
    let mut set = false;
    let engine = Some("libpinyin".to_string());
    let calls = plan_worker_calls(&mut set, &engine, ToWorker::FocusIn);
    assert_eq!(calls.len(), 3);
    assert!(matches!(&calls[0], IcCall::SetEngine(e) if e == "libpinyin"));
    assert!(matches!(calls[1], IcCall::GetEngine));
    assert!(matches!(calls[2], IcCall::FocusIn));
    assert!(set);
    let calls = plan_worker_calls(&mut set, &engine, ToWorker::FocusIn);
    assert_eq!(calls.len(), 1);
    assert!(matches!(calls[0], IcCall::FocusIn));
    let calls = plan_worker_calls(
        &mut set,
        &engine,
        ToWorker::SetSurroundingText { text: "x".into(), cursor_pos: 1, anchor_pos: 1 },
    );
    assert!(calls.is_empty(), "surrounding text is not passed on");
    let mut unset = false;
    let calls = plan_worker_calls(&mut unset, &None, ToWorker::ProcessKey { keysym: 0, evdev: 30, state: 0 });
    assert!(matches!(calls[0], IcCall::ProcessKeyEvent { keysym: 0, evdev: 30, state: 0 }));
    assert!(!unset);
}

#[test]
fn refused_submit_marks_bridge_dead_and_refused_cursor_does_not() {
    let (cmd_tx, cmd_rx) = mpsc::channel();
    let (_ev_tx, ev_rx) = mpsc::channel();
    let mut b = DbusIbusBridge::from_channels(cmd_tx, ev_rx);
    drop(cmd_rx);
    b.update_cursor_rect(CursorRect { x: 1, y: 2, w: 3, h: 4 });
    assert!(!b.is_dead(), "a refused cursor report changes nothing");
    b.submit(DownEvent::State(FocusChange::Activate));
    assert!(b.is_dead(), "a refused command means the worker is gone");
}

#[test]
fn fcitx5_submit_reaches_the_worker() {
    let (cmd_tx, cmd_rx) = mpsc::channel();
    let (_ev_tx, ev_rx) = mpsc::channel();
    let mut b = DbusFcitx5Bridge::from_channels(cmd_tx, ev_rx);
    b.submit(DownEvent::State(FocusChange::Activate));
    b.update_cursor_rect(CursorRect { x: 1, y: 2, w: 3, h: 4 });
    assert!(matches!(cmd_rx.try_recv(), Ok(fcitx5::ToWorker::FocusIn)));
    assert!(matches!(cmd_rx.try_recv(), Ok(fcitx5::ToWorker::SetCursorRect { x: 1, y: 2, w: 3, h: 4 })));
    drop(cmd_rx);
    b.submit(DownEvent::State(FocusChange::Deactivate));
    assert!(b.is_dead());
}
