use std::sync::mpsc;

use waylandcraft::dbus_value::DbusValue;
use waylandcraft::host_ime::dbus_fcitx5::{self as fcitx5, DbusFcitx5Backend};
use waylandcraft::host_ime::dbus_ibus::{push_with_done, DbusIbusBackend, FromWorker, ToWorker};
use waylandcraft::host_ime::fcitx5_signal::parse_formatted_preedit;
use waylandcraft::host_ime::ibus_signal::{ibus_signal_messages, parse_lookup_table};
use waylandcraft::host_ime::probe::{
    classify_init_error, init_failed, join_report, owner_error, probe_failed, report_entry, ti3_skipped,
    xim_unavailable, ProbeErr,
};
use waylandcraft::host_ime::{HostEvent, HostImBackend, ImeInit, SubmittedKey, IBUS_RELEASE_MASK};
use waylandcraft::keyboard::KeyboardAction;
use waylandcraft::relay::{AppState, ImeCommand};

fn key(seq: u64, key: u32, keysym: u32, evdev: u32, state: u32, action: KeyboardAction) -> SubmittedKey {
    SubmittedKey { seq, key, keysym, evdev, state, action, mods: (0, 0, 0, 0) }
}

fn backend() -> (DbusIbusBackend, mpsc::Receiver<ToWorker>, mpsc::Sender<FromWorker>) {
    let (cmd_tx, cmd_rx) = mpsc::channel::<ToWorker>();
    let (ev_tx, ev_rx) = mpsc::channel::<FromWorker>();
    (DbusIbusBackend::from_parts(cmd_tx, ev_rx), cmd_rx, ev_tx)
}

#[test]
fn key_roundtrip_forward() {
    let (mut be, _cmd_rx, ev_tx) = backend();
    assert!(be.submit_key(key(1, 38, 'a' as u32, 30, 0, KeyboardAction::Press)));
    assert!(be.take_forwarded_keys().is_empty(), "no release before the reply");

    ev_tx.send(FromWorker::KeyReply { seq: 1, consumed: false }).unwrap();
    be.poll();
    let fwd = be.take_forwarded_keys();
    assert_eq!(fwd.len(), 1);
    assert_eq!(fwd[0].key, 38);
    assert_eq!(fwd[0].action, KeyboardAction::Press);
}

#[test]
fn key_roundtrip_consumed() {
    let (mut be, _cmd_rx, ev_tx) = backend();
    be.submit_key(key(7, 24, 'q' as u32, 16, 0, KeyboardAction::Press));
    ev_tx.send(FromWorker::KeyReply { seq: 7, consumed: true }).unwrap();
    be.poll();
    assert_eq!(be.pending_len(), 0);
    assert!(be.take_forwarded_keys().is_empty());
}

#[test]
fn release_pairs_with_consumed_press() {
    let (mut be, _cmd_rx, ev_tx) = backend();
    assert!(be.submit_key(key(1, 10, 0x31, 2, 0, KeyboardAction::Press)));
    ev_tx.send(FromWorker::KeyReply { seq: 1, consumed: true }).unwrap();
    be.poll();
    assert!(be.take_forwarded_keys().is_empty(), "a consumed press is not released");

    assert!(be.submit_key(key(2, 10, 0x31, 2, 1 << 30, KeyboardAction::Release)));
    be.poll();
    assert_eq!(be.pending_len(), 0, "the release does not wait for a verdict");
    assert!(be.take_forwarded_keys().is_empty(), "the release is not released");
    assert!(!be.is_consumed(10), "pairing clears the consumed key");
}

#[test]
fn release_waits_then_consumed() {
    let (mut be, _cmd_rx, ev_tx) = backend();
    assert!(be.submit_key(key(1, 38, 'a' as u32, 30, 0, KeyboardAction::Press)));
    assert!(be.submit_key(key(2, 38, 'a' as u32, 30, 1 << 30, KeyboardAction::Release)));
    assert_eq!(be.release_waiting_len(), 1, "the release waits");
    assert_eq!(be.pending_len(), 1, "only the press is pending");

    ev_tx.send(FromWorker::KeyReply { seq: 1, consumed: true }).unwrap();
    be.poll();
    assert_eq!(be.release_waiting_len(), 0);
    assert!(be.take_forwarded_keys().is_empty(), "nothing is released");
}

#[test]
fn release_waits_then_forwarded() {
    let (mut be, _cmd_rx, ev_tx) = backend();
    be.submit_key(key(1, 38, 'a' as u32, 30, 0, KeyboardAction::Press));
    be.submit_key(key(2, 38, 'a' as u32, 30, 1 << 30, KeyboardAction::Release));
    assert_eq!(be.release_waiting_len(), 1);

    ev_tx.send(FromWorker::KeyReply { seq: 1, consumed: false }).unwrap();
    be.poll();
    assert_eq!(be.release_waiting_len(), 0);
    let fwd = be.take_forwarded_keys();
    assert_eq!(fwd.len(), 2, "press and release are released together");
    assert_eq!(fwd[0].action, KeyboardAction::Press);
    assert_eq!(fwd[1].action, KeyboardAction::Release);
}

#[test]
fn release_submitted_after_press_forwarded() {
    let (mut be, cmd_rx, ev_tx) = backend();
    be.submit_key(key(1, 38, 'a' as u32, 30, 0, KeyboardAction::Press));
    ev_tx.send(FromWorker::KeyReply { seq: 1, consumed: false }).unwrap();
    be.poll();
    assert!(be.take_forwarded_keys().len() == 1, "the press is released");
    assert!(matches!(cmd_rx.try_recv(), Ok(ToWorker::Key { seq: 1, .. })));

    assert!(be.submit_key(key(3, 38, 'a' as u32, 30, 1 << 30, KeyboardAction::Release)));
    assert_eq!(be.pending_len(), 1, "the release goes to the daemon");
    match cmd_rx.try_recv() {
        Ok(ToWorker::Key { seq, .. }) => assert_eq!(seq, 3),
        _ => panic!("expected ToWorker::Key seq=3"),
    }
    ev_tx.send(FromWorker::KeyReply { seq: 3, consumed: false }).unwrap();
    be.poll();
    let fwd = be.take_forwarded_keys();
    assert_eq!(fwd.len(), 1);
    assert_eq!(fwd[0].action, KeyboardAction::Release);
}

#[test]
fn cursor_source_prefers_ti3_when_active() {
    let (mut be, cmd_rx, _ev_tx) = backend();
    be.set_active(true);

    let st = AppState::from_pending(None, 0, 0, 0, 0, 0, Some((324, 54, 0, 20)));
    be.execute_commands(vec![ImeCommand::Activate(st)]);
    assert!(matches!(cmd_rx.try_recv(), Ok(ToWorker::FocusIn)));
    match cmd_rx.try_recv() {
        Ok(ToWorker::SetCursorRect(324, 54, 0, 20)) => {}
        _ => panic!("expected SetCursorRect(324,54,0,20) from ti3"),
    }

    be.update_cursor_rect((96, 244, 2, 9));
    assert!(matches!(cmd_rx.try_recv(), Err(_)), "the game's rectangle is ignored while ti3 leads");

    be.set_active(false);
    assert!(matches!(cmd_rx.try_recv(), Ok(ToWorker::FocusOut)));
    be.update_cursor_rect((96, 244, 2, 9));
    match cmd_rx.try_recv() {
        Ok(ToWorker::SetCursorRect(96, 244, 2, 9)) => {}
        _ => panic!("expected SetCursorRect(96,244,2,9) from java"),
    }
}

#[test]
fn ordering_and_done_pairing() {
    let (mut be, _cmd_rx, mut ev_tx) = backend();
    for seq in 1..=3u64 {
        be.submit_key(key(seq, 10 + seq as u32, 0x61, seq as u32, 0, KeyboardAction::Press));
    }
    ev_tx.send(FromWorker::KeyReply { seq: 2, consumed: false }).unwrap();
    be.poll();
    assert!(!be.pending_has_seq(2), "an out-of-order seq is removed");

    ev_tx.send(FromWorker::KeyReply { seq: 1, consumed: false }).unwrap();
    ev_tx.send(FromWorker::KeyReply { seq: 3, consumed: false }).unwrap();
    be.poll();
    let fwd = be.take_forwarded_keys();
    assert_eq!(fwd.len(), 2);

    push_with_done(&mut ev_tx, HostEvent::CommitString("你好".into()));
    drop(ev_tx);
    be.poll();
    let evs = be.take_events();
    assert_eq!(evs.len(), 2);
    assert_eq!(evs[0], HostEvent::CommitString("你好".into()));
    assert_eq!(evs[1], HostEvent::Done(0));
}

#[test]
fn dbus_ibus_not_ready_no_grab() {
    let (mut be, _cmd_rx, _ev_tx) = backend();
    be.set_ready(false);
    assert!(!be.submit_key(key(9, 30, 0x31, 2, 0, KeyboardAction::Press)));
}

#[test]
fn fatal_marks_dead() {
    let (mut be, _cmd_rx, ev_tx) = backend();
    ev_tx.send(FromWorker::Fatal("bus gone".into())).unwrap();
    drop(ev_tx);
    be.poll();
    assert!(HostImBackend::is_dead(&be));
    assert!(!be.submit_key(key(11, 30, 0x31, 2, 0, KeyboardAction::Press)));
}

fn s(t: &str) -> DbusValue {
    DbusValue::Str(t.to_string())
}

fn var(v: DbusValue) -> DbusValue {
    DbusValue::Value(Box::new(v))
}

fn cand(text: &str) -> DbusValue {
    var(DbusValue::Structure(vec![s("IBusText"), DbusValue::Dict, s(text), var(DbusValue::Bool(false))]))
}

#[test]
fn parse_lookup_table_structured() {
    let candidates = DbusValue::Array(vec![cand("你"), cand("泥"), cand("逆")]);
    let labels = DbusValue::Array(vec![cand("1."), cand("2."), cand("3.")]);
    let table = var(DbusValue::Structure(vec![
        s("IBusLookupTable"),
        DbusValue::Dict,
        DbusValue::U32(3),
        DbusValue::U32(1),
        DbusValue::Bool(true),
        DbusValue::Bool(false),
        DbusValue::I32(1),
        candidates,
        labels,
    ]));
    let fields = vec![table, DbusValue::Bool(true)];
    let ev = parse_lookup_table(&fields).expect("parse");
    match ev {
        HostEvent::LookupTable { candidates, labels, cursor_pos, cursor_visible, page_size, orientation, visible } => {
            assert_eq!(candidates, vec!["你", "泥", "逆"]);
            assert_eq!(labels, vec!["1.", "2.", "3."]);
            assert_eq!(cursor_pos, 1);
            assert!(cursor_visible);
            assert_eq!(page_size, 3);
            assert_eq!(orientation, 1);
            assert!(visible);
        }
        other => panic!("unexpected event: {other:?}"),
    }
}

#[test]
fn parse_lookup_table_hidden() {
    let table = var(DbusValue::Structure(vec![
        s("IBusLookupTable"),
        DbusValue::Dict,
        DbusValue::U32(9),
        DbusValue::U32(0),
        DbusValue::Bool(false),
        DbusValue::Bool(false),
        DbusValue::I32(0),
        DbusValue::Array(Vec::new()),
        DbusValue::Array(Vec::new()),
    ]));
    let fields = vec![table, DbusValue::Bool(false)];
    let ev = parse_lookup_table(&fields).expect("parse");
    match ev {
        HostEvent::LookupTable { candidates, visible, .. } => {
            assert!(candidates.is_empty());
            assert!(!visible);
        }
        other => panic!("unexpected event: {other:?}"),
    }
}

#[test]
fn cursor_is_made_relative_to_its_page() {
    let table = var(DbusValue::Structure(vec![
        s("IBusLookupTable"),
        DbusValue::Dict,
        DbusValue::U32(5),
        DbusValue::U32(7),
        DbusValue::Bool(true),
        DbusValue::Bool(false),
        DbusValue::I32(-3),
        DbusValue::Array(vec![cand("甲")]),
        DbusValue::Array(vec![]),
    ]));
    match parse_lookup_table(&[table, DbusValue::Bool(true)]).unwrap() {
        HostEvent::LookupTable { cursor_pos, orientation, .. } => {
            assert_eq!(cursor_pos, 2);
            assert_eq!(orientation, 0);
        }
        other => panic!("unexpected event: {other:?}"),
    }
    assert_eq!(parse_lookup_table(&[]).unwrap_err(), "UpdateLookupTable 缺表字段");
    assert_eq!(parse_lookup_table(&[s("x")]).unwrap_err(), "UpdateLookupTable 表不是结构体");
}

#[test]
fn ibus_signals_become_events_with_done() {
    let msgs = ibus_signal_messages("CommitText", &[var(DbusValue::Structure(vec![s("IBusText"), s("好")]))]).unwrap();
    assert_eq!(msgs.len(), 2);
    assert!(matches!(&msgs[0], FromWorker::Ev(HostEvent::CommitString(t)) if t == "好"));
    assert!(matches!(&msgs[1], FromWorker::Ev(HostEvent::Done(0))));
    assert!(ibus_signal_messages("CommitText", &[]).is_err());
    let fwd = ibus_signal_messages("ForwardKeyEvent", &[DbusValue::U32(0x61), DbusValue::U32(30), DbusValue::U32(IBUS_RELEASE_MASK)])
        .unwrap();
    match &fwd[0] {
        FromWorker::Forward(k) => {
            assert_eq!(k.key, 38);
            assert_eq!(k.action, KeyboardAction::Release);
        }
        _ => panic!("expected Forward"),
    }
    assert_eq!(ibus_signal_messages("Nope", &[]).unwrap_err(), "未注册的信号 Nope");
}

#[test]
fn preedit_parsing() {
    let seg = |t: &str| DbusValue::Structure(vec![s(t), DbusValue::I32(0)]);
    let arr = DbusValue::Array(vec![seg("ni"), seg("hao")]);
    let fields = vec![arr, DbusValue::I32(4)];
    let (text, cursor) = parse_formatted_preedit(&fields).expect("parse");
    assert_eq!(text, "nihao");
    assert_eq!(cursor, 4);
}

#[test]
fn dbus_fcitx5_not_ready_no_grab() {
    let (cmd_tx, _cmd_rx) = mpsc::channel::<fcitx5::ToWorker>();
    let (_ev_tx, ev_rx) = mpsc::channel::<fcitx5::FromWorker>();
    let mut be = DbusFcitx5Backend::from_parts(cmd_tx, ev_rx);
    be.set_ready(false);
    assert!(!be.submit_key(key(1, 38, 0x61, 30, IBUS_RELEASE_MASK, KeyboardAction::Release)));
}

#[test]
fn fcitx5_forwards_in_order() {
    let (cmd_tx, _cmd_rx) = mpsc::channel::<fcitx5::ToWorker>();
    let (ev_tx, ev_rx) = mpsc::channel::<fcitx5::FromWorker>();
    let mut be = DbusFcitx5Backend::from_parts(cmd_tx, ev_rx);
    assert!(be.submit_key(key(1, 38, 0x61, 30, 0, KeyboardAction::Press)));
    assert!(be.submit_key(key(2, 39, 0x73, 31, 0, KeyboardAction::Press)));
    ev_tx.send(fcitx5::FromWorker::KeyReply { seq: 1, consumed: false }).unwrap();
    ev_tx.send(fcitx5::FromWorker::KeyReply { seq: 2, consumed: true }).unwrap();
    be.poll();
    let fwd = be.take_forwarded_keys();
    assert_eq!(fwd.len(), 1);
    assert_eq!(fwd[0].key, 38);
}

#[test]
fn probe_helpers() {
    assert_eq!(classify_init_error("InterfaceNotFound"), "UNSUPPORTED");
    assert_eq!(classify_init_error("timed out"), "TRANSIENT");
    match owner_error("org.x", "org.freedesktop.DBus.Error.NameHasNoOwner") {
        ProbeErr::Unsupported(m) => assert_eq!(m, "session bus 上没有 org.x（需要 ibus-portal 进程在运行；名字无主）"),
        _ => panic!(),
    }
    match owner_error("org.x", "boom") {
        ProbeErr::Transient(m) => assert_eq!(m, "GetNameOwner 失败: boom"),
        _ => panic!(),
    }
    assert!(matches!(probe_failed::<()>("dbus-ibus", ProbeErr::Transient("t".into())), ImeInit::Transient(m) if m == "dbus-ibus: t"));
    assert!(matches!(init_failed::<()>("dbus-ibus", "UnknownMethod"), ImeInit::Unsupported(m) if m == "dbus-ibus: UnknownMethod"));
    assert!(matches!(init_failed::<()>("dbus-ibus", "x"), ImeInit::Transient(m) if m == "dbus-ibus: x"));
    let a = report_entry::<()>("dbus-ibus", ImeInit::Transient("t".into())).unwrap_err();
    let b = report_entry::<()>("dbus-fcitx5", ImeInit::Unsupported("u".into())).unwrap_err();
    assert_eq!(a, "dbus-ibus: TRANSIENT t");
    assert_eq!(b, "dbus-fcitx5: u");
    assert_eq!(report_entry("x", ImeInit::Ready(5u8)).unwrap(), 5);
    let joined = join_report(&[ti3_skipped(), a, b, xim_unavailable()]);
    assert!(joined.starts_with("wayland-ti3: 跳过"));
    assert!(joined.ends_with("; x11-xim: 未实现（规划中）"));
    assert_eq!(joined.matches("; ").count(), 3);
    assert_eq!(join_report(&[]), "");
}

#[test]
fn not_ready_key_sends_nothing() {
    let (mut be, cmd_rx, _ev_tx) = backend();
    be.set_ready(false);
    assert!(!be.submit_key(key(9, 30, 0x31, 2, 0, KeyboardAction::Press)));
    assert!(cmd_rx.try_recv().is_err(), "a key that is not taken over goes nowhere");
}

#[test]
fn key_submission_sends_its_key_command() {
    let (mut be, cmd_rx, _ev_tx) = backend();
    assert!(be.submit_key(key(4, 38, 0x61, 30, 0, KeyboardAction::Press)));
    assert_eq!(cmd_rx.try_recv().unwrap(), ToWorker::Key { seq: 4, keysym: 0x61, evdev: 30, state: 0 });
    assert!(cmd_rx.try_recv().is_err());
}

#[test]
fn release_of_consumed_press_sends_nothing() {
    let (mut be, cmd_rx, ev_tx) = backend();
    assert!(be.submit_key(key(1, 10, 0x31, 2, 0, KeyboardAction::Press)));
    assert!(matches!(cmd_rx.try_recv(), Ok(ToWorker::Key { seq: 1, .. })));
    ev_tx.send(FromWorker::KeyReply { seq: 1, consumed: true }).unwrap();
    be.poll();
    assert!(be.take_forwarded_keys().is_empty());
    assert!(be.submit_key(key(2, 10, 0x31, 2, IBUS_RELEASE_MASK, KeyboardAction::Release)));
    assert!(cmd_rx.try_recv().is_err(), "the release of a consumed press is eaten");
    be.poll();
    assert!(be.take_forwarded_keys().is_empty());
}

#[test]
fn closed_event_channel_marks_backend_dead() {
    let (mut be, _cmd_rx, ev_tx) = backend();
    ev_tx.send(FromWorker::Ev(HostEvent::Enter)).unwrap();
    drop(ev_tx);
    be.poll();
    assert!(HostImBackend::is_dead(&be));
    assert_eq!(be.take_events(), vec![HostEvent::Enter]);
}

#[test]
fn fatal_stops_the_poll() {
    let (mut be, _cmd_rx, ev_tx) = backend();
    ev_tx.send(FromWorker::Ev(HostEvent::Enter)).unwrap();
    ev_tx.send(FromWorker::Fatal("bus gone".into())).unwrap();
    ev_tx.send(FromWorker::Ev(HostEvent::Leave)).unwrap();
    be.poll();
    assert!(HostImBackend::is_dead(&be));
    assert_eq!(be.take_events(), vec![HostEvent::Enter], "messages after Fatal stay unread");
}

#[test]
fn fcitx5_key_submission_sends_its_key_command() {
    let (cmd_tx, cmd_rx) = mpsc::channel::<fcitx5::ToWorker>();
    let (_ev_tx, ev_rx) = mpsc::channel::<fcitx5::FromWorker>();
    let mut be = DbusFcitx5Backend::from_parts(cmd_tx, ev_rx);
    assert!(be.submit_key(key(7, 38, 0x61, 30, IBUS_RELEASE_MASK, KeyboardAction::Release)));
    assert_eq!(
        cmd_rx.try_recv().unwrap(),
        fcitx5::ToWorker::Key { seq: 7, keysym: 0x61, evdev: 30, state: IBUS_RELEASE_MASK, release: true, time_ms: 0 }
    );
    be.set_active(true);
    assert_eq!(cmd_rx.try_recv().unwrap(), fcitx5::ToWorker::FocusIn);
    be.update_cursor_rect((1, 2, 3, 4));
    assert_eq!(cmd_rx.try_recv().unwrap(), fcitx5::ToWorker::SetCursorRect(1, 2, 3, 4));
    be.update_cursor_rect((1, 2, 3, 4));
    assert!(cmd_rx.try_recv().is_err(), "an unchanged rectangle is not resent");
}

#[test]
fn fcitx5_fatal_marks_backend_dead() {
    let (cmd_tx, _cmd_rx) = mpsc::channel::<fcitx5::ToWorker>();
    let (ev_tx, ev_rx) = mpsc::channel::<fcitx5::FromWorker>();
    let mut be = DbusFcitx5Backend::from_parts(cmd_tx, ev_rx);
    ev_tx.send(fcitx5::FromWorker::Fatal("gone".into())).unwrap();
    be.poll();
    assert!(HostImBackend::is_dead(&be));
    assert!(!be.submit_key(key(1, 38, 0x61, 30, 0, KeyboardAction::Press)));
}

#[test]
fn init_timeout_is_transient() {
    match waylandcraft::host_ime::probe::init_timed_out::<()>("dbus-ibus") {
        ImeInit::Transient(m) => assert_eq!(m, "dbus-ibus: init timeout(6s)"),
        _ => panic!("expected Transient"),
    }
}

#[test]
fn fcitx5_backend_waits_for_ready() {
    let (cmd_tx, cmd_rx) = mpsc::channel::<fcitx5::ToWorker>();
    let (ev_tx, ev_rx) = mpsc::channel::<fcitx5::FromWorker>();
    let mut be = DbusFcitx5Backend::awaiting_ready(cmd_tx, ev_rx);
    assert!(!be.is_ready());
    assert!(!be.submit_key(key(1, 38, 0x61, 30, 0, KeyboardAction::Press)));
    assert!(cmd_rx.try_recv().is_err());
    ev_tx.send(fcitx5::FromWorker::Ready).unwrap();
    be.poll();
    assert!(be.is_ready());
    assert!(be.submit_key(key(2, 38, 0x61, 30, 0, KeyboardAction::Press)));
}
