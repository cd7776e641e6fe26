use waylandcraft::desktop::{get_process_list_fallback, get_window_geometry, pid_hash, DesktopWindow};
use waylandcraft::diagnostic::{
    find_line_with, trim, BridgeState, CheckStatus, DiagnosticCheck, DiagnosticFacts, DiagnosticReport,
};
use waylandcraft::launch::{detect_app_type, inject_flatpak_env, shell_quote};
use waylandcraft::status::{BridgeHealth, ErrorEntry, State, StatusFacts, StatusReport, SubEntry};

fn facts() -> StatusFacts {
    StatusFacts {
        egl_display: 0xbeef,
        host_bridge: Some(BridgeHealth { ready: true, dead: false }),
        satellite_display: Some(":2".into()),
        ime_has_focus: true,
        ti3_instances: 2,
        xim_clients: 0,
        dmabuf: false,
        socket: "wayland-9".into(),
        uptime_s: 42,
        toplevels: 3,
        popups: 1,
        errors: vec![ErrorEntry { ts: "t0".into(), level: "warn".into(), msg: "a\"b".into() }],
        native_version: "0.1.0",
    }
}

#[test]
fn gather_decides_states_from_facts() {
    let r = StatusReport::gather(facts(), "main".into(), "1.2.3");
    assert_eq!(r.subsystems.len(), 19);
    let get = |n: &str| r.subsystems.iter().find(|(k, _)| *k == n).map(|(_, e)| (e.state, e.details.clone())).unwrap();
    assert_eq!(get("egl_display"), (State::Okay, "0xbeef".to_string()));
    assert_eq!(get("host_bridge"), (State::Okay, "dbus-ibus → active".to_string()));
    assert_eq!(get("xwayland_satellite"), (State::Okay, "DISPLAY=:2".to_string()));
    assert_eq!(
        get("ime_ti3"),
        (State::Degraded, "2 ti3 instance(s) enabled; ibus may not respond (issue #1)".to_string())
    );
    assert_eq!(get("ime_xim"), (State::Disabled, "no XIM clients bound".to_string()));
    assert_eq!(get("dmabuf"), (State::Degraded, "no render node; shm fallback used".to_string()));
    assert_eq!(r.metrics[1], ("uptime_s", "42".to_string()));
    assert_eq!(r.subsystem_summary(), "13 ok, 2 degraded, 0 error, 1 disabled, 3 n/a");
}

#[test]
fn gather_reports_a_missing_or_dead_bridge() {
    let mut f = facts();
    f.host_bridge = None;
    f.ime_has_focus = false;
    let r = StatusReport::gather(f, "main".into(), "1");
    assert_eq!(r.subsystems[3].1.state, State::Error);
    assert_eq!(r.subsystems[3].1.details, "host_bridge = None; ibus/fcitx5 not bridged");
    assert_eq!(r.subsystems[6].1.details, "no focus");
    let mut f = facts();
    f.host_bridge = Some(BridgeHealth { ready: false, dead: true });
    let r = StatusReport::gather(f, "main".into(), "1");
    assert_eq!(r.subsystems[3].1.details, "worker channel closed; ibus disconnected");
    let mut f = facts();
    f.host_bridge = Some(BridgeHealth { ready: false, dead: false });
    let r = StatusReport::gather(f, "main".into(), "1");
    assert_eq!(r.subsystems[3].1.state, State::Degraded);
}

#[test]
fn status_json_has_header_and_body() {
    let r = StatusReport {
        mod_version: "1.0",
        native_version: "0.2",
        uptime_s: 7,
        java_thread: "Render".into(),
        subsystems: vec![("seat", SubEntry::ok("fine".into())), ("shm", SubEntry::na("x\ny".into()))],
        metrics: vec![("toplevels", "1".into())],
        errors: vec![],
    };
    let expected = [
        "# WaylandCraft Status v1.0 (native v0.2) — overwritten each refresh\n",
        "# Subsystems: 1 ok, 0 degraded, 0 error, 0 disabled, 1 n/a\n",
        "# Java thread: Render\n",
        "# Errors: 0\n",
        "\n",
        "{\n",
        "  \"version\": \"1.0\",\n",
        "  \"native_version\": \"0.2\",\n",
        "  \"uptime_s\": 7,\n",
        "  \"java_thread\": \"Render\",\n",
        "  \"subsystems\": {\n",
        "    \"seat\": { \"state\": \"ok\", \"details\": \"fine\" },\n",
        "    \"shm\": { \"state\": \"n/a\", \"details\": \"x\\ny\" }\n",
        "  },\n",
        "  \"metrics\": {\n",
        "    \"toplevels\": \"1\"\n",
        "  },\n",
        "  \"errors\": [\n",
        "  ]\n",
        "}\n",
    ]
    .concat();
    assert_eq!(r.to_json(), expected);
    assert_eq!(State::NotApplicable.as_str(), "n/a");
    assert_eq!(SubEntry::error("e".into()).state, State::Error);
    assert_eq!(SubEntry::degraded("d".into()).state, State::Degraded);
    assert_eq!(SubEntry::disabled("d".into()).state, State::Disabled);
}

#[test]
fn status_json_escapes_error_entries() {
    let r = StatusReport::gather(facts(), "main".into(), "1");
    let json = r.to_json();
    assert!(json.contains("    { \"ts\": \"t0\", \"level\": \"warn\", \"msg\": \"a\\\"b\" }\n"));
    assert!(json.contains("# Errors: 1\n"));
}

fn diag_facts() -> DiagnosticFacts {
    DiagnosticFacts {
        uid: 1000,
        gid: 1000,
        wayland_display: Some("wayland-1".into()),
        dbus_address: Some("unix:path=/run/user/1000/bus".into()),
        process_list: Ok("  PID COMMAND ARGS\n  12 ibus-daemon ibus-daemon --xim\r\n  13 ibus-portal /usr/libexec/ibus-portal\n".into()),
        ibus_engine: Ok("  libpinyin \n".into()),
        host_bridge: Some(BridgeState { ready: true, name: "dbus-ibus".into() }),
        app_active: true,
    }
}

#[test]
fn healthy_run_passes_every_checked_layer() {
    let rep = DiagnosticReport::run(diag_facts());
    assert_eq!(rep.checks.len(), 11);
    assert!(rep.checks[..7].iter().all(|c| c.status == CheckStatus::Pass));
    assert!(rep.checks[7..].iter().all(|c| c.status == CheckStatus::Skip));
    assert_eq!(rep.checks[0].detail, "uid=1000 gid=1000 user=非 root");
    assert_eq!(rep.checks[3].detail, "ibus-daemon 跑着；  13 ibus-portal /usr/libexec/ibus-portal");
    assert_eq!(rep.checks[4].detail, "default engine: libpinyin");
    assert_eq!(rep.checks[5].detail, "host_bridge READY (backend=dbus-ibus)");
    let text = rep.render();
    assert!(text.starts_with("=== WaylandCraft IME 诊断报告 ===\n\n[PASS] environment: uid=1000 gid=1000 user=非 root\n"));
    assert!(text.ends_with("\nRESULT: INPUT METHOD HEALTHY (7/11 pass)\n"));
}

#[test]
fn broken_run_reports_failures_and_next_steps() {
    let f = DiagnosticFacts {
        uid: 0,
        gid: 0,
        wayland_display: Some(String::new()),
        dbus_address: Some("tcp:host=x".into()),
        process_list: Ok("1 bash\n".into()),
        ibus_engine: Err("not found".into()),
        host_bridge: None,
        app_active: false,
    };
    let rep = DiagnosticReport::run(f);
    // Any failure stops the run: the root environment is the only check.
    assert_eq!(rep.checks.len(), 1);
    assert_eq!(rep.checks[0].status, CheckStatus::Fail);
    assert!(rep.checks[0].root_cause.is_some() && rep.checks[0].suggestion.is_some());
    let text = rep.render();
    assert!(text.contains("[FAIL] environment: uid=0 gid=0\n         Root cause: root 环境"));
    assert!(text.contains("\nRESULT: INPUT METHOD BROKEN (1/1 fail)\n\n下一排查步骤"));
    assert!(text.ends_with("  7. application       → 检查 Java 端 'firefox.commit_received' 事件\n"));
}

#[test]
fn run_stops_at_the_first_failing_layer() {
    let mut f = diag_facts();
    f.wayland_display = Some(String::new());
    let rep = DiagnosticReport::run(f);
    assert_eq!(rep.checks.len(), 2);
    assert_eq!(rep.checks[1].status, CheckStatus::Fail);
    assert_eq!(rep.checks[1].detail, "WAYLAND_DISPLAY=\"\"（空字符串）");

    let mut f = diag_facts();
    f.dbus_address = Some("tcp:host=x".into());
    f.process_list = Ok("1 bash\n".into());
    let rep = DiagnosticReport::run(f);
    let st: Vec<CheckStatus> = rep.checks.iter().map(|c| c.status).collect();
    assert_eq!(st, vec![CheckStatus::Pass, CheckStatus::Pass, CheckStatus::Warn, CheckStatus::Fail]);

    let mut f = diag_facts();
    f.ibus_engine = Err("not found".into());
    f.host_bridge = None;
    let rep = DiagnosticReport::run(f);
    assert_eq!(rep.checks.len(), 6);
    assert_eq!(rep.checks[4].status, CheckStatus::Skip);
    assert_eq!(rep.checks[4].detail, "ibus 命令失败: not found");
    assert_eq!(rep.checks[5].status, CheckStatus::Fail);
}

#[test]
fn diagnostic_constructors_and_helpers() {
    let c = DiagnosticCheck::warn("l", "d".into(), "s".into());
    assert_eq!(c.root_cause, None);
    assert_eq!(c.suggestion.as_deref(), Some("s"));
    let f = DiagnosticCheck::fail("l", "d".into(), "r".into(), "s".into());
    assert_eq!(f.root_cause.as_deref(), Some("r"));
    assert_eq!(DiagnosticCheck::skip("l", "d".into()).status, CheckStatus::Skip);
    assert_eq!(DiagnosticCheck::pass("l", "d".into()).status, CheckStatus::Pass);
    assert_eq!(trim("\u{3000} a b\t\n"), "a b");
    assert_eq!(trim(" \n "), "");
    assert_eq!(find_line_with("a\r\nxb\r\nc", "b").as_deref(), Some("xb"));
    assert_eq!(find_line_with("a\nb\r", "b").as_deref(), Some("b\r"));
    assert_eq!(find_line_with("abc", "z"), None);
    assert_eq!(DiagnosticReport::check_dbus(None).detail, "DBUS_SESSION_BUS_ADDRESS 未设");
    assert_eq!(DiagnosticReport::check_wayland(None).detail, "WAYLAND_DISPLAY 未设");
    assert_eq!(DiagnosticReport::check_ibus_daemon(Err("e".into())).detail, "ps 失败: e");
}

fn win(title: &str, hash: &str, w: i32, h: i32) -> DesktopWindow {
    DesktopWindow {
        window_id: "1".into(),
        title: title.into(),
        app_id: "app".into(),
        pid: 1,
        hash: hash.into(),
        x: 5,
        y: 6,
        width: w,
        height: h,
    }
}

#[test]
fn window_geometry_takes_first_sized_match() {
    let ws = vec![win("Firefox — a", "aaaa", 0, 10), win("Firefox — b", "bbbb", 30, 40), win("other", "cccc", 1, 1)];
    assert_eq!(get_window_geometry(&ws, "Firefox"), Some((5, 6, 30, 40)));
    assert_eq!(get_window_geometry(&ws, "cccc"), Some((5, 6, 1, 1)));
    assert_eq!(get_window_geometry(&ws, "aaaa"), None, "a match without area is skipped");
    assert_eq!(get_window_geometry(&ws, "zzz"), None);
}

#[test]
fn pid_hash_is_four_hex_digits() {
    assert_eq!(pid_hash(0), "0000");
    assert_eq!(pid_hash(1), format!("{:04x}", 2654435761u32 & 0xFFFF));
    assert_eq!(pid_hash(1234), format!("{:04x}", 1234u32.wrapping_mul(2654435761) & 0xFFFF));
}

#[test]
fn process_list_fallback_names_windows_by_command() {
    let procs = vec![
        (42, "/usr/bin/firefox --new-window".to_string()),
        (7, "   ".to_string()),
        (8, "/opt/dir/ x".to_string()),
        (9, "bash".to_string()),
    ];
    let ws = get_process_list_fallback(&procs);
    assert_eq!(ws.len(), 2);
    assert_eq!(ws[0].title, "firefox");
    assert_eq!(ws[0].app_id, "firefox");
    assert_eq!(ws[0].window_id, "42");
    assert_eq!(ws[0].hash, pid_hash(42));
    assert_eq!((ws[0].x, ws[0].y, ws[0].width, ws[0].height), (0, 0, 0, 0));
    assert_eq!(ws[1].title, "bash");
    assert_eq!(ws[1].pid, 9);
}

#[test]
fn app_type_detects_sandbox_runners() {
    assert_eq!(detect_app_type("/usr/bin/FLATPAK"), "flatpak");
    assert_eq!(detect_app_type("flatpak"), "flatpak");
    assert_eq!(detect_app_type("/usr/libexec/flatpak-spawn"), "flatpak");
    assert_eq!(detect_app_type("/snap/bin/code"), "snap");
    assert_eq!(detect_app_type("SNAP"), "snap");
    assert_eq!(detect_app_type("/usr/bin/firefox"), "app");
}

#[test]
fn flatpak_options_go_before_app_id() {
    let mut args: Vec<String> = vec!["run".into(), "--branch=stable".into(), "com.qq.QQ".into(), "--x".into()];
    inject_flatpak_env(&mut args, "wayland-3", "::2");
    assert_eq!(
        args,
        vec![
            "run",
            "--branch=stable",
            "--socket=wayland",
            "--env=WAYLAND_DISPLAY=wayland-3",
            "--socket=x11",
            "--socket=pulseaudio",
            "--filesystem=/tmp/.X11-unix/X2",
            "--env=DISPLAY=::2",
            "com.qq.QQ",
            "--x",
        ]
    );
    let mut none: Vec<String> = vec!["info".into()];
    inject_flatpak_env(&mut none, "w", "");
    assert_eq!(none, vec!["info", "--socket=wayland", "--env=WAYLAND_DISPLAY=w", "--socket=x11", "--socket=pulseaudio"]);
}

#[test]
fn shell_quote_quotes_only_when_needed() {
    assert_eq!(shell_quote(""), "''");
    assert_eq!(shell_quote("/usr/bin/app-1.0_x=y"), "/usr/bin/app-1.0_x=y");
    assert_eq!(shell_quote("汉字"), "汉字");
    assert_eq!(shell_quote("a b"), "'a b'");
    assert_eq!(shell_quote("it's"), "'it'\\''s'");
}
