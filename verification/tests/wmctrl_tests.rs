use waylandcraft::desktop::{
    backoff_delay, capture_png_path, parse_wmctrl_line, parse_wmctrl_output, pid_hash, wmctrl_line_in_bounds, wmctrl_output_in_bounds,
};
use waylandcraft::diagnostic::split_lines;
use waylandcraft::text::{parse_u32, str_find};

#[test]
fn wmctrl_line_gives_id_pid_and_title() {
    let w = parse_wmctrl_line("0x03a00003  0 4242   myhost  Mozilla Firefox  ").unwrap();
    assert_eq!(w.window_id, "0x03a00003");
    assert_eq!(w.title, "Mozilla Firefox");
    assert_eq!(w.app_id, "pid:4242");
    assert_eq!(w.pid, 4242);
    assert_eq!(w.hash, pid_hash(4242));
    assert_eq!((w.x, w.y, w.width, w.height), (0, 0, 0, 0));
}

#[test]
fn wmctrl_line_without_title_uses_the_window_id() {
    let w = parse_wmctrl_line("0x01 0 -1 host").unwrap();
    assert_eq!(w.title, "0x01");
    assert_eq!(w.app_id, "pid:-1");
    assert_eq!(w.pid, 0);
    // A single character after the host name is cut away with it.
    let w = parse_wmctrl_line("0x01 0 7 host x").unwrap();
    assert_eq!(w.title, "x");
    let w = parse_wmctrl_line("0x01 0 7 host ").unwrap();
    assert_eq!(w.title, "0x01");
}

#[test]
fn wmctrl_title_starts_after_the_first_occurrence_of_the_host() {
    // The host name "0" first occurs inside the window id.
    let w = parse_wmctrl_line("0x5 0 9 0 Terminal").unwrap();
    assert_eq!(w.title, "5 0 9 0 Terminal");
}

#[test]
fn wmctrl_short_or_blank_lines_give_nothing() {
    assert!(parse_wmctrl_line("0x01 0 7").is_none());
    assert!(parse_wmctrl_line("").is_none());
    // Only white space after the cut: the trimmed title is empty.
    assert!(parse_wmctrl_line("0x01 0 7 host  \t ").is_none());
}

#[test]
fn wmctrl_output_keeps_the_window_lines_in_order() {
    let out = "0x1 0 10 h One\n\nshort line\r\n0x2 1 +20 h Two\r\n";
    assert!(wmctrl_output_in_bounds(out));
    let ws = parse_wmctrl_output(out);
    assert_eq!(ws.len(), 2);
    assert_eq!(ws[0].title, "One");
    assert_eq!(ws[1].title, "Two");
    assert_eq!(ws[1].pid, 20);
    assert_eq!(ws[1].app_id, "pid:+20");
}

#[test]
fn wmctrl_cut_inside_a_wide_character_is_out_of_bounds() {
    assert!(!wmctrl_line_in_bounds("0x1 0 10 h\u{3000}title"));
    assert!(wmctrl_line_in_bounds("0x1 0 10 h 标题"));
    assert!(!wmctrl_output_in_bounds("0x1 0 10 h ok\n0x2 0 11 h\u{a0}x"));
}

#[test]
fn backoff_doubles_the_delay() {
    assert_eq!(backoff_delay(200, 0), Some(200));
    assert_eq!(backoff_delay(200, 1), Some(400));
    assert_eq!(backoff_delay(200, 3), Some(1600));
    assert_eq!(backoff_delay(0, 63), Some(0));
    assert_eq!(backoff_delay(0, 64), None);
    assert_eq!(backoff_delay(u64::MAX, 1), None);
}

#[test]
fn u32_parsing_matches_std() {
    for s in ["0", "42", "+7", "4294967295", "4294967296", "", "+", "-1", "1a", " 1", "007"] {
        assert_eq!(parse_u32(s), s.parse::<u32>().ok(), "{s:?}");
    }
}

#[test]
fn find_counts_characters() {
    assert_eq!(str_find("héllo", "llo"), Some(2));
    assert_eq!(str_find("abc", ""), Some(0));
    assert_eq!(str_find("abc", "d"), None);
    assert_eq!(str_find("abab", "ab"), Some(0));
}

#[test]
fn lines_split_like_std() {
    for s in ["", "a", "a\n", "a\r\nb", "\n\nx\r", "x\r\n\r\n"] {
        let expected: Vec<String> = s.lines().map(|l| l.to_string()).collect();
        assert_eq!(split_lines(s), expected, "{s:?}");
    }
}

#[test]
fn capture_reply_gives_the_png_path() {
    assert_eq!(
        capture_png_path(r#"{"ok": true, "path": "/tmp/wc_cap_1.png"}"#),
        Ok("/tmp/wc_cap_1.png".to_string())
    );
    assert_eq!(
        capture_png_path(r#"{"ok": false}"#),
        Err(r#"CaptureWindow failed: {"ok": false}"#.to_string())
    );
    assert_eq!(capture_png_path(r#"{"ok": true, "file": "/x"}"#), Err("no path field".to_string()));
    assert_eq!(capture_png_path(r#"{"ok": true, "path": 3}"#), Err("no open quote".to_string()));
    assert_eq!(capture_png_path(r#"{"ok": true, "path": "/x"#), Err("no close quote".to_string()));
    assert_eq!(capture_png_path(r#"{"path":"/a b.png","ok":true}"#), Ok("/a b.png".to_string()));
}
