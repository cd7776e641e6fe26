//! Input-method health check: one run walks the layers of the input chain
//! in order (environment, Wayland and D-Bus sessions, ibus daemon and
//! engine, input context, focus, then the layers that need data from the
//! nested application), each reported as PASS, FAIL, WARN or SKIP. The
//! first FAIL stops the run: it is the last check of the report and carries
//! the root cause and a suggestion.
//!
//! The checks here decide on facts read from the system by the caller
//! (user id, environment variables, command outputs, bridge state).

use vstd::prelude::*;
use crate::text::{contains_seq, decimal, push_decimal, str_contains, str_starts_with, occurs_at};
use crate::ime_event::strings_view;

verus! {

#[derive(Debug, Clone, Copy, PartialEq, Eq, Structural)]
pub enum CheckStatus {
    Pass,
    Fail,
    Warn,
    Skip,
}

/// The result of checking one layer.
#[derive(Debug)]
pub struct DiagnosticCheck {
    pub layer: &'static str,
    pub status: CheckStatus,
    pub detail: String,
    /// Root cause, for a failure.
    pub root_cause: Option<String>,
    /// What to do about it.
    pub suggestion: Option<String>,
}

/// A check as plain values.
pub struct CheckView {
    pub layer: Seq<char>,
    pub status: CheckStatus,
    pub detail: Seq<char>,
    pub root_cause: Option<Seq<char>>,
    pub suggestion: Option<Seq<char>>,
}

pub open spec fn opt_view(o: Option<String>) -> Option<Seq<char>> {
    match o {
        Some(s) => Some(s@),
        None => None,
    }
}

impl View for DiagnosticCheck {
    type V = CheckView;

    open spec fn view(&self) -> CheckView {
        CheckView {
            layer: self.layer@,
            status: self.status,
            detail: self.detail@,
            root_cause: opt_view(self.root_cause),
            suggestion: opt_view(self.suggestion),
        }
    }
}

pub open spec fn passed(layer: Seq<char>, detail: Seq<char>) -> CheckView {
    CheckView { layer, status: CheckStatus::Pass, detail, root_cause: None, suggestion: None }
}

pub open spec fn failed(layer: Seq<char>, detail: Seq<char>, rc: Seq<char>, sug: Seq<char>) -> CheckView {
    CheckView { layer, status: CheckStatus::Fail, detail, root_cause: Some(rc), suggestion: Some(sug) }
}

pub open spec fn warned(layer: Seq<char>, detail: Seq<char>, sug: Seq<char>) -> CheckView {
    CheckView { layer, status: CheckStatus::Warn, detail, root_cause: None, suggestion: Some(sug) }
}

pub open spec fn skipped(layer: Seq<char>, detail: Seq<char>) -> CheckView {
    CheckView { layer, status: CheckStatus::Skip, detail, root_cause: None, suggestion: None }
}

impl DiagnosticCheck {
    pub fn pass(layer: &'static str, detail: String) -> (res: Self)
        ensures
            res@ == passed(layer@, detail@),
    {
        DiagnosticCheck { layer, status: CheckStatus::Pass, detail, root_cause: None, suggestion: None }
    }

    pub fn fail(layer: &'static str, detail: String, root_cause: String, suggestion: String) -> (res: Self)
        ensures
            res@ == failed(layer@, detail@, root_cause@, suggestion@),
    {
        DiagnosticCheck {
            layer,
            status: CheckStatus::Fail,
            detail,
            root_cause: Some(root_cause),
            suggestion: Some(suggestion),
        }
    }

    pub fn warn(layer: &'static str, detail: String, suggestion: String) -> (res: Self)
        ensures
            res@ == warned(layer@, detail@, suggestion@),
    {
        DiagnosticCheck { layer, status: CheckStatus::Warn, detail, root_cause: None, suggestion: Some(suggestion) }
    }

    pub fn skip(layer: &'static str, detail: String) -> (res: Self)
        ensures
            res@ == skipped(layer@, detail@),
    {
        DiagnosticCheck { layer, status: CheckStatus::Skip, detail, root_cause: None, suggestion: None }
    }
}

/// One complete health check.
pub struct DiagnosticReport {
    pub checks: Vec<DiagnosticCheck>,
}

/// State of the host bridge as the input-context check sees it.
pub struct BridgeState {
    pub ready: bool,
    pub name: String,
}

/// What the health check reads from the system.
pub struct DiagnosticFacts {
    pub uid: u32,
    pub gid: u32,
    /// `WAYLAND_DISPLAY`, when set (and valid Unicode).
    pub wayland_display: Option<String>,
    /// `DBUS_SESSION_BUS_ADDRESS`, when set (and valid Unicode).
    pub dbus_address: Option<String>,
    /// The output of `ps -eo pid,comm,args`, or why it could not run.
    pub process_list: Result<String, String>,
    /// The output of `ibus engine`, or why it could not run.
    pub ibus_engine: Result<String, String>,
    pub host_bridge: Option<BridgeState>,
    pub app_active: bool,
}

pub open spec fn environment_check(uid: u32, gid: u32) -> CheckView {
    let ids = "uid="@ + decimal(uid as nat) + " gid="@ + decimal(gid as nat);
    if uid == 0 {
        failed(
            "environment"@,
            ids,
            "root 环境——dbus user session bus / wayland socket 通常不可用"@,
            "以普通 desktop user 启动 MC（systemd user session 必须有 XDG_RUNTIME_DIR）"@,
        )
    } else {
        passed("environment"@, ids + " user=非 root"@)
    }
}

pub open spec fn wayland_check(v: Option<Seq<char>>) -> CheckView {
    match v {
        Some(d) => if d.len() > 0 {
            passed("wayland_session"@, "WAYLAND_DISPLAY="@ + d)
        } else {
            failed(
                "wayland_session"@,
                "WAYLAND_DISPLAY=\"\"（空字符串）"@,
                "嵌套合成器启动时未传 WAYLAND_DISPLAY"@,
                "bridge::keyboard_input 启动嵌套应用时设 WAYLAND_DISPLAY=<our_socket>"@,
            )
        },
        None => failed(
            "wayland_session"@,
            "WAYLAND_DISPLAY 未设"@,
            "嵌套 firefox 启动时未设 WAYLAND_DISPLAY"@,
            "process.rs build_universal_env_list 加 WAYLAND_DISPLAY=<our_socket>"@,
        ),
    }
}

pub open spec fn dbus_check(v: Option<Seq<char>>) -> CheckView {
    match v {
        Some(a) => if occurs_at(a, "unix:"@, 0) {
            passed("dbus_session"@, "DBUS_SESSION_BUS_ADDRESS="@ + a)
        } else {
            warned(
                "dbus_session"@,
                "DBUS_SESSION_BUS_ADDRESS="@ + a + "（非 unix: 路径）"@,
                "嵌套合成器可能用别的 transport——ibus 走 session bus 默认"@,
            )
        },
        None => failed(
            "dbus_session"@,
            "DBUS_SESSION_BUS_ADDRESS 未设"@,
            "嵌套 firefox 启动时未传 dbus 地址"@,
            "process.rs build_universal_env_list 加 DBUS_SESSION_BUS_ADDRESS=<host_addr>"@,
        ),
    }
}

/// The lines of a text as `str::lines` gives them, reading from `s` with
/// `cur` as the start of the current line: lines end at `\n` (a `\r`
/// before it is dropped); a last line without `\n` is kept as it is, and
/// an empty one is no line.
pub open spec fn lines_from(s: Seq<char>, cur: Seq<char>) -> Seq<Seq<char>>
    decreases s.len(),
{
    if s.len() == 0 {
        if cur.len() == 0 { Seq::empty() } else { seq![cur] }
    } else if s[0] == '\n' {
        seq![strip_cr(cur)] + lines_from(s.drop_first(), Seq::empty())
    } else {
        lines_from(s.drop_first(), cur.push(s[0]))
    }
}

pub open spec fn strip_cr(l: Seq<char>) -> Seq<char> {
    if l.len() > 0 && l.last() == '\r' { l.drop_last() } else { l }
}

/// The lines of a text.
pub open spec fn text_lines(s: Seq<char>) -> Seq<Seq<char>> {
    lines_from(s, Seq::empty())
}

/// The first line that contains `needle`.
pub open spec fn first_line_with(lines: Seq<Seq<char>>, needle: Seq<char>) -> Option<Seq<char>>
    decreases lines.len(),
{
    if lines.len() == 0 {
        None
    } else if contains_seq(lines[0], needle) {
        Some(lines[0])
    } else {
        first_line_with(lines.drop_first(), needle)
    }
}

/// Whether some line of a text contains `needle`.
pub open spec fn some_line_with(s: Seq<char>, needle: Seq<char>) -> bool {
    first_line_with(text_lines(s), needle) is Some
}

pub open spec fn daemon_check(ps: Result<Seq<char>, Seq<char>>) -> CheckView {
    match ps {
        Ok(out) => if some_line_with(out, "ibus-daemon"@) {
            let portal = match first_line_with(text_lines(out), "ibus-portal"@) {
                Some(l) => l,
                None => "ibus-portal 未跑"@,
            };
            passed("ibus_daemon"@, "ibus-daemon 跑着；"@ + portal)
        } else {
            failed(
                "ibus_daemon"@,
                "ibus-daemon 不在运行"@,
                "嵌套 firefox 找不到 IME daemon——无法连 GdkIMContext"@,
                "systemctl --user start ibus 或 /usr/bin/ibus-daemon --xim &"@,
            )
        },
        Err(e) => skipped("ibus_daemon"@, "ps 失败: "@ + e),
    }
}

/// Unicode white space (the `White_Space` property), as `char::is_whitespace`.
pub open spec fn is_white(c: char) -> bool {
    c == ' ' || ('\u{9}' <= c <= '\u{d}') || c == '\u{85}' || c == '\u{a0}' || c == '\u{1680}' || (
    '\u{2000}' <= c <= '\u{200a}') || c == '\u{2028}' || c == '\u{2029}' || c == '\u{202f}' || c
        == '\u{205f}' || c == '\u{3000}'
}

/// A text without leading and trailing white space (as `str::trim`).
pub open spec fn trimmed(s: Seq<char>) -> Seq<char>
    decreases s.len(),
{
    if s.len() == 0 {
        s
    } else if is_white(s[0]) {
        trimmed(s.drop_first())
    } else if is_white(s.last()) {
        trimmed(s.drop_last())
    } else {
        s
    }
}

pub open spec fn engine_check(out: Result<Seq<char>, Seq<char>>) -> CheckView {
    match out {
        Ok(o) => if trimmed(o).len() == 0 {
            failed(
                "ibus_engine"@,
                "ibus engine 输出空"@,
                "ibus 还没选 default engine"@,
                "ibus engine libpinyin 或设置 default engine"@,
            )
        } else {
            passed("ibus_engine"@, "default engine: "@ + trimmed(o))
        },
        Err(e) => skipped("ibus_engine"@, "ibus 命令失败: "@ + e),
    }
}

pub open spec fn input_context_check(bridge: Option<(bool, Seq<char>)>) -> CheckView {
    match bridge {
        Some((ready, name)) => if ready {
            passed("input_context"@, "host_bridge READY (backend="@ + name + ")"@)
        } else {
            failed(
                "input_context"@,
                "host_bridge 存在但 not ready (backend="@ + name + ")"@,
                "ibus portal 没连上 / InputContext 创建失败 / 权限不够"@,
                "ibus engine / 重新插拔 ibus-daemon / 看 host_bridge probing 日志"@,
            )
        },
        None => failed(
            "input_context"@,
            "host_bridge 是 None"@,
            "host_bridge::probe() 失败——没找到 ibus/fcitx5 daemon"@,
            "启动 ibus-daemon / fcitx5 / 检查 DBUS_SESSION_BUS_ADDRESS"@,
        ),
    }
}

pub open spec fn focus_check(app_active: bool) -> CheckView {
    if app_active {
        passed("focus"@, "app_active=true（嵌套应用有激活 IME 会话）"@)
    } else {
        warned(
            "focus"@,
            "app_active=false（嵌套应用无激活 IME 会话）"@,
            "嵌套 firefox 没获得 focus——commit 文本无法推到文本框"@,
        )
    }
}

pub open spec fn surrounding_check() -> CheckView {
    skipped(
        "surrounding_text"@,
        "需要嵌套应用 ti3 提交数据——见 ime.log 的 'host_bridge flush applied' 上下文"@,
    )
}

pub open spec fn preedit_check() -> CheckView {
    skipped("preedit"@, "需要 nested firefox 启用 IME——见 ime.log 的 'preedit \"...\"' 上下文"@)
}

pub open spec fn commit_history_check() -> CheckView {
    skipped("commit_history"@, "需扫描 ime.log 最近 1s 的 'commit \"...\"' 行——Java 端应配套 commit 计数"@)
}

pub open spec fn application_received_check() -> CheckView {
    skipped(
        "application_received"@,
        "需 Java 端确认：mod 通过 ti3 推的 commit 文本 firefox 文本框**实际**显示。见 Java log 'firefox.commit_received' 事件"@,
    )
}

pub open spec fn res_view(r: Result<String, String>) -> Result<Seq<char>, Seq<char>> {
    match r {
        Ok(s) => Ok(s@),
        Err(e) => Err(e@),
    }
}

/// All checks of a run, in order.
pub open spec fn all_checks(f: DiagnosticFacts) -> Seq<CheckView> {
    seq![
        environment_check(f.uid, f.gid),
        wayland_check(opt_view(f.wayland_display)),
        dbus_check(opt_view(f.dbus_address)),
        daemon_check(res_view(f.process_list)),
        engine_check(res_view(f.ibus_engine)),
        input_context_check(
            match f.host_bridge {
                Some(b) => Some((b.ready, b.name@)),
                None => None,
            },
        ),
        focus_check(f.app_active),
        surrounding_check(),
        preedit_check(),
        commit_history_check(),
        application_received_check(),
    ]
}

/// The checks up to and including the first failure: a failure stops the run.
pub open spec fn until_fail(cs: Seq<CheckView>) -> Seq<CheckView>
    decreases cs.len(),
{
    if cs.len() == 0 {
        cs
    } else if cs[0].status == CheckStatus::Fail {
        seq![cs[0]]
    } else {
        seq![cs[0]] + until_fail(cs.drop_first())
    }
}

pub open spec fn checks_view(c: Seq<DiagnosticCheck>) -> Seq<CheckView> {
    c.map_values(|d: DiagnosticCheck| d@)
}

fn ids_text(uid: u32, gid: u32) -> (res: String)
    ensures
        res@ == "uid="@ + decimal(uid as nat) + " gid="@ + decimal(gid as nat),
{
    let mut s = String::from_str("uid=");
    push_decimal(&mut s, uid as u64);
    s.append(" gid=");
    push_decimal(&mut s, gid as u64);
    s
}

fn joined3(a: &str, b: &str, c: &str) -> (res: String)
    ensures
        res@ == a@ + b@ + c@,
{
    let mut s = String::from_str(a);
    s.append(b);
    s.append(c);
    s
}

fn joined2(a: &str, b: &str) -> (res: String)
    ensures
        res@ == a@ + b@,
{
    let mut s = String::from_str(a);
    s.append(b);
    s
}

fn owned(t: &str) -> (res: String)
    ensures
        res@ == t@,
{
    String::from_str(t)
}

/// Steps `lines_from` over one character.
proof fn lemma_lines_step(s: Seq<char>, i: int, cur: Seq<char>)
    requires
        0 <= i < s.len(),
    ensures
        lines_from(s.skip(i), cur) == (if s[i] == '\n' {
            seq![strip_cr(cur)] + lines_from(s.skip(i + 1), Seq::empty())
        } else {
            lines_from(s.skip(i + 1), cur.push(s[i]))
        }),
{
    assert(s.skip(i).drop_first() =~= s.skip(i + 1));
    assert(s.skip(i)[0] == s[i]);
}

proof fn lemma_first_line_concat(a: Seq<Seq<char>>, b: Seq<Seq<char>>, needle: Seq<char>)
    requires
        forall|j: int| 0 <= j < a.len() ==> !contains_seq(#[trigger] a[j], needle),
    ensures
        first_line_with(a + b, needle) == first_line_with(b, needle),
    decreases a.len(),
{
    if a.len() > 0 {
        assert((a + b)[0] == a[0]);
        assert((a + b).drop_first() =~= a.drop_first() + b);
        lemma_first_line_concat(a.drop_first(), b, needle);
    } else {
        assert(a + b =~= b);
    }
}

/// The first line of `text` that contains `needle` (see [`first_line_with`]).
pub fn find_line_with(text: &str, needle: &str) -> (res: Option<String>)
    ensures
        match res {
            Some(l) => first_line_with(text_lines(text@), needle@) == Some(l@),
            None => first_line_with(text_lines(text@), needle@) is None,
        },
{
    let ghost t = text@;
    let n = text.unicode_len();
    let mut cur = String::new();
    let ghost mut done: Seq<Seq<char>> = Seq::empty();
    let mut i: usize = 0;
    assert(t.skip(0) =~= t);
    while i < n
        invariant
            n == t.len(),
            t == text@,
            i <= n,
            text_lines(t) == done + lines_from(t.skip(i as int), cur@),
            forall|j: int| 0 <= j < done.len() ==> !contains_seq(#[trigger] done[j], needle@),
        decreases n - i,
    {
        let c = text.get_char(i);
        proof {
            lemma_lines_step(t, i as int, cur@);
        }
        if c == '\n' {
            let ln = cur.unicode_len();
            let line = if ln > 0 && cur.get_char(ln - 1) == '\r' {
                let l = String::from_str(cur.as_str().substring_char(0, ln - 1));
                assert(l@ =~= cur@.drop_last());
                l
            } else {
                cur
            };
            if str_contains(line.as_str(), needle) {
                proof {
                    lemma_first_line_concat(done, lines_from(t.skip(i as int), cur@), needle@);
                    let x = lines_from(t.skip(i as int), cur@);
                    assert(strip_cr(cur@) == line@);
                    assert(x == seq![line@] + lines_from(t.skip(i + 1), Seq::empty()));
                    assert(x[0] == line@);
                    assert(first_line_with(x, needle@) == Some(line@));
                    assert(first_line_with(text_lines(t), needle@) == Some(line@));
                }
                return Some(line);
            }
            proof {
                assert(done + (seq![line@] + lines_from(t.skip(i + 1), Seq::empty())) =~= done.push(line@)
                    + lines_from(t.skip(i + 1), Seq::empty()));
                done = done.push(line@);
            }
            cur = String::new();
        } else {
            crate::text::push_char(&mut cur, c);
        }
        i = i + 1;
    }
    proof {
        assert(t.skip(n as int) =~= Seq::<char>::empty());
        lemma_first_line_concat(done, lines_from(t.skip(n as int), cur@), needle@);
    }
    if cur.unicode_len() > 0 && str_contains(cur.as_str(), needle) {
        proof {
            let last = lines_from(t.skip(n as int), cur@);
            assert(last == seq![cur@]);
            assert(last[0] == cur@);
            assert(first_line_with(last, needle@) == Some(cur@));
            assert(first_line_with(text_lines(t), needle@) == Some(cur@));
        }
        Some(cur)
    } else {
        proof {
            let last = lines_from(t.skip(n as int), cur@);
            if cur@.len() > 0 {
                assert(last == seq![cur@]);
                assert(last[0] == cur@);
                assert(last.drop_first() =~= Seq::<Seq<char>>::empty());
                assert(!contains_seq(last[0], needle@));
                assert(first_line_with(last.drop_first(), needle@) is None);
                assert(first_line_with(last, needle@) is None);
            } else {
                assert(last == Seq::<Seq<char>>::empty());
            }
            assert(first_line_with(text_lines(t), needle@) is None);
        }
        None
    }
}

/// The lines of a text (see [`text_lines`]).
pub fn split_lines(text: &str) -> (res: Vec<String>)
    ensures
        strings_view(res@) == text_lines(text@),
{
    let ghost t = text@;
    let n = text.unicode_len();
    let mut out: Vec<String> = Vec::new();
    let mut cur = String::new();
    let mut i: usize = 0;
    assert(t.skip(0) =~= t);
    assert(strings_view(out@) =~= Seq::<Seq<char>>::empty());
    while i < n
        invariant
            n == t.len(),
            t == text@,
            i <= n,
            text_lines(t) == strings_view(out@) + lines_from(t.skip(i as int), cur@),
        decreases n - i,
    {
        let c = text.get_char(i);
        proof {
            lemma_lines_step(t, i as int, cur@);
        }
        if c == '\n' {
            let ln = cur.unicode_len();
            let line = if ln > 0 && cur.get_char(ln - 1) == '\r' {
                let l = String::from_str(cur.as_str().substring_char(0, ln - 1));
                assert(l@ =~= cur@.drop_last());
                l
            } else {
                cur
            };
            let ghost before = strings_view(out@);
            out.push(line);
            proof {
                assert(strings_view(out@) =~= before.push(strip_cr(cur@)));
                assert(before + (seq![strip_cr(cur@)] + lines_from(t.skip(i + 1), Seq::empty())) =~= strings_view(
                    out@,
                ) + lines_from(t.skip(i + 1), Seq::empty()));
            }
            cur = String::new();
        } else {
            crate::text::push_char(&mut cur, c);
        }
        i = i + 1;
    }
    assert(t.skip(n as int) =~= Seq::<char>::empty());
    if cur.unicode_len() > 0 {
        let ghost before = strings_view(out@);
        out.push(cur);
        assert(strings_view(out@) =~= before + seq![cur@]);
    } else {
        assert(strings_view(out@) + Seq::<Seq<char>>::empty() =~= strings_view(out@));
    }
    out
}

/// Whether `c` is Unicode white space.
pub fn is_whitespace(c: char) -> (res: bool)
    ensures
        res == is_white(c),
{
    c == ' ' || ('\u{9}' <= c && c <= '\u{d}') || c == '\u{85}' || c == '\u{a0}' || c == '\u{1680}' || (
    '\u{2000}' <= c && c <= '\u{200a}') || c == '\u{2028}' || c == '\u{2029}' || c == '\u{202f}' || c
        == '\u{205f}' || c == '\u{3000}'
}

proof fn lemma_trim_bounds(s: Seq<char>, a: int, b: int)
    requires
        0 <= a <= b <= s.len(),
        forall|k: int| 0 <= k < a ==> is_white(#[trigger] s[k]),
        forall|k: int| b <= k < s.len() ==> is_white(#[trigger] s[k]),
        a < b ==> !is_white(s[a]) && !is_white(s[b - 1]),
    ensures
        trimmed(s) == s.subrange(a, b),
    decreases s.len(),
{
    if s.len() == 0 {
        assert(s.subrange(a, b) =~= s);
    } else if a > 0 {
        let t = s.drop_first();
        assert forall|k: int| 0 <= k < a - 1 implies is_white(#[trigger] t[k]) by {
            assert(t[k] == s[k + 1]);
        }
        assert forall|k: int| b - 1 <= k < t.len() implies is_white(#[trigger] t[k]) by {
            assert(t[k] == s[k + 1]);
        }
        lemma_trim_bounds(t, a - 1, b - 1);
        assert(t.subrange(a - 1, b - 1) =~= s.subrange(a, b));
    } else if b < s.len() {
        if a < b {
            assert(!is_white(s[0]));
        } else {
            assert(is_white(s[0]));
        }
        let t = s.drop_last();
        if !is_white(s[0]) {
            assert(is_white(s.last()));
        }
        if is_white(s[0]) {
            // a == b == 0: every character is white space
            let u = s.drop_first();
            assert forall|k: int| 0 <= k < u.len() implies is_white(#[trigger] u[k]) by {
                assert(u[k] == s[k + 1]);
            }
            lemma_trim_bounds(u, 0, 0);
            assert(u.subrange(0, 0) =~= s.subrange(a, b));
        } else {
            assert forall|k: int| b <= k < t.len() implies is_white(#[trigger] t[k]) by {
                assert(t[k] == s[k]);
            }
            lemma_trim_bounds(t, a, b);
            assert(t.subrange(a, b) =~= s.subrange(a, b));
        }
    } else {
        if a < b {
            assert(!is_white(s[0]) && !is_white(s.last()));
        }
        assert(s.subrange(a, b) =~= s);
    }
}

/// The text without leading and trailing white space (see [`trimmed`]).
pub fn trim(text: &str) -> (res: String)
    ensures
        res@ == trimmed(text@),
{
    let n = text.unicode_len();
    let mut a: usize = 0;
    while a < n && is_whitespace(text.get_char(a))
        invariant
            n == text@.len(),
            a <= n,
            forall|k: int| 0 <= k < a ==> is_white(#[trigger] text@[k]),
        decreases n - a,
    {
        a = a + 1;
    }
    let mut b: usize = n;
    while b > a && is_whitespace(text.get_char(b - 1))
        invariant
            n == text@.len(),
            a <= b <= n,
            forall|k: int| 0 <= k < a ==> is_white(#[trigger] text@[k]),
            forall|k: int| b <= k < n ==> is_white(#[trigger] text@[k]),
            a < n ==> !is_white(text@[a as int]),
        decreases b,
    {
        b = b - 1;
    }
    proof {
        lemma_trim_bounds(text@, a as int, b as int);
    }
    String::from_str(text.substring_char(a, b))
}

pub open spec fn status_symbol(s: CheckStatus) -> Seq<char> {
    match s {
        CheckStatus::Pass => "[PASS]"@,
        CheckStatus::Fail => "[FAIL]"@,
        CheckStatus::Warn => "[WARN]"@,
        CheckStatus::Skip => "[SKIP]"@,
    }
}

/// A labelled line when there is a value, nothing otherwise.
pub open spec fn opt_line(label: Seq<char>, v: Option<Seq<char>>) -> Seq<char> {
    match v {
        Some(t) => label + t + "\n"@,
        None => Seq::empty(),
    }
}

/// The lines of one check: symbol, layer and detail, then the root cause
/// and the suggestion when there are.
pub open spec fn check_block(c: CheckView) -> Seq<char> {
    status_symbol(c.status) + " "@ + c.layer + ": "@ + c.detail + "\n"@ + opt_line(
        "         Root cause: "@,
        c.root_cause,
    ) + opt_line("         Suggestion: "@, c.suggestion)
}

/// The lines of the first `k` checks.
pub open spec fn check_blocks(cs: Seq<CheckView>, k: int) -> Seq<char>
    decreases k,
{
    if k <= 0 {
        Seq::empty()
    } else {
        check_blocks(cs, k - 1) + check_block(cs[k - 1])
    }
}

/// How many checks have the status `st`.
pub open spec fn count_status(cs: Seq<CheckView>, st: CheckStatus) -> nat
    decreases cs.len(),
{
    if cs.len() == 0 {
        0
    } else {
        count_status(cs.drop_last(), st) + if cs.last().status == st { 1nat } else { 0nat }
    }
}

/// The decision: healthy when no check failed, else broken, followed by the
/// order in which to investigate.
pub open spec fn result_lines(cs: Seq<CheckView>) -> Seq<char> {
    if count_status(cs, CheckStatus::Fail) == 0 {
        "RESULT: INPUT METHOD HEALTHY ("@ + decimal(count_status(cs, CheckStatus::Pass)) + "/"@ + decimal(
            cs.len(),
        ) + " pass)\n"@
    } else {
        "RESULT: INPUT METHOD BROKEN ("@ + decimal(count_status(cs, CheckStatus::Fail)) + "/"@ + decimal(
            cs.len(),
        ) + " fail)\n"@ + "\n"@ + "下一排查步骤：按 7 章故障树顺序检查：\n"@
            + "  1. keyboard event     → 检查 .ime.log 'bridge submit_key' 数量\n"@
            + "  2. focus              → 检查 'outcome=Enabled' 频率\n"@
            + "  3. input context      → 检查 'input context READY' 一次性\n"@
            + "  4. composition       → 检查 'preedit \"...\"' 出现\n"@
            + "  5. candidate         → 检查 'lookup N visible=true' 出现\n"@
            + "  6. commit            → 检查 'commit \"...\"' 出现\n"@
            + "  7. application       → 检查 Java 端 'firefox.commit_received' 事件\n"@
    }
}

/// The rendered report: title, a blank line, the checks, a blank line and the decision.
pub open spec fn rendered_report(cs: Seq<CheckView>) -> Seq<char> {
    "=== WaylandCraft IME 诊断报告 ===\n"@ + "\n"@ + check_blocks(cs, cs.len() as int) + "\n"@ + result_lines(cs)
}

fn push_opt_line(out: &mut String, label: &str, v: &Option<String>)
    ensures
        final(out)@ == old(out)@ + opt_line(label@, opt_view(*v)),
{
    match v {
        Some(t) => {
            let ghost start = out@;
            out.append(label);
            out.append(t.as_str());
            out.append("\n");
            assert(out@ =~= start + opt_line(label@, opt_view(*v)));
        },
        None => {
            assert(out@ =~= out@ + opt_line(label@, opt_view(*v)));
        },
    }
}

fn push_check(out: &mut String, c: &DiagnosticCheck)
    ensures
        final(out)@ == old(out)@ + check_block(c@),
{
    let symbol = match c.status {
        CheckStatus::Pass => "[PASS]",
        CheckStatus::Fail => "[FAIL]",
        CheckStatus::Warn => "[WARN]",
        CheckStatus::Skip => "[SKIP]",
    };
    let ghost start = out@;
    let mut line = String::from_str(symbol);
    line.append(" ");
    line.append(c.layer);
    line.append(": ");
    line.append(c.detail.as_str());
    line.append("\n");
    push_opt_line(&mut line, "         Root cause: ", &c.root_cause);
    push_opt_line(&mut line, "         Suggestion: ", &c.suggestion);
    assert(line@ == check_block(c@));
    out.append(line.as_str());
}

impl DiagnosticReport {
    /// Renders the report for reading (see [`rendered_report`]).
    pub fn render(&self) -> (res: String)
        ensures
            res@ == rendered_report(checks_view(self.checks@)),
    {
        let ghost cs = checks_view(self.checks@);
        let mut out = String::from_str("=== WaylandCraft IME 诊断报告 ===\n");
        out.append("\n");
        let ghost start = out@;
        let n = self.checks.len();
        let mut pass: usize = 0;
        let mut fail: usize = 0;
        let mut i: usize = 0;
        assert(start + check_blocks(cs, 0) =~= start);
        while i < n
            invariant
                n == self.checks@.len(),
                cs == checks_view(self.checks@),
                i <= n,
                out@ == start + check_blocks(cs, i as int),
                pass == count_status(cs.take(i as int), CheckStatus::Pass),
                fail == count_status(cs.take(i as int), CheckStatus::Fail),
                pass <= i,
                fail <= i,
            decreases n - i,
        {
            proof {
                assert(cs.take(i + 1).drop_last() =~= cs.take(i as int));
                assert(cs.take(i + 1).last() == cs[i as int]);
            }
            let c = &self.checks[i];
            push_check(&mut out, c);
            assert(out@ =~= start + check_blocks(cs, i + 1));
            match c.status {
                CheckStatus::Pass => {
                    pass = pass + 1;
                },
                CheckStatus::Fail => {
                    fail = fail + 1;
                },
                _ => {},
            }
            i = i + 1;
        }
        assert(cs.take(n as int) =~= cs);
        out.append("\n");
        if fail == 0 {
            out.append("RESULT: INPUT METHOD HEALTHY (");
            push_decimal(&mut out, pass as u64);
            out.append("/");
            push_decimal(&mut out, n as u64);
            out.append(" pass)\n");
        } else {
            out.append("RESULT: INPUT METHOD BROKEN (");
            push_decimal(&mut out, fail as u64);
            out.append("/");
            push_decimal(&mut out, n as u64);
            out.append(" fail)\n");
            out.append("\n");
            out.append("下一排查步骤：按 7 章故障树顺序检查：\n");
            out.append("  1. keyboard event     → 检查 .ime.log 'bridge submit_key' 数量\n");
            out.append("  2. focus              → 检查 'outcome=Enabled' 频率\n");
            out.append("  3. input context      → 检查 'input context READY' 一次性\n");
            out.append("  4. composition       → 检查 'preedit \"...\"' 出现\n");
            out.append("  5. candidate         → 检查 'lookup N visible=true' 出现\n");
            out.append("  6. commit            → 检查 'commit \"...\"' 出现\n");
            out.append("  7. application       → 检查 Java 端 'firefox.commit_received' 事件\n");
        }
        assert(out@ =~= rendered_report(cs));
        out
    }

    /// Runs the health check on the facts read from the system, layer by
    /// layer; the first failing layer stops the run and is the last check.
    pub fn run(facts: DiagnosticFacts) -> (res: Self)
        ensures
            checks_view(res.checks@) == until_fail(all_checks(facts)),
    {
        let ghost f = facts;
        let mut checks: Vec<DiagnosticCheck> = Vec::new();
        checks.push(Self::check_environment(facts.uid, facts.gid));
        checks.push(Self::check_wayland(facts.wayland_display));
        checks.push(Self::check_dbus(facts.dbus_address));
        checks.push(Self::check_ibus_daemon(facts.process_list));
        checks.push(Self::check_ibus_engine(facts.ibus_engine));
        checks.push(Self::check_input_context(facts.host_bridge));
        checks.push(Self::check_focus(facts.app_active));
        checks.push(Self::check_surrounding());
        checks.push(Self::check_preedit());
        checks.push(Self::check_commit_history());
        checks.push(Self::check_application_received());
        assert(checks_view(checks@) =~= all_checks(f));
        let ghost all = checks_view(checks@);
        let mut kept: Vec<DiagnosticCheck> = Vec::new();
        let mut stopped = false;
        assert(all.skip(0) =~= all);
        assert(checks_view(kept@) =~= Seq::<CheckView>::empty());
        for c in it: checks.into_iter()
            invariant
                checks_view(it.seq()) == all,
                !stopped ==> until_fail(all) == checks_view(kept@) + until_fail(all.skip(it.index() as int)),
                stopped ==> until_fail(all) == checks_view(kept@),
        {
            let ghost k = it.index();
            if !stopped {
                let ghost before = checks_view(kept@);
                let fail = match c.status {
                    CheckStatus::Fail => true,
                    _ => false,
                };
                proof {
                    let rest = all.skip(k as int);
                    assert(rest[0] == all[k as int]);
                    assert(all[k as int] == c@);
                    assert(rest.drop_first() =~= all.skip(k + 1));
                }
                kept.push(c);
                assert(checks_view(kept@) =~= before.push(all[k as int]));
                if fail {
                    stopped = true;
                    assert(checks_view(kept@) =~= before + seq![all[k as int]]);
                } else {
                    assert(before + until_fail(all.skip(k as int)) =~= checks_view(kept@) + until_fail(all.skip(k + 1)));
                }
            }
        }
        proof {
            if !stopped {
                assert(all.skip(all.len() as int) =~= Seq::<CheckView>::empty());
                assert(checks_view(kept@) + Seq::<CheckView>::empty() =~= checks_view(kept@));
            }
        }
        DiagnosticReport { checks: kept }
    }

    /// The environment layer: running as root fails.
    pub fn check_environment(uid: u32, gid: u32) -> (res: DiagnosticCheck)
        ensures
            res@ == environment_check(uid, gid),
    {
        let ids = ids_text(uid, gid);
        if uid == 0 {
            DiagnosticCheck::fail(
                "environment",
                ids,
                owned("root 环境——dbus user session bus / wayland socket 通常不可用"),
                owned("以普通 desktop user 启动 MC（systemd user session 必须有 XDG_RUNTIME_DIR）"),
            )
        } else {
            let mut d = ids;
            d.append(" user=非 root");
            DiagnosticCheck::pass("environment", d)
        }
    }

    /// The Wayland session layer (`WAYLAND_DISPLAY`).
    pub fn check_wayland(display: Option<String>) -> (res: DiagnosticCheck)
        ensures
            res@ == wayland_check(opt_view(display)),
    {
        match display {
            Some(v) => if v.unicode_len() > 0 {
                DiagnosticCheck::pass("wayland_session", joined2("WAYLAND_DISPLAY=", v.as_str()))
            } else {
                DiagnosticCheck::fail(
                    "wayland_session",
                    owned("WAYLAND_DISPLAY=\"\"（空字符串）"),
                    owned("嵌套合成器启动时未传 WAYLAND_DISPLAY"),
                    owned("bridge::keyboard_input 启动嵌套应用时设 WAYLAND_DISPLAY=<our_socket>"),
                )
            },
            None => DiagnosticCheck::fail(
                "wayland_session",
                owned("WAYLAND_DISPLAY 未设"),
                owned("嵌套 firefox 启动时未设 WAYLAND_DISPLAY"),
                owned("process.rs build_universal_env_list 加 WAYLAND_DISPLAY=<our_socket>"),
            ),
        }
    }

    /// The D-Bus session layer (`DBUS_SESSION_BUS_ADDRESS`).
    pub fn check_dbus(address: Option<String>) -> (res: DiagnosticCheck)
        ensures
            res@ == dbus_check(opt_view(address)),
    {
        match address {
            Some(v) => if str_starts_with(v.as_str(), "unix:") {
                DiagnosticCheck::pass("dbus_session", joined2("DBUS_SESSION_BUS_ADDRESS=", v.as_str()))
            } else {
                DiagnosticCheck::warn(
                    "dbus_session",
                    joined3("DBUS_SESSION_BUS_ADDRESS=", v.as_str(), "（非 unix: 路径）"),
                    owned("嵌套合成器可能用别的 transport——ibus 走 session bus 默认"),
                )
            },
            None => DiagnosticCheck::fail(
                "dbus_session",
                owned("DBUS_SESSION_BUS_ADDRESS 未设"),
                owned("嵌套 firefox 启动时未传 dbus 地址"),
                owned("process.rs build_universal_env_list 加 DBUS_SESSION_BUS_ADDRESS=<host_addr>"),
            ),
        }
    }

    /// The ibus daemon layer, from the process list.
    pub fn check_ibus_daemon(process_list: Result<String, String>) -> (res: DiagnosticCheck)
        ensures
            res@ == daemon_check(res_view(process_list)),
    {
        match process_list {
            Ok(out) => {
                match find_line_with(out.as_str(), "ibus-daemon") {
                    Some(_) => {
                        let portal = match find_line_with(out.as_str(), "ibus-portal") {
                            Some(l) => l,
                            None => owned("ibus-portal 未跑"),
                        };
                        DiagnosticCheck::pass("ibus_daemon", joined2("ibus-daemon 跑着；", portal.as_str()))
                    },
                    None => DiagnosticCheck::fail(
                        "ibus_daemon",
                        owned("ibus-daemon 不在运行"),
                        owned("嵌套 firefox 找不到 IME daemon——无法连 GdkIMContext"),
                        owned("systemctl --user start ibus 或 /usr/bin/ibus-daemon --xim &"),
                    ),
                }
            },
            Err(e) => DiagnosticCheck::skip("ibus_daemon", joined2("ps 失败: ", e.as_str())),
        }
    }

    /// The ibus engine layer, from the output of `ibus engine`.
    pub fn check_ibus_engine(output: Result<String, String>) -> (res: DiagnosticCheck)
        ensures
            res@ == engine_check(res_view(output)),
    {
        match output {
            Ok(o) => {
                let engine = trim(o.as_str());
                if engine.unicode_len() == 0 {
                    DiagnosticCheck::fail(
                        "ibus_engine",
                        owned("ibus engine 输出空"),
                        owned("ibus 还没选 default engine"),
                        owned("ibus engine libpinyin 或设置 default engine"),
                    )
                } else {
                    DiagnosticCheck::pass("ibus_engine", joined2("default engine: ", engine.as_str()))
                }
            },
            Err(e) => DiagnosticCheck::skip("ibus_engine", joined2("ibus 命令失败: ", e.as_str())),
        }
    }

    /// The input-context layer: the host bridge must exist and be ready.
    pub fn check_input_context(bridge: Option<BridgeState>) -> (res: DiagnosticCheck)
        ensures
            res@ == input_context_check(
                match bridge {
                    Some(b) => Some((b.ready, b.name@)),
                    None => None,
                },
            ),
    {
        match bridge {
            Some(b) => if b.ready {
                DiagnosticCheck::pass("input_context", joined3("host_bridge READY (backend=", b.name.as_str(), ")"))
            } else {
                DiagnosticCheck::fail(
                    "input_context",
                    joined3("host_bridge 存在但 not ready (backend=", b.name.as_str(), ")"),
                    owned("ibus portal 没连上 / InputContext 创建失败 / 权限不够"),
                    owned("ibus engine / 重新插拔 ibus-daemon / 看 host_bridge probing 日志"),
                )
            },
            None => DiagnosticCheck::fail(
                "input_context",
                owned("host_bridge 是 None"),
                owned("host_bridge::probe() 失败——没找到 ibus/fcitx5 daemon"),
                owned("启动 ibus-daemon / fcitx5 / 检查 DBUS_SESSION_BUS_ADDRESS"),
            ),
        }
    }

    /// The focus layer: whether the nested application has an active session.
    pub fn check_focus(app_active: bool) -> (res: DiagnosticCheck)
        ensures
            res@ == focus_check(app_active),
    {
        if app_active {
            DiagnosticCheck::pass("focus", owned("app_active=true（嵌套应用有激活 IME 会话）"))
        } else {
            DiagnosticCheck::warn(
                "focus",
                owned("app_active=false（嵌套应用无激活 IME 会话）"),
                owned("嵌套 firefox 没获得 focus——commit 文本无法推到文本框"),
            )
        }
    }

    /// The surrounding-text layer needs data from the nested application.
    pub fn check_surrounding() -> (res: DiagnosticCheck)
        ensures
            res@ == surrounding_check(),
    {
        DiagnosticCheck::skip(
            "surrounding_text",
            owned("需要嵌套应用 ti3 提交数据——见 ime.log 的 'host_bridge flush applied' 上下文"),
        )
    }

    /// The preedit layer needs data from the nested application.
    pub fn check_preedit() -> (res: DiagnosticCheck)
        ensures
            res@ == preedit_check(),
    {
        DiagnosticCheck::skip("preedit", owned("需要 nested firefox 启用 IME——见 ime.log 的 'preedit \"...\"' 上下文"))
    }

    /// The commit layer needs the recent log.
    pub fn check_commit_history() -> (res: DiagnosticCheck)
        ensures
            res@ == commit_history_check(),
    {
        DiagnosticCheck::skip(
            "commit_history",
            owned("需扫描 ime.log 最近 1s 的 'commit \"...\"' 行——Java 端应配套 commit 计数"),
        )
    }

    /// The application layer needs confirmation from the Java side.
    pub fn check_application_received() -> (res: DiagnosticCheck)
        ensures
            res@ == application_received_check(),
    {
        DiagnosticCheck::skip(
            "application_received",
            owned(
                "需 Java 端确认：mod 通过 ti3 推的 commit 文本 firefox 文本框**实际**显示。见 Java log 'firefox.commit_received' 事件",
            ),
        )
    }
}

} // verus!
