//! Host desktop windows and the lookup of a window's geometry.

use vstd::prelude::*;
use crate::diagnostic::{is_white, is_whitespace, split_lines, text_lines, trim, trimmed};
use crate::ime_event::strings_view;
use crate::text::{
    contains_seq, find_or_zero, first_at, hex, hex4, hex_char, lemma_first_at_unique, occurs_at, parse_u32, parsed_u32,
    push_hex, signed_decimal, str_contains, str_eq, str_find,
};

verus! {

/// A window of the host desktop.
#[derive(Debug, Clone)]
pub struct DesktopWindow {
    pub window_id: String,
    pub title: String,
    pub app_id: String,
    pub pid: u32,
    pub hash: String,
    pub x: i32,
    pub y: i32,
    pub width: i32,
    pub height: i32,
}

/// Whether a window is the one asked for (its title contains the query or
/// its hash is the query) and has a non-empty area.
pub open spec fn geometry_match(w: DesktopWindow, query: Seq<char>) -> bool {
    (contains_seq(w.title@, query) || w.hash@ == query) && w.width > 0 && w.height > 0
}

/// The geometry `(x, y, width, height)` of the first matching window.
pub open spec fn first_geometry(ws: Seq<DesktopWindow>, query: Seq<char>) -> Option<(i32, i32, i32, i32)>
    decreases ws.len(),
{
    if ws.len() == 0 {
        None
    } else if geometry_match(ws[0], query) {
        Some((ws[0].x, ws[0].y, ws[0].width, ws[0].height))
    } else {
        first_geometry(ws.drop_first(), query)
    }
}

proof fn lemma_first_geometry_skip(ws: Seq<DesktopWindow>, query: Seq<char>, i: int)
    requires
        0 <= i <= ws.len(),
        forall|j: int| 0 <= j < i ==> !geometry_match(#[trigger] ws[j], query),
    ensures
        first_geometry(ws, query) == first_geometry(ws.skip(i), query),
    decreases i,
{
    if i > 0 {
        assert forall|j: int| 0 <= j < i - 1 implies !geometry_match(#[trigger] ws.drop_first()[j], query) by {
            assert(ws.drop_first()[j] == ws[j + 1]);
        }
        lemma_first_geometry_skip(ws.drop_first(), query, i - 1);
        assert(ws.drop_first().skip(i - 1) =~= ws.skip(i));
    } else {
        assert(ws.skip(0) =~= ws);
    }
}

/// The geometry of the first window whose title contains `window_title`
/// or whose hash is `window_title`, among those with a non-empty area.
pub fn get_window_geometry(windows: &[DesktopWindow], window_title: &str) -> (res: Option<(i32, i32, i32, i32)>)
    ensures
        res == first_geometry(windows@, window_title@),
{
    let n = windows.len();
    let mut i: usize = 0;
    while i < n
        invariant
            n == windows@.len(),
            i <= n,
            forall|j: int| 0 <= j < i ==> !geometry_match(#[trigger] windows@[j], window_title@),
        decreases n - i,
    {
        let w = &windows[i];
        if str_contains(w.title.as_str(), window_title) || str_eq(w.hash.as_str(), window_title) {
            if w.width > 0 && w.height > 0 {
                proof {
                    lemma_first_geometry_skip(windows@, window_title@, i as int);
                    assert(windows@.skip(i as int)[0] == windows@[i as int]);
                }
                return Some((w.x, w.y, w.width, w.height));
            }
        }
        i = i + 1;
    }
    proof {
        lemma_first_geometry_skip(windows@, window_title@, n as int);
        assert(windows@.skip(n as int).len() == 0);
    }
    None
}

/// The short hash of a process id: the low 16 bits of `pid × 2654435761`
/// (wrapping), as four lowercase hex digits.
pub open spec fn pid_hash_of(pid: u32) -> Seq<char> {
    hex4(((pid as int * 2654435761) % 0x1_0000_0000 % 0x1_0000) as nat)
}

/// The short hash of a process id (see [`pid_hash_of`]).
pub fn pid_hash(pid: u32) -> (res: String)
    ensures
        res@ == pid_hash_of(pid),
{
    let h = pid.wrapping_mul(2654435761u32);
    let low = (h & 0xFFFFu32) as u64;
    assert(h & 0xFFFFu32 == h % 0x1_0000) by (bit_vector);
    let mut s = String::new();
    crate::text::push_char(&mut s, crate::text::hex_digit(low / 4096 % 16));
    crate::text::push_char(&mut s, crate::text::hex_digit(low / 256 % 16));
    crate::text::push_char(&mut s, crate::text::hex_digit(low / 16 % 16));
    crate::text::push_char(&mut s, crate::text::hex_digit(low % 16));
    assert(s@ =~= pid_hash_of(pid));
    s
}

/// The text after its leading white space.
pub open spec fn skip_white(s: Seq<char>) -> Seq<char>
    decreases s.len(),
{
    if s.len() > 0 && is_white(s[0]) { skip_white(s.drop_first()) } else { s }
}

/// The longest prefix without white space.
pub open spec fn word_prefix(s: Seq<char>) -> Seq<char>
    decreases s.len(),
{
    if s.len() == 0 || is_white(s[0]) {
        Seq::empty()
    } else {
        seq![s[0]] + word_prefix(s.drop_first())
    }
}

/// The first white-space separated word, if any (as `split_whitespace().next()`).
pub open spec fn first_word(s: Seq<char>) -> Option<Seq<char>> {
    if skip_white(s).len() == 0 { None } else { Some(word_prefix(skip_white(s))) }
}

/// The part after the last `/` (the whole text when there is none).
pub open spec fn after_last_slash(s: Seq<char>) -> Seq<char>
    decreases s.len(),
{
    if s.len() == 0 {
        s
    } else if s.last() == '/' {
        Seq::empty()
    } else {
        after_last_slash(s.drop_last()).push(s.last())
    }
}

/// Whether `w` is the fallback window of a process with `pid` and `cmdline`.
pub open spec fn is_process_window(w: DesktopWindow, pid: i32, cmdline: Seq<char>) -> bool {
    &&& first_word(cmdline) is Some
    &&& w.title@ == after_last_slash(first_word(cmdline)->0)
    &&& w.title@.len() > 0
    &&& w.app_id@ == w.title@
    &&& w.window_id@ == signed_decimal(pid as int)
    &&& w.pid == pid as u32
    &&& w.hash@ == pid_hash_of(pid as u32)
    &&& w.x == 0 && w.y == 0 && w.width == 0 && w.height == 0
}

/// Whether a process gives a fallback window.
pub open spec fn has_process_window(cmdline: Seq<char>) -> bool {
    first_word(cmdline) is Some && after_last_slash(first_word(cmdline)->0).len() > 0
}

/// The processes that give a fallback window, in order.
pub open spec fn windowed(ps: Seq<(i32, String)>) -> Seq<(i32, String)>
    decreases ps.len(),
{
    if ps.len() == 0 {
        Seq::empty()
    } else if has_process_window(ps.last().1@) {
        windowed(ps.drop_last()).push(ps.last())
    } else {
        windowed(ps.drop_last())
    }
}

proof fn lemma_skip_white_step(s: Seq<char>, i: int)
    requires
        0 <= i < s.len(),
        forall|k: int| 0 <= k < i ==> is_white(#[trigger] s[k]),
        is_white(s[i]),
    ensures
        skip_white(s) == skip_white(s.skip(i + 1)),
    decreases i,
{
    if i > 0 {
        assert forall|k: int| 0 <= k < i - 1 implies is_white(#[trigger] s.drop_first()[k]) by {
            assert(s.drop_first()[k] == s[k + 1]);
        }
        assert(s.drop_first()[i - 1] == s[i]);
        lemma_skip_white_step(s.drop_first(), i - 1);
        assert(s.drop_first().skip(i) =~= s.skip(i + 1));
    } else {
        assert(s.drop_first() =~= s.skip(1));
    }
}

proof fn lemma_word_prefix(s: Seq<char>, b: int)
    requires
        0 <= b <= s.len(),
        forall|k: int| 0 <= k < b ==> !is_white(#[trigger] s[k]),
        b < s.len() ==> is_white(s[b]),
    ensures
        word_prefix(s) == s.take(b),
    decreases b,
{
    if b > 0 {
        assert forall|k: int| 0 <= k < b - 1 implies !is_white(#[trigger] s.drop_first()[k]) by {
            assert(s.drop_first()[k] == s[k + 1]);
        }
        if b < s.len() {
            assert(s.drop_first()[b - 1] == s[b]);
        }
        lemma_word_prefix(s.drop_first(), b - 1);
        assert(seq![s[0]] + s.drop_first().take(b - 1) =~= s.take(b));
    } else {
        assert(s.take(0) =~= Seq::<char>::empty());
    }
}

/// The first white-space separated word of `s` (see [`first_word`]).
pub fn split_first_word(s: &str) -> (res: Option<String>)
    ensures
        match res {
            Some(w) => first_word(s@) == Some(w@),
            None => first_word(s@) is None,
        },
{
    let n = s.unicode_len();
    let mut a: usize = 0;
    assert(s@.skip(0) =~= s@);
    while a < n && is_whitespace(s.get_char(a))
        invariant
            n == s@.len(),
            a <= n,
            forall|k: int| 0 <= k < a ==> is_white(#[trigger] s@[k]),
            skip_white(s@) == skip_white(s@.skip(a as int)),
        decreases n - a,
    {
        proof {
            lemma_skip_white_step(s@, a as int);
        }
        a = a + 1;
    }
    proof {
        if a < n {
            assert(s@.skip(a as int)[0] == s@[a as int]);
        }
    }
    assert(skip_white(s@.skip(a as int)) == s@.skip(a as int));
    if a == n {
        assert(s@.skip(a as int).len() == 0);
        return None;
    }
    let mut b: usize = a;
    while b < n && !is_whitespace(s.get_char(b))
        invariant
            n == s@.len(),
            a <= b <= n,
            forall|k: int| a <= k < b ==> !is_white(#[trigger] s@[k]),
        decreases n - b,
    {
        b = b + 1;
    }
    proof {
        let t = s@.skip(a as int);
        assert forall|k: int| 0 <= k < b - a implies !is_white(#[trigger] t[k]) by {
            assert(t[k] == s@[a + k]);
        }
        if b < n {
            assert(t[b - a] == s@[b as int]);
        }
        lemma_word_prefix(t, b - a);
        assert(t.take(b - a) =~= s@.subrange(a as int, b as int));
    }
    Some(String::from_str(s.substring_char(a, b)))
}

proof fn lemma_after_last_slash(s: Seq<char>, k: int)
    requires
        0 <= k <= s.len(),
        forall|j: int| k <= j < s.len() ==> #[trigger] s[j] != '/',
        k > 0 ==> s[k - 1] == '/',
    ensures
        after_last_slash(s) == s.skip(k),
    decreases s.len(),
{
    if s.len() == k {
        if k > 0 {
            assert(s.skip(k) =~= Seq::<char>::empty());
        } else {
            assert(s.skip(0) =~= s);
        }
    } else {
        lemma_after_last_slash(s.drop_last(), k);
        assert(s.drop_last().skip(k).push(s.last()) =~= s.skip(k));
    }
}

/// The part of `s` after its last `/` (see [`after_last_slash`]).
pub fn base_name(s: &str) -> (res: String)
    ensures
        res@ == after_last_slash(s@),
{
    let n = s.unicode_len();
    let mut k: usize = n;
    while k > 0 && s.get_char(k - 1) != '/'
        invariant
            n == s@.len(),
            k <= n,
            forall|j: int| k <= j < n ==> #[trigger] s@[j] != '/',
        decreases k,
    {
        k = k - 1;
    }
    proof {
        lemma_after_last_slash(s@, k as int);
        assert(s@.skip(k as int) =~= s@.subrange(k as int, n as int));
    }
    String::from_str(s.substring_char(k, n))
}

/// The fallback window list: one window per process whose command has a
/// base name (see [`is_process_window`]), in order.
pub fn get_process_list_fallback(processes: &[(i32, String)]) -> (res: Vec<DesktopWindow>)
    ensures
        res@.len() == windowed(processes@).len(),
        forall|i: int|
            0 <= i < res@.len() ==> is_process_window(
                #[trigger] res@[i],
                windowed(processes@)[i].0,
                windowed(processes@)[i].1@,
            ),
{
    let mut out: Vec<DesktopWindow> = Vec::new();
    let n = processes.len();
    let mut i: usize = 0;
    while i < n
        invariant
            n == processes@.len(),
            i <= n,
            out@.len() == windowed(processes@.take(i as int)).len(),
            forall|j: int|
                0 <= j < out@.len() ==> is_process_window(
                    #[trigger] out@[j],
                    windowed(processes@.take(i as int))[j].0,
                    windowed(processes@.take(i as int))[j].1@,
                ),
        decreases n - i,
    {
        proof {
            assert(processes@.take(i + 1).drop_last() =~= processes@.take(i as int));
            assert(processes@.take(i + 1).last() == processes@[i as int]);
        }
        let (pid, cmdline) = &processes[i];
        let ghost before = out@;
        let ghost w_old = windowed(processes@.take(i as int));
        match split_first_word(cmdline.as_str()) {
            Some(word) => {
                let base = base_name(word.as_str());
                if base.unicode_len() > 0 {
                    let mut id = String::new();
                    crate::text::push_signed_decimal(&mut id, *pid as i64);
                    let w = DesktopWindow {
                        window_id: id,
                        title: base.clone(),
                        app_id: base,
                        pid: *pid as u32,
                        hash: pid_hash(*pid as u32),
                        x: 0,
                        y: 0,
                        width: 0,
                        height: 0,
                    };
                    out.push(w);
                    proof {
                        let w_new = windowed(processes@.take(i + 1));
                        assert(w_new == w_old.push(processes@[i as int]));
                        assert forall|j: int| 0 <= j < out@.len() implies is_process_window(
                            #[trigger] out@[j],
                            w_new[j].0,
                            w_new[j].1@,
                        ) by {
                            if j < before.len() {
                                assert(out@[j] == before[j]);
                            }
                        }
                    }
                }
            },
            None => {},
        }
        i = i + 1;
    }
    assert(processes@.take(n as int) =~= processes@);
    out
}

/// `0x` and at least eight lowercase hex digits (zero-padded) of `n`.
pub open spec fn window_id_text(n: u64) -> Seq<char> {
    "0x"@ + Seq::new(
        (if hex(n as nat).len() < 8 { 8 - hex(n as nat).len() } else { 0 }) as nat,
        |i: int| '0',
    ) + hex(n as nat)
}

/// Whether `w` is the window that the extension entry
/// `(id, title, wm_class, app_id, pid)` stands for: titled by its title, or
/// by its application id when the title is empty; identified by its
/// application id, or by its window class when that is empty; no geometry.
pub open spec fn is_entry_window(w: DesktopWindow, e: (u64, String, String, String, u32)) -> bool {
    let title = if e.1@.len() > 0 { e.1@ } else { e.3@ };
    &&& w.window_id@ == window_id_text(e.0)
    &&& w.title@ == title
    &&& w.app_id@ == (if e.3@.len() > 0 { e.3@ } else { e.2@ })
    &&& w.pid == e.4
    &&& w.hash@ == pid_hash_of(e.4)
    &&& w.x == 0 && w.y == 0 && w.width == 0 && w.height == 0
}

/// Whether an extension entry gives a window (it has a title or an application id).
pub open spec fn entry_titled(e: (u64, String, String, String, u32)) -> bool {
    e.1@.len() > 0 || e.3@.len() > 0
}

/// The extension entries that give a window, in order.
pub open spec fn titled_entries(es: Seq<(u64, String, String, String, u32)>) -> Seq<(u64, String, String, String, u32)>
    decreases es.len(),
{
    if es.len() == 0 {
        Seq::empty()
    } else if entry_titled(es.last()) {
        titled_entries(es.drop_last()).push(es.last())
    } else {
        titled_entries(es.drop_last())
    }
}

fn window_id(n: u64) -> (res: String)
    ensures
        res@ == window_id_text(n),
{
    let mut digits = String::new();
    push_hex(&mut digits, n);
    let len = digits.unicode_len();
    let mut out = String::from_str("0x");
    let pad: usize = if len < 8 { 8 - len } else { 0 };
    let mut k: usize = 0;
    while k < pad
        invariant
            k <= pad,
            out@ == "0x"@ + Seq::new(k as nat, |i: int| '0'),
        decreases pad - k,
    {
        crate::text::push_char(&mut out, '0');
        assert(out@ =~= "0x"@ + Seq::new((k + 1) as nat, |i: int| '0'));
        k = k + 1;
    }
    out.append(digits.as_str());
    out
}

fn entry_window(e: (u64, String, String, String, u32)) -> (res: Option<DesktopWindow>)
    ensures
        match res {
            Some(w) => entry_titled(e) && is_entry_window(w, e),
            None => !entry_titled(e),
        },
{
    let ghost g = e;
    let (id, title, wm_class, app_id, pid) = e;
    let display_title = if title.unicode_len() > 0 { title } else { app_id.clone() };
    if display_title.unicode_len() > 0 {
        Some(
            DesktopWindow {
                window_id: window_id(id),
                title: display_title,
                app_id: if app_id.unicode_len() > 0 { app_id } else { wm_class },
                pid,
                hash: pid_hash(pid),
                x: 0,
                y: 0,
                width: 0,
                height: 0,
            },
        )
    } else {
        None
    }
}

/// The windows of the extension's `GetWindows` entries (see
/// [`is_entry_window`]); entries with neither title nor application id are
/// left out.
pub fn parse_waylandcraft_windows(entries: Vec<(u64, String, String, String, u32)>) -> (res: Vec<DesktopWindow>)
    ensures
        res@.len() == titled_entries(entries@).len(),
        forall|i: int| 0 <= i < res@.len() ==> is_entry_window(#[trigger] res@[i], titled_entries(entries@)[i]),
{
    let ghost es = entries@;
    let mut windows: Vec<DesktopWindow> = Vec::new();
    for e in it: entries.into_iter()
        invariant
            it.seq() == es,
            windows@.len() == titled_entries(es.take(it.index() as int)).len(),
            forall|j: int|
                0 <= j < windows@.len() ==> is_entry_window(
                    #[trigger] windows@[j],
                    titled_entries(es.take(it.index() as int))[j],
                ),
    {
        let ghost k = it.index();
        let ghost g = e;
        let ghost before = windows@;
        proof {
            assert(es.take(k + 1).drop_last() =~= es.take(k as int));
            assert(es.take(k + 1).last() == e);
        }
        match entry_window(e) {
            Some(w) => {
                windows.push(w);
                proof {
                    let t_new = titled_entries(es.take(k + 1));
                    assert(t_new == titled_entries(es.take(k as int)).push(g));
                    assert forall|j: int| 0 <= j < windows@.len() implies is_entry_window(
                        #[trigger] windows@[j],
                        t_new[j],
                    ) by {
                        if j < before.len() {
                            assert(windows@[j] == before[j]);
                        }
                    }
                }
            },
            None => {
                assert(titled_entries(es.take(k + 1)) == titled_entries(es.take(k as int)));
            },
        }
    }
    assert(es.take(es.len() as int) =~= es);
    windows
}

/// The text after its first word and the white space before it.
pub open spec fn after_first_word(s: Seq<char>) -> Seq<char> {
    skip_white(s).skip(word_prefix(skip_white(s)).len() as int)
}

/// The white-space separated word at position `n` (from 0), as
/// `split_whitespace().nth(n)`.
pub open spec fn nth_word(s: Seq<char>, n: nat) -> Option<Seq<char>>
    decreases n,
{
    if n == 0 {
        first_word(s)
    } else {
        nth_word(after_first_word(s), (n - 1) as nat)
    }
}

/// Where the host name of a `wmctrl -l -p` line ends: its first occurrence
/// in the line (0 when it does not occur) plus its length. The line is
/// `id desktop pid host title…`.
pub open spec fn wmctrl_host_end(line: Seq<char>) -> int {
    let host = nth_word(line, 3)->0;
    find_or_zero(line, host) + host.len()
}

/// The title of a `wmctrl` line: what follows the host name and one more
/// character, trimmed; the window id when nothing follows.
pub open spec fn wmctrl_title(line: Seq<char>) -> Seq<char> {
    let start = wmctrl_host_end(line) + 1;
    if start < line.len() {
        trimmed(line.skip(start))
    } else {
        nth_word(line, 0)->0
    }
}

/// The title is cut one byte after the host name: that is a character
/// boundary unless the character there takes more than one byte.
pub open spec fn wmctrl_line_ok(line: Seq<char>) -> bool {
    nth_word(line, 3) is Some && wmctrl_host_end(line) < line.len() ==> (line[wmctrl_host_end(line)] as int) < 128
}

/// Whether a `wmctrl` line gives a window: it has four words and a title.
pub open spec fn wmctrl_parses(line: Seq<char>) -> bool {
    nth_word(line, 3) is Some && wmctrl_title(line).len() > 0
}

/// The process id of a `wmctrl` line: its third word, 0 when that is not a number.
pub open spec fn wmctrl_pid(line: Seq<char>) -> u32 {
    match parsed_u32(nth_word(line, 2)->0) {
        Some(p) => p,
        None => 0,
    }
}

/// Whether `w` is the window of a `wmctrl` line.
pub open spec fn is_wmctrl_window(w: DesktopWindow, line: Seq<char>) -> bool {
    &&& w.window_id@ == nth_word(line, 0)->0
    &&& w.title@ == wmctrl_title(line)
    &&& w.app_id@ == "pid:"@ + nth_word(line, 2)->0
    &&& w.pid == wmctrl_pid(line)
    &&& w.hash@ == pid_hash_of(wmctrl_pid(line))
    &&& w.x == 0 && w.y == 0 && w.width == 0 && w.height == 0
}

/// The lines that give a window, in order.
pub open spec fn wmctrl_window_lines(ls: Seq<Seq<char>>) -> Seq<Seq<char>>
    decreases ls.len(),
{
    if ls.len() == 0 {
        Seq::empty()
    } else if wmctrl_parses(ls.last()) {
        wmctrl_window_lines(ls.drop_last()).push(ls.last())
    } else {
        wmctrl_window_lines(ls.drop_last())
    }
}

proof fn lemma_no_more_words(s: Seq<char>, n: nat)
    requires
        first_word(s) is None,
    ensures
        nth_word(s, n) is None,
    decreases n,
{
    if n > 0 {
        assert(after_first_word(s) =~= skip_white(s));
        assert(skip_white(s).len() == 0);
        assert(skip_white(skip_white(s)) == skip_white(s));
        lemma_no_more_words(after_first_word(s), (n - 1) as nat);
    }
}

/// The next word from position `from`: its bounds `[a, b)`.
fn word_from(s: &str, from: usize) -> (res: Option<(usize, usize)>)
    requires
        from <= s@.len(),
    ensures
        match res {
            Some((a, b)) => {
                &&& from <= a < b <= s@.len()
                &&& first_word(s@.skip(from as int)) == Some(s@.subrange(a as int, b as int))
                &&& after_first_word(s@.skip(from as int)) == s@.skip(b as int)
            },
            None => first_word(s@.skip(from as int)) is None,
        },
{
    let n = s.unicode_len();
    let ghost t = s@.skip(from as int);
    let mut a: usize = from;
    while a < n && is_whitespace(s.get_char(a))
        invariant
            n == s@.len(),
            from <= a <= n,
            t == s@.skip(from as int),
            skip_white(t) == skip_white(s@.skip(a as int)),
        decreases n - a,
    {
        proof {
            let u = s@.skip(a as int);
            assert(u[0] == s@[a as int]);
            lemma_skip_white_step(u, 0);
            assert(u.skip(1) =~= s@.skip(a + 1));
        }
        a = a + 1;
    }
    proof {
        if a < n {
            assert(s@.skip(a as int)[0] == s@[a as int]);
        }
    }
    assert(skip_white(s@.skip(a as int)) == s@.skip(a as int));
    if a == n {
        assert(s@.skip(a as int).len() == 0);
        return None;
    }
    let mut b: usize = a;
    while b < n && !is_whitespace(s.get_char(b))
        invariant
            n == s@.len(),
            a <= b <= n,
            forall|k: int| a <= k < b ==> !is_white(#[trigger] s@[k]),
        decreases n - b,
    {
        b = b + 1;
    }
    proof {
        let u = s@.skip(a as int);
        assert forall|k: int| 0 <= k < b - a implies !is_white(#[trigger] u[k]) by {
            assert(u[k] == s@[a + k]);
        }
        if b < n {
            assert(u[b - a] == s@[b as int]);
        }
        lemma_word_prefix(u, b - a);
        assert(u.take(b - a) =~= s@.subrange(a as int, b as int));
        assert(u.skip(b - a) =~= s@.skip(b as int));
    }
    Some((a, b))
}

/// The bounds of the window id, the pid and the host name of a `wmctrl`
/// line, and where the host name ends (see [`wmctrl_host_end`]).
struct WmctrlFields {
    id: (usize, usize),
    pid: (usize, usize),
    host_end: usize,
}

fn wmctrl_fields(line: &str) -> (res: Option<WmctrlFields>)
    ensures
        match res {
            Some(f) => {
                &&& nth_word(line@, 3) is Some
                &&& f.id.0 <= f.id.1 <= line@.len()
                &&& f.pid.0 <= f.pid.1 <= line@.len()
                &&& nth_word(line@, 0) == Some(line@.subrange(f.id.0 as int, f.id.1 as int))
                &&& nth_word(line@, 2) == Some(line@.subrange(f.pid.0 as int, f.pid.1 as int))
                &&& f.host_end == wmctrl_host_end(line@)
                &&& f.host_end <= line@.len()
            },
            None => nth_word(line@, 3) is None,
        },
{
    let ghost l = line@;
    assert(l.skip(0) =~= l);
    let w0 = match word_from(line, 0) {
        Some(w) => w,
        None => {
            proof {
                lemma_no_more_words(l, 3);
            }
            return None;
        },
    };
    assert(nth_word(l, 0) == first_word(l));
    let w1 = match word_from(line, w0.1) {
        Some(w) => w,
        None => {
            proof {
                lemma_no_more_words(l.skip(w0.1 as int), 2);
                assert(nth_word(l, 3) == nth_word(after_first_word(l), 2));
            }
            return None;
        },
    };
    let w2 = match word_from(line, w1.1) {
        Some(w) => w,
        None => {
            proof {
                lemma_no_more_words(l.skip(w1.1 as int), 1);
                assert(nth_word(l, 3) == nth_word(after_first_word(l), 2));
                assert(nth_word(l.skip(w0.1 as int), 2) == nth_word(after_first_word(l.skip(w0.1 as int)), 1));
            }
            return None;
        },
    };
    let w3 = match word_from(line, w2.1) {
        Some(w) => w,
        None => {
            proof {
                assert(nth_word(l, 3) == nth_word(after_first_word(l), 2));
                assert(nth_word(l.skip(w0.1 as int), 2) == nth_word(after_first_word(l.skip(w0.1 as int)), 1));
                assert(nth_word(l.skip(w1.1 as int), 1) == nth_word(after_first_word(l.skip(w1.1 as int)), 0));
            }
            return None;
        },
    };
    proof {
        assert(nth_word(l, 2) == nth_word(after_first_word(l), 1));
        assert(nth_word(l.skip(w0.1 as int), 1) == nth_word(after_first_word(l.skip(w0.1 as int)), 0));
        assert(nth_word(l, 3) == nth_word(after_first_word(l), 2));
        assert(nth_word(l.skip(w0.1 as int), 2) == nth_word(after_first_word(l.skip(w0.1 as int)), 1));
        assert(nth_word(l.skip(w1.1 as int), 1) == nth_word(after_first_word(l.skip(w1.1 as int)), 0));
    }
    let host = line.substring_char(w3.0, w3.1);
    let host_len = w3.1 - w3.0;
    let line_len = line.unicode_len();
    let start = match str_find(line, host) {
        Some(i) => {
            proof {
                lemma_first_at_unique(l, host@, i as int, choose|j: int| first_at(l, host@, j));
            }
            i
        },
        None => 0,
    };
    assert(start + host_len <= line_len) by {
        if contains_seq(l, host@) {
            assert(occurs_at(l, host@, start as int));
        }
    }
    Some(WmctrlFields { id: w0, pid: w2, host_end: start + host_len })
}

/// Whether the title of a `wmctrl` line can be cut where `wmctrl -l -p`
/// parsing cuts it (see [`wmctrl_line_ok`]).
pub fn wmctrl_line_in_bounds(line: &str) -> (res: bool)
    ensures
        res == wmctrl_line_ok(line@),
{
    match wmctrl_fields(line) {
        Some(f) => {
            if f.host_end < line.unicode_len() {
                (line.get_char(f.host_end) as u32) < 128
            } else {
                true
            }
        },
        None => true,
    }
}

/// The window of one `wmctrl -l -p` line (see [`is_wmctrl_window`]), if it
/// has four words and a title.
pub fn parse_wmctrl_line(line: &str) -> (res: Option<DesktopWindow>)
    requires
        wmctrl_line_ok(line@),
    ensures
        match res {
            Some(w) => wmctrl_parses(line@) && is_wmctrl_window(w, line@),
            None => !wmctrl_parses(line@),
        },
{
    let f = match wmctrl_fields(line) {
        Some(f) => f,
        None => return None,
    };
    let n = line.unicode_len();
    let title = if f.host_end < n && f.host_end + 1 < n {
        trim(line.substring_char(f.host_end + 1, n))
    } else {
        String::from_str(line.substring_char(f.id.0, f.id.1))
    };
    assert(line@.subrange(f.host_end + 1, n as int) =~= line@.skip(f.host_end + 1));
    if title.unicode_len() == 0 {
        return None;
    }
    let pid_text = line.substring_char(f.pid.0, f.pid.1);
    let pid = match parse_u32(pid_text) {
        Some(p) => p,
        None => 0,
    };
    let mut app_id = String::from_str("pid:");
    app_id.append(pid_text);
    Some(
        DesktopWindow {
            window_id: String::from_str(line.substring_char(f.id.0, f.id.1)),
            title,
            app_id,
            pid,
            hash: pid_hash(pid),
            x: 0,
            y: 0,
            width: 0,
            height: 0,
        },
    )
}

/// Whether every line of a `wmctrl` output can be cut (see [`wmctrl_line_ok`]).
pub open spec fn wmctrl_output_ok(out: Seq<char>) -> bool {
    forall|i: int| 0 <= i < text_lines(out).len() ==> wmctrl_line_ok(#[trigger] text_lines(out)[i])
}

/// Whether every line of a `wmctrl` output can be cut (see [`wmctrl_output_ok`]).
pub fn wmctrl_output_in_bounds(out: &str) -> (res: bool)
    ensures
        res == wmctrl_output_ok(out@),
{
    let lines = split_lines(out);
    let ghost lv = strings_view(lines@);
    let mut i: usize = 0;
    while i < lines.len()
        invariant
            lv == strings_view(lines@),
            lv == text_lines(out@),
            i <= lines@.len(),
            forall|j: int| 0 <= j < i ==> wmctrl_line_ok(#[trigger] lv[j]),
        decreases lines@.len() - i,
    {
        assert(lv[i as int] == lines@[i as int]@);
        if !wmctrl_line_in_bounds(lines[i].as_str()) {
            return false;
        }
        i = i + 1;
    }
    true
}

/// The windows listed by `wmctrl -l -p`, one per line that gives one (see
/// [`wmctrl_window_lines`] and [`is_wmctrl_window`]).
pub fn parse_wmctrl_output(out: &str) -> (res: Vec<DesktopWindow>)
    requires
        wmctrl_output_ok(out@),
    ensures
        res@.len() == wmctrl_window_lines(text_lines(out@)).len(),
        forall|i: int|
            0 <= i < res@.len() ==> is_wmctrl_window(#[trigger] res@[i], wmctrl_window_lines(text_lines(out@))[i]),
{
    let lines = split_lines(out);
    let ghost lv = strings_view(lines@);
    let mut windows: Vec<DesktopWindow> = Vec::new();
    let mut i: usize = 0;
    while i < lines.len()
        invariant
            lv == strings_view(lines@),
            lv == text_lines(out@),
            wmctrl_output_ok(out@),
            i <= lines@.len(),
            windows@.len() == wmctrl_window_lines(lv.take(i as int)).len(),
            forall|j: int|
                0 <= j < windows@.len() ==> is_wmctrl_window(#[trigger] windows@[j], wmctrl_window_lines(lv.take(i as int))[j]),
        decreases lines@.len() - i,
    {
        let ghost before = windows@;
        let line = lines[i].as_str();
        proof {
            assert(lv[i as int] == line@);
            assert(wmctrl_line_ok(lv[i as int]));
            assert(lv.take(i + 1).drop_last() =~= lv.take(i as int));
            assert(lv.take(i + 1).last() == line@);
        }
        match parse_wmctrl_line(line) {
            Some(w) => {
                windows.push(w);
                proof {
                    let t_new = wmctrl_window_lines(lv.take(i + 1));
                    assert(t_new == wmctrl_window_lines(lv.take(i as int)).push(line@));
                    assert forall|j: int| 0 <= j < windows@.len() implies is_wmctrl_window(
                        #[trigger] windows@[j],
                        t_new[j],
                    ) by {
                        if j < before.len() {
                            assert(windows@[j] == before[j]);
                        }
                    }
                }
            },
            None => {
                assert(wmctrl_window_lines(lv.take(i + 1)) == wmctrl_window_lines(lv.take(i as int)));
            },
        }
        i = i + 1;
    }
    assert(lv.take(lines@.len() as int) =~= lv);
    windows
}

/// Two to the power `n`.
pub open spec fn two_pow(n: nat) -> nat
    decreases n,
{
    if n == 0 {
        1
    } else {
        2 * two_pow((n - 1) as nat)
    }
}

/// The wait before retrying after failed attempt `attempt` (from 0): the
/// base delay times `2^attempt`, when both `2^attempt` and the product fit
/// in a `u64`.
pub open spec fn backoff_delay_of(base_delay_ms: u64, attempt: u32) -> Option<u64> {
    if two_pow(attempt as nat) <= u64::MAX && base_delay_ms * two_pow(attempt as nat) <= u64::MAX {
        Some((base_delay_ms * two_pow(attempt as nat)) as u64)
    } else {
        None
    }
}

proof fn lemma_two_pow_grows(a: nat, b: nat)
    requires
        a <= b,
    ensures
        two_pow(a) <= two_pow(b),
        two_pow(a) >= 1,
    decreases b,
{
    if b > a {
        lemma_two_pow_grows(a, (b - 1) as nat);
    } else if a > 0 {
        lemma_two_pow_grows((a - 1) as nat, (a - 1) as nat);
    }
}

/// The retry delay (see [`backoff_delay_of`]); `None` where the
/// computation overflows.
pub fn backoff_delay(base_delay_ms: u64, attempt: u32) -> (res: Option<u64>)
    ensures
        res == backoff_delay_of(base_delay_ms, attempt),
{
    let mut p: u64 = 1;
    let mut k: u32 = 0;
    while k < attempt
        invariant
            k <= attempt,
            p == two_pow(k as nat),
        decreases attempt - k,
    {
        match p.checked_mul(2) {
            Some(q) => p = q,
            None => {
                proof {
                    lemma_two_pow_grows((k + 1) as nat, attempt as nat);
                }
                return None;
            },
        }
        k = k + 1;
    }
    base_delay_ms.checked_mul(p)
}

/// The PNG path in the reply of the extension's `CaptureWindow`, a JSON
/// text such as `{"ok": true, "path": "/tmp/x.png"}`: the reply must
/// contain `true`; the path is the first quoted text after the first
/// `"path":`.
pub open spec fn capture_path_of(reply: Seq<char>) -> Result<Seq<char>, Seq<char>> {
    if !contains_seq(reply, "true"@) {
        Err("CaptureWindow failed: "@ + reply)
    } else if !contains_seq(reply, "\"path\":"@) {
        Err("no path field"@)
    } else {
        let after = reply.skip(find_or_zero(reply, "\"path\":"@) + 7);
        if !contains_seq(after, "\""@) {
            Err("no open quote"@)
        } else {
            let rest = after.skip(find_or_zero(after, "\""@) + 1);
            if !contains_seq(rest, "\""@) {
                Err("no close quote"@)
            } else {
                Ok(rest.take(find_or_zero(rest, "\""@)))
            }
        }
    }
}

fn find_known(hay: &str, needle: &str) -> (res: Option<usize>)
    ensures
        match res {
            Some(i) => contains_seq(hay@, needle@) && i == find_or_zero(hay@, needle@) && i + needle@.len() <= hay@.len(),
            None => !contains_seq(hay@, needle@),
        },
{
    match str_find(hay, needle) {
        Some(i) => {
            proof {
                lemma_first_at_unique(hay@, needle@, i as int, choose|j: int| first_at(hay@, needle@, j));
            }
            Some(i)
        },
        None => None,
    }
}

/// Reads the PNG path out of a `CaptureWindow` reply (see [`capture_path_of`]).
pub fn capture_png_path(reply: &str) -> (res: Result<String, String>)
    ensures
        match res {
            Ok(p) => capture_path_of(reply@) == Ok::<Seq<char>, Seq<char>>(p@),
            Err(m) => capture_path_of(reply@) == Err::<Seq<char>, Seq<char>>(m@),
        },
{
    if !str_contains(reply, "true") {
        let mut m = String::from_str("CaptureWindow failed: ");
        m.append(reply);
        return Err(m);
    }
    let n = reply.unicode_len();
    let pos = match find_known(reply, "\"path\":") {
        Some(p) => p,
        None => return Err(String::from_str("no path field")),
    };
    proof {
        reveal_strlit("\"path\":");
    }
    let after = reply.substring_char(pos + 7, n);
    assert(after@ =~= reply@.skip(pos + 7));
    let an = after.unicode_len();
    let q1 = match find_known(after, "\"") {
        Some(q) => q,
        None => return Err(String::from_str("no open quote")),
    };
    proof {
        reveal_strlit("\"");
    }
    let rest = after.substring_char(q1 + 1, an);
    assert(rest@ =~= after@.skip(q1 + 1));
    let q2 = match find_known(rest, "\"") {
        Some(q) => q,
        None => return Err(String::from_str("no close quote")),
    };
    let path = rest.substring_char(0, q2);
    assert(path@ =~= rest@.take(q2 as int));
    Ok(String::from_str(path))
}

/// The lowercase hex digits of `n`, zero-padded to at least `width` digits.
pub open spec fn hex_padded(n: nat, width: nat) -> Seq<char> {
    Seq::new((if hex(n).len() < width { width - hex(n).len() } else { 0 }) as nat, |i: int| '0') + hex(n)
}

fn push_hex_padded(out: &mut String, n: u64, width: usize)
    ensures
        final(out)@ == old(out)@ + hex_padded(n as nat, width as nat),
{
    let mut digits = String::new();
    push_hex(&mut digits, n);
    let len = digits.unicode_len();
    let pad: usize = if len < width { width - len } else { 0 };
    let ghost start = out@;
    let mut k: usize = 0;
    while k < pad
        invariant
            k <= pad,
            out@ == start + Seq::new(k as nat, |i: int| '0'),
        decreases pad - k,
    {
        crate::text::push_char(out, '0');
        assert(out@ =~= start + Seq::new((k + 1) as nat, |i: int| '0'));
        k = k + 1;
    }
    out.append(digits.as_str());
    assert(out@ =~= start + hex_padded(n as nat, width as nat));
}

/// Whether a toplevel `(title, app_id)` gives a window (it has a title or
/// an application id).
pub open spec fn toplevel_named(e: (String, String)) -> bool {
    e.0@.len() > 0 || e.1@.len() > 0
}

/// The toplevels that give a window, in order.
pub open spec fn named_toplevels(es: Seq<(String, String)>) -> Seq<(String, String)>
    decreases es.len(),
{
    if es.len() == 0 {
        Seq::empty()
    } else if toplevel_named(es.last()) {
        named_toplevels(es.drop_last()).push(es.last())
    } else {
        named_toplevels(es.drop_last())
    }
}

/// Whether `w` is the `i`-th window of the toplevel list, for toplevel
/// `e`: numbered by its place among the named toplevels, titled by its
/// title or else its application id; no process and no geometry.
pub open spec fn is_toplevel_window(w: DesktopWindow, i: nat, e: (String, String)) -> bool {
    &&& w.window_id@ == "0x"@ + hex_padded(i, 4)
    &&& w.title@ == (if e.0@.len() > 0 { e.0@ } else { e.1@ })
    &&& w.app_id@ == e.1@
    &&& w.pid == 0
    &&& w.hash@ == hex_padded(i, 4)
    &&& w.x == 0 && w.y == 0 && w.width == 0 && w.height == 0
}

/// The windows of the toplevels that a wlroots compositor lists, as
/// `(title, app_id)` (see [`is_toplevel_window`]).
pub fn toplevel_windows(entries: Vec<(String, String)>) -> (res: Vec<DesktopWindow>)
    ensures
        res@.len() == named_toplevels(entries@).len(),
        forall|i: int| 0 <= i < res@.len() ==> is_toplevel_window(#[trigger] res@[i], i as nat, named_toplevels(entries@)[i]),
{
    let ghost es = entries@;
    let mut windows: Vec<DesktopWindow> = Vec::new();
    for e in it: entries.into_iter()
        invariant
            it.seq() == es,
            windows@.len() == named_toplevels(es.take(it.index() as int)).len(),
            forall|j: int|
                0 <= j < windows@.len() ==> is_toplevel_window(
                    #[trigger] windows@[j],
                    j as nat,
                    named_toplevels(es.take(it.index() as int))[j],
                ),
    {
        let ghost k = it.index();
        let ghost g = e;
        let ghost before = windows@;
        proof {
            assert(es.take(k + 1).drop_last() =~= es.take(k as int));
            assert(es.take(k + 1).last() == e);
        }
        let (title, app_id) = e;
        if title.unicode_len() > 0 || app_id.unicode_len() > 0 {
            let n = windows.len();
            let mut id = String::from_str("0x");
            push_hex_padded(&mut id, n as u64, 4);
            let mut hash = String::new();
            push_hex_padded(&mut hash, n as u64, 4);
            assert(hash@ =~= hex_padded(n as nat, 4));
            let shown = if title.unicode_len() > 0 { title } else { app_id.clone() };
            windows.push(
                DesktopWindow { window_id: id, title: shown, app_id, pid: 0, hash, x: 0, y: 0, width: 0, height: 0 },
            );
            proof {
                let t_new = named_toplevels(es.take(k + 1));
                assert(t_new == named_toplevels(es.take(k as int)).push(g));
                assert forall|j: int| 0 <= j < windows@.len() implies is_toplevel_window(
                    #[trigger] windows@[j],
                    j as nat,
                    t_new[j],
                ) by {
                    if j < before.len() {
                        assert(windows@[j] == before[j]);
                    }
                }
            }
        } else {
            assert(named_toplevels(es.take(k + 1)) == named_toplevels(es.take(k as int)));
        }
    }
    assert(es.take(es.len() as int) =~= es);
    windows
}

/// A window built from an extension entry is titled by the entry's title
/// whenever that is not empty; the application id stands for the title only
/// when the title is empty. The window is identified by the application id,
/// or by the window class when there is none, and belongs to the entry's
/// process.
pub proof fn law_entry_window_keeps_its_title(w: DesktopWindow, e: (u64, String, String, String, u32))
    requires
        is_entry_window(w, e),
    ensures
        e.1@.len() > 0 ==> w.title@ == e.1@,
        e.1@.len() == 0 ==> w.title@ == e.3@,
        e.3@.len() > 0 ==> w.app_id@ == e.3@,
        e.3@.len() == 0 ==> w.app_id@ == e.2@,
        w.pid == e.4,
{
}

} // verus!
