//! Launching nested applications: sandbox detection, the flatpak options
//! that expose our sockets, the environment and `bash -c` script of every
//! other program, and shell quoting.
//!
//! Only sandbox runners (flatpak, snap) are recognised; every other program
//! is started through a script that exports one environment for all
//! toolkits (Wayland first, X11 as fallback), so it picks its own backend.

use vstd::prelude::*;
use crate::ime_event::strings_view;
use crate::text::{contains_seq, decimal, occurs_at, push_char, push_decimal, str_contains, str_eq, str_starts_with};

verus! {

/// The result of `str::to_lowercase` on a text (Unicode lowercase mapping).
pub uninterp spec fn lowercase(s: Seq<char>) -> Seq<char>;

/// Calls `str::to_lowercase`; its result is named [`lowercase`] (it
/// depends on the text alone).
#[verifier::external_body]
fn to_lower(s: &str) -> (res: String)
    ensures
        res@ == lowercase(s@),
{
    s.to_lowercase()
}

/// Whether `char::is_alphanumeric` holds (Unicode `Alphabetic` or `Numeric`).
pub uninterp spec fn alphanumeric(c: char) -> bool;

/// Whether a character is an ASCII letter or digit.
pub open spec fn ascii_alnum(c: char) -> bool {
    ('a' <= c && c <= 'z') || ('A' <= c && c <= 'Z') || ('0' <= c && c <= '9')
}

/// Calls `char::is_alphanumeric`; its result is named [`alphanumeric`]. The
/// function holds of the characters with the Unicode `Alphabetic` property
/// or a numeric general category, as its documentation says; among the
/// ASCII characters these are exactly the letters and the digits.
#[verifier::external_body]
fn is_alnum(c: char) -> (res: bool)
    ensures
        res == alphanumeric(c),
        c <= '\u{7f}' ==> (res == ascii_alnum(c)),
{
    c.is_alphanumeric()
}

/// Whether `hay` ends with `needle`.
pub open spec fn ends_with(hay: Seq<char>, needle: Seq<char>) -> bool {
    needle.len() <= hay.len() && occurs_at(hay, needle, hay.len() - needle.len())
}

fn str_ends_with(hay: &str, needle: &str) -> (res: bool)
    ensures
        res == ends_with(hay@, needle@),
{
    let hn = hay.unicode_len();
    let nn = needle.unicode_len();
    if nn > hn {
        return false;
    }
    let tail = hay.substring_char(hn - nn, hn);
    str_eq(tail, needle)
}

/// The sandbox runner of a command that is already lowercase: `"flatpak"`,
/// `"snap"` or `"app"`.
pub open spec fn app_type_of_lowercase(l: Seq<char>) -> Seq<char> {
    if ends_with(l, "/flatpak"@) || l == "flatpak"@ || ends_with(l, "/flatpak-spawn"@) {
        "flatpak"@
    } else if ends_with(l, "/snap"@) || l == "snap"@ || ends_with(l, "/snap-confine"@) || contains_seq(
        l,
        "/snap/bin/"@,
    ) {
        "snap"@
    } else {
        "app"@
    }
}

/// The sandbox runner a command is, judged on the lowercase command.
pub open spec fn app_type(cmd: Seq<char>) -> Seq<char> {
    app_type_of_lowercase(lowercase(cmd))
}

/// The sandbox runner of an already lowercase command (see
/// [`app_type_of_lowercase`]).
pub fn runner_of_lowercase(l: &str) -> (res: &'static str)
    ensures
        res@ == app_type_of_lowercase(l@),
{
    if str_ends_with(l, "/flatpak") || str_eq(l, "flatpak") || str_ends_with(l, "/flatpak-spawn") {
        return "flatpak";
    }
    if str_ends_with(l, "/snap") || str_eq(l, "snap") || str_ends_with(l, "/snap-confine") || str_contains(
        l,
        "/snap/bin/",
    ) {
        return "snap";
    }
    "app"
}

/// Detects the sandbox runner of a command (see [`app_type`]).
pub fn detect_app_type(cmd: &str) -> (res: &'static str)
    ensures
        res@ == app_type(cmd@),
{
    let lower = to_lower(cmd);
    runner_of_lowercase(lower.as_str())
}

/// Whether an argument is an option (starts with `-`).
pub open spec fn is_option(a: Seq<char>) -> bool {
    a.len() > 0 && a[0] == '-'
}

/// Where the flatpak options go: before the application id, the first
/// argument after `run` that is neither `run` nor an option; at the end
/// when there is none. `found` tells whether `run` was seen before `i`.
pub open spec fn app_id_index(args: Seq<Seq<char>>, i: int, found: bool) -> int
    decreases args.len() - i,
{
    if i >= args.len() || i < 0 {
        args.len() as int
    } else if args[i] == "run"@ {
        app_id_index(args, i + 1, true)
    } else if found && !is_option(args[i]) {
        i
    } else {
        app_id_index(args, i + 1, found)
    }
}

/// The display number of an X display name: without its leading colons.
pub open spec fn display_number(d: Seq<char>) -> Seq<char>
    decreases d.len(),
{
    if d.len() > 0 && d[0] == ':' { display_number(d.drop_first()) } else { d }
}

/// The flatpak options that expose the Wayland, X11 and PulseAudio sockets
/// and point the sandbox at our displays.
pub open spec fn flatpak_options(wayland_display: Seq<char>, display: Seq<char>) -> Seq<Seq<char>> {
    seq!["--socket=wayland"@, "--env=WAYLAND_DISPLAY="@ + wayland_display, "--socket=x11"@, "--socket=pulseaudio"@]
        + if display.len() > 0 && display_number(display).len() > 0 {
        seq!["--filesystem=/tmp/.X11-unix/X"@ + display_number(display), "--env=DISPLAY="@ + display]
    } else {
        Seq::empty()
    }
}

fn concat(a: &str, b: &str) -> (res: String)
    ensures
        res@ == a@ + b@,
{
    let mut s = String::from_str(a);
    s.append(b);
    s
}

fn strip_colons(d: &str) -> (res: String)
    ensures
        res@ == display_number(d@),
{
    let n = d.unicode_len();
    let mut i: usize = 0;
    assert(d@.skip(0) =~= d@);
    while i < n && d.get_char(i) == ':'
        invariant
            n == d@.len(),
            i <= n,
            display_number(d@) == display_number(d@.skip(i as int)),
        decreases n - i,
    {
        assert(d@.skip(i as int).drop_first() =~= d@.skip(i + 1));
        i = i + 1;
    }
    assert(d@.skip(i as int) =~= d@.subrange(i as int, n as int));
    String::from_str(d.substring_char(i, n))
}

/// Inserts the flatpak options before the application id of a
/// `flatpak run` command line (see [`app_id_index`] and [`flatpak_options`]).
pub fn inject_flatpak_env(args: &mut Vec<String>, wayland_display: &str, display: &str)
    ensures
        ({
            let before = strings_view(old(args)@);
            let pos = app_id_index(before, 0, false);
            strings_view(final(args)@) == before.take(pos) + flatpak_options(wayland_display@, display@)
                + before.skip(pos)
        }),
{
    let ghost before = strings_view(args@);
    let n = args.len();
    let mut insert_pos = n;
    let mut found_run = false;
    let mut settled = false;
    let mut i: usize = 0;
    proof {
        reveal_strlit("-");
    }
    while i < n && !settled
        invariant
            n == args@.len(),
            before == strings_view(args@),
            i <= n,
            !settled ==> app_id_index(before, 0, false) == app_id_index(before, i as int, found_run),
            settled ==> insert_pos == app_id_index(before, 0, false),
            !settled ==> insert_pos == n,
            insert_pos <= n,
        decreases n - i + (if settled { 0int } else { 1int }),
    {
        proof {
            reveal_strlit("-");
        }
        let a = args[i].as_str();
        assert(before[i as int] == a@);
        if str_eq(a, "run") {
            found_run = true;
            i = i + 1;
        } else if found_run && !str_starts_with(a, "-") {
            assert(!is_option(a@)) by {
                if a@.len() > 0 && a@[0] == '-' {
                    assert(a@.subrange(0, 1) =~= "-"@);
                }
            }
            insert_pos = i;
            settled = true;
        } else {
            assert(found_run ==> is_option(a@)) by {
                if found_run {
                    assert(occurs_at(a@, "-"@, 0));
                    assert(a@.len() >= 1);
                    assert(a@.subrange(0, 1)[0] == a@[0]);
                }
            }
            i = i + 1;
        }
    }
    let mut opts: Vec<String> = Vec::new();
    opts.push(String::from_str("--socket=wayland"));
    opts.push(concat("--env=WAYLAND_DISPLAY=", wayland_display));
    opts.push(String::from_str("--socket=x11"));
    opts.push(String::from_str("--socket=pulseaudio"));
    if display.unicode_len() > 0 {
        let dpy = strip_colons(display);
        if dpy.unicode_len() > 0 {
            opts.push(concat("--filesystem=/tmp/.X11-unix/X", dpy.as_str()));
            opts.push(concat("--env=DISPLAY=", display));
        }
    }
    let ghost ov = strings_view(opts@);
    assert(ov =~= flatpak_options(wayland_display@, display@));
    let m = opts.len();
    let mut k: usize = 0;
    assert(before.take(insert_pos as int) + ov.take(0) + before.skip(insert_pos as int) =~= before);
    while k < m
        invariant
            m == opts@.len(),
            ov == strings_view(opts@),
            k <= m,
            insert_pos <= n,
            n == before.len(),
            args@.len() == n + k,
            strings_view(args@) == before.take(insert_pos as int) + ov.take(k as int) + before.skip(
                insert_pos as int,
            ),
        decreases m - k,
    {
        let ghost cur = args@;
        let cur_len = args.len();
        assert(insert_pos + k <= cur_len);
        let item = opts[k].clone();
        args.insert(insert_pos + k, item);
        proof {
            let p = insert_pos + k;
            assert(args@ == cur.insert(p as int, item));
            assert(strings_view(args@) =~= strings_view(cur).insert(p as int, ov[k as int]));
            assert(ov.take(k + 1) =~= ov.take(k as int).push(ov[k as int]));
            assert(strings_view(args@) =~= before.take(insert_pos as int) + ov.take(k + 1) + before.skip(
                insert_pos as int,
            ));
        }
        k = k + 1;
    }
    assert(ov.take(m as int) =~= ov);
}

/// Whether a character needs no quoting, given whether it is alphanumeric.
pub open spec fn plain_char_given(c: char, alnum: bool) -> bool {
    alnum || c == '-' || c == '_' || c == '.' || c == '/' || c == '='
}

/// Whether a character needs no quoting.
pub open spec fn plain_char(c: char) -> bool {
    plain_char_given(c, alphanumeric(c))
}

/// The text with each `'` written as `'\''`.
pub open spec fn quote_body(s: Seq<char>) -> Seq<char>
    decreases s.len(),
{
    if s.len() == 0 {
        s
    } else {
        quote_body(s.drop_last()) + if s.last() == '\'' { seq!['\'', '\\', '\'', '\''] } else { seq![s.last()] }
    }
}

/// The shell-quoted form of an argument, given for each character whether
/// it is alphanumeric: `''` when empty, the argument itself when every
/// character is plain, else single-quoted.
pub open spec fn shell_quoted_given(s: Seq<char>, alnum: Seq<bool>) -> Seq<char> {
    if s.len() == 0 {
        seq!['\'', '\'']
    } else if forall|i: int| 0 <= i < s.len() ==> plain_char_given(#[trigger] s[i], alnum[i]) {
        s
    } else {
        seq!['\''] + quote_body(s) + seq!['\'']
    }
}

/// Whether each character of a text is alphanumeric.
pub open spec fn alnum_flags(s: Seq<char>) -> Seq<bool> {
    Seq::new(s.len(), |i: int| alphanumeric(s[i]))
}

/// The shell-quoted form of an argument (see [`shell_quoted_given`]).
pub open spec fn shell_quoted(s: Seq<char>) -> Seq<char> {
    shell_quoted_given(s, alnum_flags(s))
}

/// Quotes an argument for a POSIX shell, given for each character whether
/// it is alphanumeric (see [`shell_quoted_given`]).
pub fn shell_quote_given(s: &str, alnum: &Vec<bool>) -> (res: String)
    requires
        alnum@.len() == s@.len(),
    ensures
        res@ == shell_quoted_given(s@, alnum@),
{
    let n = s.unicode_len();
    if n == 0 {
        let mut e = String::new();
        push_char(&mut e, '\'');
        push_char(&mut e, '\'');
        assert(e@ =~= seq!['\'', '\'']);
        return e;
    }
    let mut i: usize = 0;
    let mut plain = true;
    while i < n
        invariant
            n == s@.len(),
            n == alnum@.len(),
            i <= n,
            plain == forall|j: int| 0 <= j < i ==> plain_char_given(#[trigger] s@[j], alnum@[j]),
        decreases n - i,
    {
        let c = s.get_char(i);
        let ok = alnum[i] || c == '-' || c == '_' || c == '.' || c == '/' || c == '=';
        if !ok {
            plain = false;
        }
        proof {
            if plain {
                assert forall|j: int| 0 <= j < i + 1 implies plain_char_given(#[trigger] s@[j], alnum@[j]) by {
                    if j == i {
                        assert(s@[j] == c);
                    }
                }
            }
        }
        i = i + 1;
    }
    if plain {
        return String::from_str(s);
    }
    let mut out = String::new();
    push_char(&mut out, '\'');
    let mut k: usize = 0;
    while k < n
        invariant
            n == s@.len(),
            k <= n,
            out@ == seq!['\''] + quote_body(s@.take(k as int)),
        decreases n - k,
    {
        let c = s.get_char(k);
        if c == '\'' {
            push_char(&mut out, '\'');
            push_char(&mut out, '\\');
            push_char(&mut out, '\'');
            push_char(&mut out, '\'');
        } else {
            push_char(&mut out, c);
        }
        proof {
            assert(s@.take(k + 1).drop_last() =~= s@.take(k as int));
            assert(s@.take(k + 1).last() == c);
            assert(out@ =~= seq!['\''] + quote_body(s@.take(k + 1)));
        }
        k = k + 1;
    }
    push_char(&mut out, '\'');
    assert(s@.take(n as int) =~= s@);
    assert(out@ =~= seq!['\''] + quote_body(s@) + seq!['\'']);
    out
}

/// Quotes an argument for a POSIX shell (see [`shell_quoted`]); a shell
/// reads the result back as the one original word (see [`shell_read`]).
pub fn shell_quote(s: &str) -> (res: String)
    ensures
        res@ == shell_quoted(s@),
        shell_read(res@) == Some(s@),
{
    let n = s.unicode_len();
    let mut flags: Vec<bool> = Vec::new();
    let mut i: usize = 0;
    while i < n
        invariant
            n == s@.len(),
            i <= n,
            flags@ == alnum_flags(s@).take(i as int),
            forall|j: int| 0 <= j < i && #[trigger] flags@[j] ==> !shell_special(s@[j]),
        decreases n - i,
    {
        let c = s.get_char(i);
        let a = is_alnum(c);
        flags.push(a);
        assert(flags@ =~= alnum_flags(s@).take(i + 1));
        assert(a ==> !shell_special(c));
        i = i + 1;
    }
    assert(flags@ =~= alnum_flags(s@));
    proof {
        law_shell_reads_back_quoted_word(s@, flags@);
    }
    shell_quote_given(s, &flags)
}


/// Whether a POSIX shell gives an unquoted character a meaning of its own
/// (a blank, a quote, an escape, an operator, an expansion or a pattern).
pub open spec fn shell_special(c: char) -> bool {
    c == ' ' || c == '\t' || c == '\n' || c == '\'' || c == '"' || c == '\\' || c == '|' || c == '&' || c == ';'
        || c == '<' || c == '>' || c == '(' || c == ')' || c == '$' || c == '`' || c == '*' || c == '?' || c == '['
        || c == '#' || c == '~' || c == '{' || c == '}' || c == '!'
}

/// The position of the first `'` in a text, or its length when there is none.
pub open spec fn quote_pos(s: Seq<char>) -> nat
    decreases s.len(),
{
    if s.len() == 0 {
        0
    } else if s[0] == '\'' {
        0
    } else {
        quote_pos(s.drop_first()) + 1
    }
}

/// The word that a POSIX shell reads from a text made of ordinary
/// characters, single-quoted strings (taken literally) and backslash
/// escapes; `None` when the text is not one such word.
pub open spec fn shell_read(q: Seq<char>) -> Option<Seq<char>>
    decreases q.len(),
{
    if q.len() == 0 {
        Some(Seq::empty())
    } else if q[0] == '\'' {
        let rest = q.drop_first();
        let j = quote_pos(rest);
        if j < rest.len() {
            match shell_read(rest.skip(j + 1int)) {
                Some(w) => Some(rest.take(j as int) + w),
                None => None,
            }
        } else {
            None
        }
    } else if q[0] == '\\' {
        if q.len() >= 2 && q[1] != '\n' {
            match shell_read(q.skip(2)) {
                Some(w) => Some(seq![q[1]] + w),
                None => None,
            }
        } else {
            None
        }
    } else if !shell_special(q[0]) {
        match shell_read(q.drop_first()) {
            Some(w) => Some(seq![q[0]] + w),
            None => None,
        }
    } else {
        None
    }
}

proof fn lemma_quote_pos_skips(a: Seq<char>, b: Seq<char>)
    requires
        forall|i: int| 0 <= i < a.len() ==> a[i] != '\'',
    ensures
        quote_pos(a + b) == a.len() + quote_pos(b),
    decreases a.len(),
{
    if a.len() > 0 {
        assert((a + b).drop_first() =~= a.drop_first() + b);
        lemma_quote_pos_skips(a.drop_first(), b);
    } else {
        assert(a + b =~= b);
    }
}

proof fn lemma_quote_body_append(a: Seq<char>, b: Seq<char>)
    ensures
        quote_body(a + b) == quote_body(a) + quote_body(b),
    decreases b.len(),
{
    if b.len() == 0 {
        assert(a + b =~= a);
        assert(quote_body(a) + quote_body(b) =~= quote_body(a));
    } else {
        assert((a + b).drop_last() =~= a + b.drop_last());
        assert((a + b).last() == b.last());
        lemma_quote_body_append(a, b.drop_last());
        let tail = if b.last() == '\'' { seq!['\'', '\\', '\'', '\''] } else { seq![b.last()] };
        assert(quote_body(a + b) =~= quote_body(a) + quote_body(b.drop_last()) + tail);
    }
}

proof fn lemma_quote_body_plain(a: Seq<char>)
    requires
        forall|i: int| 0 <= i < a.len() ==> a[i] != '\'',
    ensures
        quote_body(a) == a,
    decreases a.len(),
{
    if a.len() > 0 {
        lemma_quote_body_plain(a.drop_last());
        assert(a.drop_last().push(a.last()) =~= a);
    }
}

proof fn lemma_read_unquoted(s: Seq<char>)
    requires
        forall|i: int| 0 <= i < s.len() ==> !shell_special(#[trigger] s[i]),
    ensures
        shell_read(s) == Some(s),
    decreases s.len(),
{
    if s.len() > 0 {
        assert(!shell_special(s[0]));
        assert forall|i: int| 0 <= i < s.drop_first().len() implies !shell_special(#[trigger] s.drop_first()[i]) by {
            assert(s.drop_first()[i] == s[i + 1]);
        }
        lemma_read_unquoted(s.drop_first());
        assert(seq![s[0]] + s.drop_first() =~= s);
    }
}

proof fn lemma_read_quoted(s: Seq<char>)
    ensures
        shell_read(seq!['\''] + quote_body(s) + seq!['\'']) == Some(s),
    decreases s.len(),
{
    let q = seq!['\''] + quote_body(s) + seq!['\''];
    let p = quote_pos(s);
    lemma_quote_pos_bound(s);
    if p == s.len() {
        lemma_quote_body_plain(s);
        let rest = q.drop_first();
        assert(rest =~= s + seq!['\'']);
        lemma_quote_pos_skips(s, seq!['\'']);
        assert(seq!['\''][0] == '\'');
        assert(quote_pos(seq!['\'']) == 0);
        assert(quote_pos(rest) == s.len());
        assert(rest.take(s.len() as int) =~= s);
        assert(rest.skip(s.len() + 1int) =~= Seq::<char>::empty());
        assert(s + Seq::<char>::empty() =~= s);
        assert(q[0] == '\'');
        assert(shell_read(rest.skip(s.len() + 1int)) == Some(Seq::<char>::empty()));
        assert(shell_read(q) == Some(s));
    } else {
        let a = s.take(p as int);
        let b = s.skip(p + 1int);
        assert(s =~= a + seq!['\''] + b);
        lemma_quote_body_append(a + seq!['\''], b);
        lemma_quote_body_append(a, seq!['\'']);
        lemma_quote_body_plain(a);
        assert(quote_body(seq!['\'']) =~= seq!['\'', '\\', '\'', '\'']) by {
            let one = seq!['\''];
            assert(one.last() == '\'');
            assert(one.drop_last() =~= Seq::<char>::empty());
            assert(quote_body(one.drop_last()) =~= Seq::<char>::empty());
        }
        assert(quote_body(s) =~= a + seq!['\'', '\\', '\'', '\''] + quote_body(b));
        let rest = q.drop_first();
        let t = seq!['\\', '\''] + (seq!['\''] + quote_body(b) + seq!['\'']);
        assert(rest =~= a + (seq!['\''] + t));
        lemma_quote_pos_skips(a, seq!['\''] + t);
        assert((seq!['\''] + t)[0] == '\'');
        assert(quote_pos(seq!['\''] + t) == 0);
        assert(quote_pos(rest) == a.len());
        assert(rest.take(a.len() as int) =~= a);
        assert(rest.skip(a.len() + 1int) =~= t);
        assert(t.skip(2) =~= seq!['\''] + quote_body(b) + seq!['\'']);
        lemma_read_quoted(b);
        assert(t[0] == '\\' && t[1] == '\'' && t.len() >= 2);
        assert(shell_read(t) == Some(seq!['\''] + b));
        assert(q[0] == '\'');
        assert(a + (seq!['\''] + b) =~= s);
        assert(shell_read(q) == Some(a + (seq!['\''] + b)));
    }
}

proof fn lemma_quote_pos_bound(s: Seq<char>)
    ensures
        quote_pos(s) <= s.len(),
        quote_pos(s) < s.len() ==> s[quote_pos(s) as int] == '\'',
        forall|i: int| 0 <= i < quote_pos(s) ==> s[i] != '\'',
    decreases s.len(),
{
    if s.len() > 0 && s[0] != '\'' {
        lemma_quote_pos_bound(s.drop_first());
        assert forall|i: int| 0 <= i < quote_pos(s) implies s[i] != '\'' by {
            if i > 0 {
                assert(s[i] == s.drop_first()[i - 1]);
            }
        }
    }
}

/// A shell reads a quoted argument back as the one original word, whatever
/// its characters, provided that the characters taken as alphanumeric are
/// not special to the shell.
pub proof fn law_shell_reads_back_quoted_word(s: Seq<char>, alnum: Seq<bool>)
    requires
        alnum.len() == s.len(),
        forall|i: int| 0 <= i < s.len() && #[trigger] alnum[i] ==> !shell_special(s[i]),
    ensures
        shell_read(shell_quoted_given(s, alnum)) == Some(s),
{
    if s.len() == 0 {
        lemma_read_quoted(s);
        assert(quote_body(s) =~= Seq::<char>::empty());
        assert(seq!['\''] + quote_body(s) + seq!['\''] =~= seq!['\'', '\'']);
    } else if forall|i: int| 0 <= i < s.len() ==> plain_char_given(#[trigger] s[i], alnum[i]) {
        assert forall|i: int| 0 <= i < s.len() implies !shell_special(#[trigger] s[i]) by {
            assert(plain_char_given(s[i], alnum[i]));
        }
        lemma_read_unquoted(s);
    } else {
        lemma_read_quoted(s);
    }
}

/// The environment of every program that is not in a flatpak sandbox:
/// our displays, a Wayland session, each toolkit told to try Wayland
/// before X11, and the host's session bus when it is known.
pub open spec fn universal_env(wayland_display: Seq<char>, display: Seq<char>, bus: Option<Seq<char>>) -> Seq<(Seq<char>, Seq<char>)> {
    seq![
        ("WAYLAND_DISPLAY"@, wayland_display),
        ("DISPLAY"@, display),
        ("XDG_SESSION_TYPE"@, "wayland"@),
        ("GDK_BACKEND"@, "wayland,x11"@),
        ("QT_QPA_PLATFORM"@, "wayland;xcb"@),
        ("MOZ_ENABLE_WAYLAND"@, "1"@),
        ("OZONE_PLATFORM_HINT"@, "auto"@),
        ("ELECTRON_OZONE_PLATFORM_HINT"@, "auto"@),
    ] + match bus {
        Some(b) => seq![("DBUS_SESSION_BUS_ADDRESS"@, b)],
        None => Seq::empty(),
    }
}

pub open spec fn pairs_view(v: Seq<(String, String)>) -> Seq<(Seq<char>, Seq<char>)> {
    v.map_values(|p: (String, String)| (p.0@, p.1@))
}

pub open spec fn opt_view(o: Option<&str>) -> Option<Seq<char>> {
    match o {
        Some(b) => Some(b@),
        None => None,
    }
}

fn pair(k: &str, v: &str) -> (res: (String, String))
    ensures
        res.0@ == k@,
        res.1@ == v@,
{
    (String::from_str(k), String::from_str(v))
}

/// Builds the environment of an unsandboxed program (see
/// [`universal_env`]); `bus` is the host's `DBUS_SESSION_BUS_ADDRESS`.
pub fn build_universal_env_list(wayland_display: &str, display: &str, bus: Option<&str>) -> (res: Vec<(String, String)>)
    ensures
        pairs_view(res@) == universal_env(wayland_display@, display@, opt_view(bus)),
{
    let mut env: Vec<(String, String)> = Vec::new();
    env.push(pair("WAYLAND_DISPLAY", wayland_display));
    env.push(pair("DISPLAY", display));
    env.push(pair("XDG_SESSION_TYPE", "wayland"));
    env.push(pair("GDK_BACKEND", "wayland,x11"));
    env.push(pair("QT_QPA_PLATFORM", "wayland;xcb"));
    env.push(pair("MOZ_ENABLE_WAYLAND", "1"));
    env.push(pair("OZONE_PLATFORM_HINT", "auto"));
    env.push(pair("ELECTRON_OZONE_PLATFORM_HINT", "auto"));
    match bus {
        Some(b) => env.push(pair("DBUS_SESSION_BUS_ADDRESS", b)),
        None => {},
    }
    assert(pairs_view(env@) =~= universal_env(wayland_display@, display@, opt_view(bus)));
    env
}

/// `export K=V; ` for each pair, with each value shell-quoted.
pub open spec fn exports(env: Seq<(Seq<char>, Seq<char>)>) -> Seq<char>
    decreases env.len(),
{
    if env.len() == 0 {
        Seq::empty()
    } else {
        exports(env.drop_last()) + "export "@ + env.last().0 + "="@ + shell_quoted(env.last().1) + "; "@
    }
}

/// The shell-quoted arguments separated by single spaces.
pub open spec fn quoted_join(args: Seq<Seq<char>>) -> Seq<char>
    decreases args.len(),
{
    if args.len() == 0 {
        Seq::empty()
    } else if args.len() == 1 {
        shell_quoted(args[0])
    } else {
        quoted_join(args.drop_last()) + " "@ + shell_quoted(args.last())
    }
}

/// The `bash -c` script that starts an unsandboxed program: the exports,
/// our runtime directory, a dump of the environment, then `exec`.
pub open spec fn bash_script(
    cmd: Seq<char>,
    args: Seq<Seq<char>>,
    env: Seq<(Seq<char>, Seq<char>)>,
    runtime_dir: Seq<char>,
) -> Seq<char> {
    exports(env) + "export XDG_RUNTIME_DIR="@ + shell_quoted(runtime_dir) + "; "@ + "env > /tmp/wlc-env-dump.log; "@
        + "exec "@ + shell_quoted(cmd) + " "@ + quoted_join(args)
}

fn push_exports(out: &mut String, env: &Vec<(String, String)>)
    ensures
        final(out)@ == old(out)@ + exports(pairs_view(env@)),
{
    let ghost start = out@;
    let ghost pv = pairs_view(env@);
    let n = env.len();
    let mut i: usize = 0;
    while i < n
        invariant
            n == env@.len(),
            pv == pairs_view(env@),
            i <= n,
            out@ == start + exports(pv.take(i as int)),
        decreases n - i,
    {
        out.append("export ");
        out.append(env[i].0.as_str());
        out.append("=");
        let q = shell_quote(env[i].1.as_str());
        out.append(q.as_str());
        out.append("; ");
        proof {
            assert(pv.take(i + 1).drop_last() =~= pv.take(i as int));
            assert(pv.take(i + 1).last() == pv[i as int]);
            assert(out@ =~= start + exports(pv.take(i + 1)));
        }
        i = i + 1;
    }
    assert(pv.take(n as int) =~= pv);
}

fn push_quoted_args(out: &mut String, args: &Vec<String>)
    ensures
        final(out)@ == old(out)@ + quoted_join(strings_view(args@)),
{
    let ghost start = out@;
    let ghost av = strings_view(args@);
    let n = args.len();
    let mut i: usize = 0;
    while i < n
        invariant
            n == args@.len(),
            av == strings_view(args@),
            i <= n,
            out@ == start + quoted_join(av.take(i as int)),
        decreases n - i,
    {
        if i > 0 {
            out.append(" ");
        }
        let q = shell_quote(args[i].as_str());
        out.append(q.as_str());
        proof {
            assert(av.take(i + 1).drop_last() =~= av.take(i as int));
            assert(av.take(i + 1).last() == av[i as int]);
            if i == 0 {
                assert(av.take(1)[0] == av[0]);
            }
            assert(out@ =~= start + quoted_join(av.take(i + 1)));
        }
        i = i + 1;
    }
    assert(av.take(n as int) =~= av);
}

/// Builds the `bash -c` script of an unsandboxed program (see [`bash_script`]).
pub fn bash_command(cmd: &str, args: &Vec<String>, env: &Vec<(String, String)>, runtime_dir: &str) -> (res: String)
    ensures
        res@ == bash_script(cmd@, strings_view(args@), pairs_view(env@), runtime_dir@),
{
    let mut out = String::new();
    push_exports(&mut out, env);
    out.append("export XDG_RUNTIME_DIR=");
    let rq = shell_quote(runtime_dir);
    out.append(rq.as_str());
    out.append("; ");
    out.append("env > /tmp/wlc-env-dump.log; ");
    out.append("exec ");
    let cq = shell_quote(cmd);
    out.append(cq.as_str());
    out.append(" ");
    push_quoted_args(&mut out, args);
    assert(out@ =~= bash_script(cmd@, strings_view(args@), pairs_view(env@), runtime_dir@));
    out
}

/// The program and arguments that start `cmd`: a flatpak command keeps its
/// program and gets the flatpak options; any other runs under `bash -c`
/// with the universal environment.
pub open spec fn launch_plan(
    cmd: Seq<char>,
    args: Seq<Seq<char>>,
    wayland_display: Seq<char>,
    display: Seq<char>,
    runtime_dir: Seq<char>,
    bus: Option<Seq<char>>,
) -> (Seq<char>, Seq<Seq<char>>) {
    if app_type(cmd) == "flatpak"@ {
        let pos = app_id_index(args, 0, false);
        (cmd, args.take(pos) + flatpak_options(wayland_display, display) + args.skip(pos))
    } else {
        (
            "/bin/bash"@,
            seq!["-c"@, bash_script(cmd, args, universal_env(wayland_display, display, bus), runtime_dir)],
        )
    }
}

/// Decides how to start a nested program (see [`launch_plan`]); `bus` is
/// the host's session bus address and `runtime_dir` our runtime directory.
pub fn launch_command(
    cmd: &str,
    args: &Vec<String>,
    wayland_display: &str,
    display: &str,
    runtime_dir: &str,
    bus: Option<&str>,
) -> (res: (String, Vec<String>))
    ensures
        (res.0@, strings_view(res.1@)) == launch_plan(
            cmd@,
            strings_view(args@),
            wayland_display@,
            display@,
            runtime_dir@,
            opt_view(bus),
        ),
{
    let kind = detect_app_type(cmd);
    if str_eq(kind, "flatpak") {
        let mut a = args.clone();
        assert(strings_view(a@) =~= strings_view(args@)) by {
            assert forall|i: int| 0 <= i < a@.len() implies a@[i]@ == args@[i]@ by {
                assert(vstd::pervasive::cloned(args@[i], a@[i]));
            }
        }
        inject_flatpak_env(&mut a, wayland_display, display);
        (String::from_str(cmd), a)
    } else {
        let env = build_universal_env_list(wayland_display, display, bus);
        let script = bash_command(cmd, args, &env, runtime_dir);
        let mut out: Vec<String> = Vec::new();
        out.push(String::from_str("-c"));
        out.push(script);
        assert(strings_view(out@) =~= seq!["-c"@, script@]);
        (String::from_str("/bin/bash"), out)
    }
}

/// The file the environment dump of process `pid` goes to.
pub open spec fn dump_file(pid: nat) -> Seq<char> {
    "/tmp/wlc-env-"@ + decimal(pid) + ".log"@
}

/// A line that appends `NAME=$NAME` to the dump file.
pub open spec fn echo_var(name: Seq<char>, dump: Seq<char>) -> Seq<char> {
    "echo '"@ + name + "='$"@ + name + " >> "@ + dump + "\n"@
}

/// The debugging wrapper script: it dumps the display and toolkit
/// variables and the whole environment of process `pid`, then `exec`s the
/// program with its quoted arguments.
pub open spec fn env_dump_text(cmd: Seq<char>, args: Seq<Seq<char>>, pid: nat) -> Seq<char> {
    let d = dump_file(pid);
    "#!/bin/bash\n"@ + "echo '=== ENV DUMP for "@ + cmd + "' > "@ + d + "\n"@ + echo_var("WAYLAND_DISPLAY"@, d)
        + echo_var("DISPLAY"@, d) + echo_var("GDK_BACKEND"@, d) + echo_var("QT_QPA_PLATFORM"@, d) + echo_var(
        "OZONE_PLATFORM"@,
        d,
    ) + echo_var("ELECTRON_OZONE_PLATFORM_HINT"@, d) + echo_var("XDG_RUNTIME_DIR"@, d) + "env | sort >> "@ + d
        + "\n"@ + "echo '=== END ENV DUMP' >> "@ + d + "\n"@ + "exec "@ + shell_quoted(cmd) + " "@ + quoted_join(
        args,
    ) + "\n"@
}

fn push_echo_var(out: &mut String, name: &str, dump: &str)
    ensures
        final(out)@ == old(out)@ + echo_var(name@, dump@),
{
    out.append("echo '");
    out.append(name);
    out.append("='$");
    out.append(name);
    out.append(" >> ");
    out.append(dump);
    out.append("\n");
    assert(final(out)@ =~= old(out)@ + echo_var(name@, dump@));
}

/// Builds the debugging wrapper script of process `pid` (see [`env_dump_text`]).
pub fn env_dump_script(cmd: &str, args: &Vec<String>, pid: u32) -> (res: String)
    ensures
        res@ == env_dump_text(cmd@, strings_view(args@), pid as nat),
{
    let mut dump = String::from_str("/tmp/wlc-env-");
    push_decimal(&mut dump, pid as u64);
    dump.append(".log");
    let d = dump.as_str();
    let mut out = String::from_str("#!/bin/bash\n");
    out.append("echo '=== ENV DUMP for ");
    out.append(cmd);
    out.append("' > ");
    out.append(d);
    out.append("\n");
    push_echo_var(&mut out, "WAYLAND_DISPLAY", d);
    push_echo_var(&mut out, "DISPLAY", d);
    push_echo_var(&mut out, "GDK_BACKEND", d);
    push_echo_var(&mut out, "QT_QPA_PLATFORM", d);
    push_echo_var(&mut out, "OZONE_PLATFORM", d);
    push_echo_var(&mut out, "ELECTRON_OZONE_PLATFORM_HINT", d);
    push_echo_var(&mut out, "XDG_RUNTIME_DIR", d);
    out.append("env | sort >> ");
    out.append(d);
    out.append("\n");
    out.append("echo '=== END ENV DUMP' >> ");
    out.append(d);
    out.append("\n");
    out.append("exec ");
    let cq = shell_quote(cmd);
    out.append(cq.as_str());
    out.append(" ");
    push_quoted_args(&mut out, args);
    out.append("\n");
    assert(out@ =~= env_dump_text(cmd@, strings_view(args@), pid as nat));
    out
}

} // verus!
