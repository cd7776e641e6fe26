//! The decisions around xwayland-satellite, the X server that brings X11
//! programs into the nested session: when a dead satellite may be
//! restarted, whether the X11 socket directory is safe, the display lock
//! file, and the satellite's command line.

use vstd::prelude::*;
use crate::diagnostic::{trim, trimmed};
use crate::text::{decimal, parse_u32, parsed_u32, push_decimal, signed_decimal, push_signed_decimal};

verus! {

/// Why a restart is refused.
#[derive(Debug, Clone, Copy, PartialEq, Eq, Structural)]
pub enum RestartRefusal {
    /// The last restart was less than five seconds ago.
    TooSoon,
    /// Three restarts were already made in the last minute.
    TooMany,
}

impl RestartRefusal {
    /// The message of a refusal.
    pub fn message(&self) -> (res: &'static str)
        ensures
            res@ == refusal_message(*self),
    {
        match self {
            RestartRefusal::TooSoon => "satellite died < 5s ago; skipping restart",
            RestartRefusal::TooMany => "satellite died ≥3 times in 60s; giving up",
        }
    }
}

pub open spec fn refusal_message(r: RestartRefusal) -> Seq<char> {
    match r {
        RestartRefusal::TooSoon => "satellite died < 5s ago; skipping restart"@,
        RestartRefusal::TooMany => "satellite died ≥3 times in 60s; giving up"@,
    }
}

/// Milliseconds that must pass after a restart before the next one.
pub const RESTART_SPACING_MS: u128 = 5000;

/// The window, in milliseconds, in which at most three restarts are made.
pub const RESTART_WINDOW_MS: u128 = 60000;

/// Restarts allowed in one window.
pub const MAX_RESTARTS_PER_WINDOW: usize = 3;

/// How long ago `t` was at `now`; 0 when `t` is not in the past.
pub open spec fn elapsed(now: u128, t: u128) -> int {
    if now >= t {
        now - t
    } else {
        0
    }
}

/// The restarts of the last minute before `now`, oldest first.
pub open spec fn recent(attempts: Seq<u128>, now: u128) -> Seq<u128> {
    attempts.filter(|t: u128| elapsed(now, t) < RESTART_WINDOW_MS)
}

/// The decision on a restart at `now`, and the restart times after it.
pub open spec fn restart_step(attempts: Seq<u128>, now: u128) -> (Result<(), RestartRefusal>, Seq<u128>) {
    if attempts.len() > 0 && elapsed(now, attempts.last()) < RESTART_SPACING_MS {
        (Err(RestartRefusal::TooSoon), attempts)
    } else if recent(attempts, now).len() >= MAX_RESTARTS_PER_WINDOW {
        (Err(RestartRefusal::TooMany), attempts)
    } else {
        (Ok(()), recent(attempts, now).push(now))
    }
}

/// Throttling of satellite restarts: no restart within five seconds of the
/// previous one, and at most three in a minute.
pub struct RestartPolicy {
    /// Times of the restarts of the last minute, oldest first.
    attempts: Vec<u128>,
}

impl View for RestartPolicy {
    type V = Seq<u128>;

    closed spec fn view(&self) -> Seq<u128> {
        self.attempts@
    }
}

impl RestartPolicy {
    /// A policy with no restart made.
    pub fn new() -> (res: Self)
        ensures
            res@ == Seq::<u128>::empty(),
    {
        RestartPolicy { attempts: Vec::new() }
    }

    /// Decides on a restart at `now` (milliseconds); when it is allowed the
    /// attempt is recorded, whether or not the respawn then succeeds.
    pub fn begin_restart(&mut self, now: u128) -> (res: Result<(), RestartRefusal>)
        ensures
            (res, final(self)@) == restart_step(old(self)@, now),
    {
        let n = self.attempts.len();
        if n > 0 {
            let last = self.attempts[n - 1];
            let since = if now >= last { now - last } else { 0 };
            if since < RESTART_SPACING_MS {
                return Err(RestartRefusal::TooSoon);
            }
        }
        let ghost old_attempts = self.attempts@;
        let mut kept: Vec<u128> = Vec::new();
        let mut i: usize = 0;
        while i < n
            invariant
                n == self.attempts@.len(),
                old_attempts == self.attempts@,
                i <= n,
                kept@ == old_attempts.take(i as int).filter(|t: u128| elapsed(now, t) < RESTART_WINDOW_MS),
            decreases n - i,
        {
            let t = self.attempts[i];
            let since = if now >= t { now - t } else { 0 };
            proof {
                let f = |t: u128| elapsed(now, t) < RESTART_WINDOW_MS;
                assert(old_attempts.take(i + 1).drop_last() =~= old_attempts.take(i as int));
                assert(old_attempts.take(i + 1).last() == t);
                old_attempts.take(i as int).lemma_filter_push(t, f);
                assert(old_attempts.take(i as int).push(t) =~= old_attempts.take(i + 1));
            }
            if since < RESTART_WINDOW_MS {
                kept.push(t);
            }
            i = i + 1;
        }
        assert(old_attempts.take(n as int) =~= old_attempts);
        if kept.len() >= MAX_RESTARTS_PER_WINDOW {
            return Err(RestartRefusal::TooMany);
        }
        kept.push(now);
        self.attempts = kept;
        Ok(())
    }
}

/// After an allowed restart, any restart less than five seconds later is
/// refused.
pub proof fn law_restarts_are_spaced(attempts: Seq<u128>, t1: u128, t2: u128)
    requires
        restart_step(attempts, t1).0 is Ok,
        elapsed(t2, t1) < RESTART_SPACING_MS,
    ensures
        restart_step(restart_step(attempts, t1).1, t2).0 == Err::<(), RestartRefusal>(RestartRefusal::TooSoon),
{
}

/// Once three restarts were allowed within a minute, a fourth in the same
/// minute is refused.
pub proof fn law_three_restarts_per_minute(attempts: Seq<u128>, t1: u128, t2: u128, t3: u128, t4: u128)
    requires
        t1 <= t2 <= t3 <= t4,
        t4 - t1 < RESTART_WINDOW_MS,
        restart_step(attempts, t1).0 is Ok,
        restart_step(restart_step(attempts, t1).1, t2).0 is Ok,
        restart_step(restart_step(restart_step(attempts, t1).1, t2).1, t3).0 is Ok,
    ensures
        restart_step(restart_step(restart_step(restart_step(attempts, t1).1, t2).1, t3).1, t4).0 is Err,
{
    let x1 = recent(attempts, t1);
    let x2 = recent(x1, t2);
    let x3 = recent(x2, t3);
    let f2 = |t: u128| elapsed(t2, t) < RESTART_WINDOW_MS;
    let f3 = |t: u128| elapsed(t3, t) < RESTART_WINDOW_MS;
    let f4 = |t: u128| elapsed(t4, t) < RESTART_WINDOW_MS;
    // Each restart stays within the window until t4.
    x1.lemma_filter_push(t1, f2);
    x2.lemma_filter_push(t1, f3);
    x2.push(t1).lemma_filter_push(t2, f3);
    x3.lemma_filter_push(t1, f4);
    x3.push(t1).lemma_filter_push(t2, f4);
    x3.push(t1).push(t2).lemma_filter_push(t3, f4);
    assert(recent(x3.push(t1).push(t2).push(t3), t4).len() >= 3);
}

/// What is wrong with the X11 socket directory, checked in this order: it
/// must belong to the owner of `/tmp` or to us, be writable, and have the
/// sticky bit.
pub open spec fn x11_dir_problem(x11_uid: u32, tmp_uid: u32, uid: u32, writable: bool, mode: u32) -> Option<Seq<char>> {
    if x11_uid != tmp_uid && x11_uid != uid {
        Some("wrong ownership"@)
    } else if !writable {
        Some("not writeable"@)
    } else if mode & 0o1000 != 0o1000 {
        Some("no sticky bit"@)
    } else {
        None
    }
}

/// Checks the X11 socket directory (see [`x11_dir_problem`]): its owner
/// and mode, the owner of `/tmp`, our uid, and whether it is writable.
pub fn check_x11_dir(x11_uid: u32, tmp_uid: u32, uid: u32, writable: bool, mode: u32) -> (res: Result<(), &'static str>)
    ensures
        match res {
            Ok(()) => x11_dir_problem(x11_uid, tmp_uid, uid, writable, mode) is None,
            Err(m) => x11_dir_problem(x11_uid, tmp_uid, uid, writable, mode) == Some(m@),
        },
{
    if x11_uid != tmp_uid && x11_uid != uid {
        return Err("wrong ownership");
    }
    if !writable {
        return Err("not writeable");
    }
    if (mode & 0o1000) != 0o1000 {
        return Err("no sticky bit");
    }
    Ok(())
}

/// The lock file of a display: the process id right-aligned in ten
/// columns, then a newline.
pub open spec fn lock_file_text(pid: u32) -> Seq<char> {
    let d = decimal(pid as nat);
    Seq::new(if d.len() < 10 { (10 - d.len()) as nat } else { 0 }, |i: int| ' ') + d + "\n"@
}

/// Builds the lock file contents (see [`lock_file_text`]).
pub fn lock_file_contents(pid: u32) -> (res: String)
    ensures
        res@ == lock_file_text(pid),
{
    let mut digits = String::new();
    push_decimal(&mut digits, pid as u64);
    let len = digits.unicode_len();
    let pad: usize = if len < 10 { 10 - len } else { 0 };
    let mut out = String::new();
    let mut k: usize = 0;
    while k < pad
        invariant
            k <= pad,
            out@ == Seq::new(k as nat, |i: int| ' '),
        decreases pad - k,
    {
        crate::text::push_char(&mut out, ' ');
        assert(out@ =~= Seq::new((k + 1) as nat, |i: int| ' '));
        k = k + 1;
    }
    out.append(digits.as_str());
    out.append("\n");
    assert(out@ =~= lock_file_text(pid));
    out
}

/// The process that holds a lock file: its trimmed contents as a number
/// that is a valid positive process id.
pub open spec fn lock_holder(data: Seq<char>) -> Option<i32> {
    match parsed_u32(trimmed(data)) {
        Some(p) => if 0 < p && p <= i32::MAX {
            Some(p as i32)
        } else {
            None
        },
        None => None,
    }
}

/// Reads the holder of a lock file (see [`lock_holder`]).
pub fn lock_file_pid(data: &str) -> (res: Option<i32>)
    ensures
        res == lock_holder(data@),
{
    let t = trim(data);
    match parse_u32(t.as_str()) {
        Some(p) => {
            if 0 < p && p <= 0x7FFF_FFFF {
                Some(p as i32)
            } else {
                None
            }
        },
        None => None,
    }
}

/// The name of X display `n`.
pub open spec fn display_name_text(n: i32) -> Seq<char> {
    ":"@ + signed_decimal(n as int)
}

/// The name of X display `n`, such as `:2`.
pub fn display_name(n: i32) -> (res: String)
    ensures
        res@ == display_name_text(n),
{
    let mut s = String::from_str(":");
    push_signed_decimal(&mut s, n as i64);
    s
}

/// The satellite's arguments: the display, then `-listenfd` and each
/// socket it is handed.
pub open spec fn xws_arguments(display: i32, fds: Seq<i32>) -> Seq<Seq<char>>
    decreases fds.len(),
{
    if fds.len() == 0 {
        seq![display_name_text(display)]
    } else {
        xws_arguments(display, fds.drop_last()) + seq!["-listenfd"@, signed_decimal(fds.last() as int)]
    }
}

/// Builds the satellite's arguments (see [`xws_arguments`]).
pub fn xws_args(display: i32, fds: &Vec<i32>) -> (res: Vec<String>)
    ensures
        crate::ime_event::strings_view(res@) == xws_arguments(display, fds@),
{
    let mut out: Vec<String> = Vec::new();
    out.push(display_name(display));
    let mut i: usize = 0;
    assert(crate::ime_event::strings_view(out@) =~= xws_arguments(display, fds@.take(0)));
    while i < fds.len()
        invariant
            i <= fds@.len(),
            crate::ime_event::strings_view(out@) == xws_arguments(display, fds@.take(i as int)),
        decreases fds@.len() - i,
    {
        let ghost before = crate::ime_event::strings_view(out@);
        out.push(String::from_str("-listenfd"));
        let mut fd_text = String::new();
        push_signed_decimal(&mut fd_text, fds[i] as i64);
        out.push(fd_text);
        proof {
            assert(fds@.take(i + 1).drop_last() =~= fds@.take(i as int));
            assert(fds@.take(i + 1).last() == fds@[i as int]);
            assert(crate::ime_event::strings_view(out@) =~= before + seq![
                "-listenfd"@,
                signed_decimal(fds@[i as int] as int),
            ]);
        }
        i = i + 1;
    }
    assert(fds@.take(fds@.len() as int) =~= fds@);
    out
}

} // verus!
