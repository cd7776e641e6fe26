//! Reading fcitx5 InputContext signals for the host bridge.
//!
//! Only the top-level fields of a signal body are read: `CommitString`
//! takes the first text field, `UpdateFormattedPreedit` joins the text
//! fields and takes the last `i32` as cursor, `UpdateClientSideUI` takes at
//! most ten texts from the array fields and the last boolean as
//! visibility, `DeleteSurroundingText` reads `(i u)`. Each of these is
//! followed by `Done`; a signal without a body, or another signal, gives
//! no message.

use vstd::prelude::*;
use crate::dbus_value::DbusValue;
use crate::ime_event::strings_view;
use crate::text::str_eq;
use super::dbus_fcitx5::{FromWorker, Fcitx5Msg};

verus! {

/// Most candidates read from one `UpdateClientSideUI`.
pub const MAX_CANDIDATES: usize = 10;

/// The first text field, if any.
pub open spec fn first_text(fs: Seq<DbusValue>) -> Option<Seq<char>>
    decreases fs.len(),
{
    if fs.len() == 0 {
        None
    } else {
        match first_text(fs.drop_last()) {
            Some(t) => Some(t),
            None => match fs.last() {
                DbusValue::Str(s) => Some(s@),
                _ => None,
            },
        }
    }
}

/// All text fields joined, in order.
pub open spec fn joined_texts(fs: Seq<DbusValue>) -> Seq<char>
    decreases fs.len(),
{
    if fs.len() == 0 {
        Seq::empty()
    } else {
        joined_texts(fs.drop_last()) + match fs.last() {
            DbusValue::Str(s) => s@,
            _ => Seq::empty(),
        }
    }
}

/// The last `i32` field (0 when there is none).
pub open spec fn last_i32(fs: Seq<DbusValue>) -> i32
    decreases fs.len(),
{
    if fs.len() == 0 {
        0
    } else {
        match fs.last() {
            DbusValue::I32(c) => c,
            _ => last_i32(fs.drop_last()),
        }
    }
}

/// The last boolean field (false when there is none).
pub open spec fn last_bool(fs: Seq<DbusValue>) -> bool
    decreases fs.len(),
{
    if fs.len() == 0 {
        false
    } else {
        match fs.last() {
            DbusValue::Bool(b) => b,
            _ => last_bool(fs.drop_last()),
        }
    }
}

/// The text items of an array, in order.
pub open spec fn text_items(items: Seq<DbusValue>) -> Seq<Seq<char>>
    decreases items.len(),
{
    if items.len() == 0 {
        Seq::empty()
    } else {
        text_items(items.drop_last()) + match items.last() {
            DbusValue::Str(s) => seq![s@],
            _ => Seq::empty(),
        }
    }
}

/// The text items of all array fields, field after field.
pub open spec fn array_text_items(fs: Seq<DbusValue>) -> Seq<Seq<char>>
    decreases fs.len(),
{
    if fs.len() == 0 {
        Seq::empty()
    } else {
        array_text_items(fs.drop_last()) + match fs.last() {
            DbusValue::Array(a) => text_items(a@),
            _ => Seq::empty(),
        }
    }
}

/// The first `MAX_CANDIDATES` of a list.
pub open spec fn capped(c: Seq<Seq<char>>) -> Seq<Seq<char>> {
    if c.len() <= MAX_CANDIDATES { c } else { c.take(MAX_CANDIDATES as int) }
}

/// The deletion of a `(i u)` body: a negative count before the cursor reads as 0.
pub open spec fn deletion_fields(fs: Seq<DbusValue>) -> (u32, u32) {
    let before = if fs.len() > 0 {
        match fs[0] {
            DbusValue::I32(n) => if n > 0 { n as u32 } else { 0 },
            _ => 0,
        }
    } else {
        0
    };
    let after = if fs.len() > 1 {
        match fs[1] {
            DbusValue::U32(n) => n,
            _ => 0,
        }
    } else {
        0
    };
    (before, after)
}

pub open spec fn then_done(m: Fcitx5Msg) -> Seq<Fcitx5Msg> {
    seq![m, Fcitx5Msg::Done]
}

/// The worker messages of the fcitx5 signal `name` with body `fields`.
pub open spec fn fcitx5_bridge_signal(name: Seq<char>, fields: Seq<DbusValue>) -> Seq<Fcitx5Msg> {
    if fields.len() == 0 {
        Seq::empty()
    } else if name == "CommitString"@ {
        then_done(Fcitx5Msg::Commit(match first_text(fields) {
            Some(t) => t,
            None => Seq::empty(),
        }))
    } else if name == "UpdateFormattedPreedit"@ {
        then_done(Fcitx5Msg::Preedit { text: joined_texts(fields), cursor: last_i32(fields) })
    } else if name == "UpdateClientSideUI"@ {
        then_done(Fcitx5Msg::LookupTable {
            candidates: capped(array_text_items(fields)),
            cursor_pos: 0,
            visible: last_bool(fields),
        })
    } else if name == "DeleteSurroundingText"@ {
        let (before, after) = deletion_fields(fields);
        then_done(Fcitx5Msg::DeleteSurrounding { before, after })
    } else {
        Seq::empty()
    }
}

/// Each fcitx5 text signal with a body is one batch: its message, then `Done`.
pub proof fn law_fcitx5_signals_close_their_batch(name: Seq<char>, fields: Seq<DbusValue>)
    ensures
        fields.len() > 0 && (name == "CommitString"@ || name == "UpdateFormattedPreedit"@ || name
            == "UpdateClientSideUI"@ || name == "DeleteSurroundingText"@) ==> ({
            &&& fcitx5_bridge_signal(name, fields).len() == 2
            &&& fcitx5_bridge_signal(name, fields)[1] == Fcitx5Msg::Done
            &&& !(fcitx5_bridge_signal(name, fields)[0] is Done)
        }),
{
}

pub open spec fn fcitx5_msgs_view(v: Seq<FromWorker>) -> Seq<Fcitx5Msg> {
    v.map_values(|m: FromWorker| m@)
}

fn first_text_exec(fs: &[DbusValue]) -> (res: String)
    ensures
        res@ == (match first_text(fs@) {
            Some(t) => t,
            None => Seq::empty(),
        }),
{
    let n = fs.len();
    let mut i: usize = 0;
    while i < n
        invariant
            n == fs@.len(),
            i <= n,
            first_text(fs@.take(i as int)) is None,
        decreases n - i,
    {
        proof {
            assert(fs@.take(i + 1).drop_last() =~= fs@.take(i as int));
            assert(fs@.take(i + 1).last() == fs@[i as int]);
        }
        match &fs[i] {
            DbusValue::Str(s) => {
                proof {
                    lemma_first_text_prefix(fs@, i as int + 1);
                }
                return s.clone();
            },
            _ => {},
        }
        i = i + 1;
    }
    assert(fs@.take(n as int) =~= fs@);
    String::new()
}

proof fn lemma_first_text_prefix(fs: Seq<DbusValue>, k: int)
    requires
        0 < k <= fs.len(),
        first_text(fs.take(k)) is Some,
    ensures
        first_text(fs) == first_text(fs.take(k)),
    decreases fs.len() - k,
{
    if k < fs.len() {
        assert(fs.take(k + 1).drop_last() =~= fs.take(k));
        lemma_first_text_prefix(fs, k + 1);
    } else {
        assert(fs.take(k) =~= fs);
    }
}

fn joined_texts_exec(fs: &[DbusValue]) -> (res: String)
    ensures
        res@ == joined_texts(fs@),
{
    let mut text = String::new();
    let n = fs.len();
    let mut i: usize = 0;
    while i < n
        invariant
            n == fs@.len(),
            i <= n,
            text@ == joined_texts(fs@.take(i as int)),
        decreases n - i,
    {
        proof {
            assert(fs@.take(i + 1).drop_last() =~= fs@.take(i as int));
            assert(fs@.take(i + 1).last() == fs@[i as int]);
        }
        match &fs[i] {
            DbusValue::Str(s) => {
                text.append(s.as_str());
            },
            _ => {
                assert(text@ =~= text@ + Seq::<char>::empty());
            },
        }
        i = i + 1;
    }
    assert(fs@.take(n as int) =~= fs@);
    text
}

fn last_i32_exec(fs: &[DbusValue]) -> (res: i32)
    ensures
        res == last_i32(fs@),
{
    let mut cursor: i32 = 0;
    let n = fs.len();
    let mut i: usize = 0;
    while i < n
        invariant
            n == fs@.len(),
            i <= n,
            cursor == last_i32(fs@.take(i as int)),
        decreases n - i,
    {
        proof {
            assert(fs@.take(i + 1).drop_last() =~= fs@.take(i as int));
            assert(fs@.take(i + 1).last() == fs@[i as int]);
        }
        match &fs[i] {
            DbusValue::I32(c) => {
                cursor = *c;
            },
            _ => {},
        }
        i = i + 1;
    }
    assert(fs@.take(n as int) =~= fs@);
    cursor
}

fn last_bool_exec(fs: &[DbusValue]) -> (res: bool)
    ensures
        res == last_bool(fs@),
{
    let mut visible = false;
    let n = fs.len();
    let mut i: usize = 0;
    while i < n
        invariant
            n == fs@.len(),
            i <= n,
            visible == last_bool(fs@.take(i as int)),
        decreases n - i,
    {
        proof {
            assert(fs@.take(i + 1).drop_last() =~= fs@.take(i as int));
            assert(fs@.take(i + 1).last() == fs@[i as int]);
        }
        match &fs[i] {
            DbusValue::Bool(b) => {
                visible = *b;
            },
            _ => {},
        }
        i = i + 1;
    }
    assert(fs@.take(n as int) =~= fs@);
    visible
}

proof fn lemma_capped_push(c: Seq<Seq<char>>, s: Seq<char>)
    ensures
        capped(c.push(s)) == (if capped(c).len() < MAX_CANDIDATES {
            capped(c).push(s)
        } else {
            capped(c)
        }),
{
    if c.len() >= MAX_CANDIDATES {
        assert(c.push(s).take(MAX_CANDIDATES as int) =~= c.take(MAX_CANDIDATES as int));
    }
}

fn ui_candidates(fs: &[DbusValue]) -> (res: Vec<String>)
    ensures
        strings_view(res@) == capped(array_text_items(fs@)),
{
    let mut out: Vec<String> = Vec::new();
    let n = fs.len();
    let mut i: usize = 0;
    assert(strings_view(out@) =~= capped(array_text_items(fs@.take(0))));
    while i < n
        invariant
            n == fs@.len(),
            i <= n,
            strings_view(out@) == capped(array_text_items(fs@.take(i as int))),
        decreases n - i,
    {
        proof {
            assert(fs@.take(i + 1).drop_last() =~= fs@.take(i as int));
            assert(fs@.take(i + 1).last() == fs@[i as int]);
        }
        let ghost prefix = array_text_items(fs@.take(i as int));
        match &fs[i] {
            DbusValue::Array(a) => {
                let m = a.len();
                let mut j: usize = 0;
                assert(prefix + text_items(a@.take(0)) =~= prefix);
                while j < m
                    invariant
                        m == a@.len(),
                        j <= m,
                        strings_view(out@) == capped(prefix + text_items(a@.take(j as int))),
                    decreases m - j,
                {
                    proof {
                        assert(a@.take(j + 1).drop_last() =~= a@.take(j as int));
                        assert(a@.take(j + 1).last() == a@[j as int]);
                    }
                    match &a[j] {
                        DbusValue::Str(s) => {
                            proof {
                                assert(prefix + text_items(a@.take(j + 1)) =~= (prefix + text_items(
                                    a@.take(j as int),
                                )).push(s@));
                                lemma_capped_push(prefix + text_items(a@.take(j as int)), s@);
                            }
                            if out.len() < MAX_CANDIDATES {
                                let ghost before = out@;
                                out.push(s.clone());
                                assert(strings_view(out@) =~= strings_view(before).push(s@));
                            }
                        },
                        _ => {
                            assert(prefix + text_items(a@.take(j + 1)) =~= prefix + text_items(
                                a@.take(j as int),
                            ));
                        },
                    }
                    j = j + 1;
                }
                assert(a@.take(m as int) =~= a@);
            },
            _ => {
                assert(prefix + Seq::<Seq<char>>::empty() =~= prefix);
            },
        }
        i = i + 1;
    }
    assert(fs@.take(n as int) =~= fs@);
    out
}

fn deletion_exec(fs: &[DbusValue]) -> (res: (u32, u32))
    ensures
        res == deletion_fields(fs@),
{
    let before = if fs.len() > 0 {
        match &fs[0] {
            DbusValue::I32(n) => if *n > 0 { *n as u32 } else { 0 },
            _ => 0,
        }
    } else {
        0
    };
    let after = if fs.len() > 1 {
        match &fs[1] {
            DbusValue::U32(n) => *n,
            _ => 0,
        }
    } else {
        0
    };
    (before, after)
}

fn with_done(m: FromWorker) -> (res: Vec<FromWorker>)
    ensures
        fcitx5_msgs_view(res@) == then_done(m@),
{
    let mut v: Vec<FromWorker> = Vec::new();
    v.push(m);
    v.push(FromWorker::Done);
    assert(fcitx5_msgs_view(v@) =~= then_done(m@));
    v
}

/// Translates one fcitx5 signal into worker messages (see [`fcitx5_bridge_signal`]).
pub fn handle_signal(name: &str, fields: &[DbusValue]) -> (res: Vec<FromWorker>)
    ensures
        fcitx5_msgs_view(res@) == fcitx5_bridge_signal(name@, fields@),
{
    if fields.len() == 0 {
        let v: Vec<FromWorker> = Vec::new();
        assert(fcitx5_msgs_view(v@) =~= Seq::<Fcitx5Msg>::empty());
        return v;
    }
    if str_eq(name, "CommitString") {
        with_done(FromWorker::Commit(first_text_exec(fields)))
    } else if str_eq(name, "UpdateFormattedPreedit") {
        let text = joined_texts_exec(fields);
        let cursor = last_i32_exec(fields);
        with_done(FromWorker::Preedit { text, cursor })
    } else if str_eq(name, "UpdateClientSideUI") {
        let candidates = ui_candidates(fields);
        let visible = last_bool_exec(fields);
        with_done(FromWorker::LookupTable { candidates, cursor_pos: 0, visible })
    } else if str_eq(name, "DeleteSurroundingText") {
        let (before, after) = deletion_exec(fields);
        with_done(FromWorker::DeleteSurrounding { before, after })
    } else {
        let v: Vec<FromWorker> = Vec::new();
        assert(fcitx5_msgs_view(v@) =~= Seq::<Fcitx5Msg>::empty());
        v
    }
}

} // verus!
