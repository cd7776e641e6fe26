//! Reading fcitx5 InputContext signals into worker messages.
//!
//! `CommitString "s"`, `UpdateFormattedPreedit "a(si)i"` (segmented
//! preedit and total cursor), `DeleteSurroundingText "iu"` (offset and
//! length around the cursor) and `ForwardKey "uub"`.

use vstd::prelude::*;
use crate::dbus_value::{DbusValue, find_int, find_text, int_in_value, int_of, text_of_list};
use crate::keyboard::KeyboardAction;
use super::{ForwardedKey, HostEvent, HostEventView, WorkerMsgView};
use super::dbus_fcitx5::FromWorker;
use super::ibus_signal::{ints_of, key_of_evdev, with_done};

verus! {

/// The concatenated texts among structure fields.
pub open spec fn str_concat(fs: Seq<DbusValue>) -> Seq<char>
    decreases fs.len(),
{
    if fs.len() == 0 {
        Seq::empty()
    } else {
        str_concat(fs.drop_last()) + match fs.last() {
            DbusValue::Str(s) => s@,
            _ => Seq::empty(),
        }
    }
}

/// The text of one preedit segment: a structure, possibly inside one variant.
pub open spec fn segment_text(e: DbusValue) -> Seq<char> {
    let ev = match e {
        DbusValue::Value(inner) => *inner,
        other => other,
    };
    match ev {
        DbusValue::Structure(fs) => str_concat(fs@),
        _ => Seq::empty(),
    }
}

/// The concatenated texts of the segments of an array.
pub open spec fn array_text(a: Seq<DbusValue>) -> Seq<char>
    decreases a.len(),
{
    if a.len() == 0 {
        Seq::empty()
    } else {
        array_text(a.drop_last()) + segment_text(a.last())
    }
}

/// The preedit text: the segments of every array field, concatenated.
pub open spec fn preedit_text(fields: Seq<DbusValue>) -> Seq<char>
    decreases fields.len(),
{
    if fields.len() == 0 {
        Seq::empty()
    } else {
        preedit_text(fields.drop_last()) + match fields.last() {
            DbusValue::Array(a) => array_text(a@),
            _ => Seq::empty(),
        }
    }
}

/// The total cursor: the first integer among the fields that are not arrays.
pub open spec fn preedit_cursor(fields: Seq<DbusValue>) -> Option<i32>
    decreases fields.len(),
{
    if fields.len() == 0 {
        None
    } else if fields[0] is Array {
        preedit_cursor(fields.subrange(1, fields.len() as int))
    } else {
        match int_of(fields[0]) {
            Some(n) => Some(n as i32),
            None => preedit_cursor(fields.subrange(1, fields.len() as int)),
        }
    }
}

/// `UpdateFormattedPreedit`: the text and the cursor, which defaults to the
/// end of the text.
pub open spec fn formatted_preedit(fields: Seq<DbusValue>) -> (Seq<char>, i32) {
    let t = preedit_text(fields);
    (t, match preedit_cursor(fields) {
        Some(c) => c,
        None => t.len() as i32,
    })
}

fn str_concat_exec(fs: &Vec<DbusValue>, out: &mut String)
    ensures
        final(out)@ == old(out)@ + str_concat(fs@),
{
    let n = fs.len();
    let mut i: usize = 0;
    while i < n
        invariant
            n == fs@.len(),
            i <= n,
            out@ == old(out)@ + str_concat(fs@.take(i as int)),
        decreases n - i,
    {
        proof {
            assert(fs@.take(i + 1).drop_last() =~= fs@.take(i as int));
            assert(fs@.take(i + 1).last() == fs@[i as int]);
        }
        match &fs[i] {
            DbusValue::Str(s) => {
                out.append(s.as_str());
            },
            _ => {},
        }
        assert(out@ =~= old(out)@ + str_concat(fs@.take(i + 1)));
        i = i + 1;
    }
    assert(fs@.take(n as int) =~= fs@);
}

fn segment_text_exec(e: &DbusValue, out: &mut String)
    ensures
        final(out)@ == old(out)@ + segment_text(*e),
{
    let ev: &DbusValue = match e {
        DbusValue::Value(inner) => inner,
        other => other,
    };
    match ev {
        DbusValue::Structure(fs) => str_concat_exec(fs, out),
        _ => {
            assert(out@ =~= old(out)@ + Seq::<char>::empty());
        },
    }
}

fn preedit_text_exec(fields: &[DbusValue]) -> (res: String)
    ensures
        res@ == preedit_text(fields@),
{
    let mut out = String::new();
    let n = fields.len();
    let mut i: usize = 0;
    while i < n
        invariant
            n == fields@.len(),
            i <= n,
            out@ == preedit_text(fields@.take(i as int)),
        decreases n - i,
    {
        proof {
            assert(fields@.take(i + 1).drop_last() =~= fields@.take(i as int));
            assert(fields@.take(i + 1).last() == fields@[i as int]);
        }
        match &fields[i] {
            DbusValue::Array(a) => {
                let m = a.len();
                let mut j: usize = 0;
                let ghost base = out@;
                while j < m
                    invariant
                        m == a@.len(),
                        j <= m,
                        out@ == base + array_text(a@.take(j as int)),
                    decreases m - j,
                {
                    proof {
                        assert(a@.take(j + 1).drop_last() =~= a@.take(j as int));
                        assert(a@.take(j + 1).last() == a@[j as int]);
                    }
                    segment_text_exec(&a[j], &mut out);
                    assert(out@ =~= base + array_text(a@.take(j + 1)));
                    j = j + 1;
                }
                assert(a@.take(m as int) =~= a@);
            },
            _ => {},
        }
        assert(out@ =~= preedit_text(fields@.take(i + 1)));
        i = i + 1;
    }
    assert(fields@.take(n as int) =~= fields@);
    out
}

proof fn lemma_cursor_skip(vs: Seq<DbusValue>, i: int)
    requires
        0 <= i <= vs.len(),
        forall|j: int| 0 <= j < i ==> (#[trigger] vs[j] is Array || int_of(vs[j]) is None),
    ensures
        preedit_cursor(vs) == preedit_cursor(vs.subrange(i, vs.len() as int)),
    decreases i,
{
    if i > 0 {
        let rest = vs.subrange(1, vs.len() as int);
        assert(rest.subrange(i - 1, rest.len() as int) =~= vs.subrange(i, vs.len() as int));
        assert forall|j: int| 0 <= j < i - 1 implies (#[trigger] rest[j] is Array || int_of(rest[j]) is None) by {
            assert(rest[j] == vs[j + 1]);
        }
        lemma_cursor_skip(rest, i - 1);
    } else {
        assert(vs.subrange(0, vs.len() as int) =~= vs);
    }
}

fn preedit_cursor_exec(fields: &[DbusValue]) -> (res: Option<i32>)
    ensures
        res == preedit_cursor(fields@),
{
    let n = fields.len();
    let mut i: usize = 0;
    while i < n
        invariant
            n == fields@.len(),
            i <= n,
            forall|j: int| 0 <= j < i ==> (#[trigger] fields@[j] is Array || int_of(fields@[j]) is None),
        decreases n - i,
    {
        proof {
            lemma_cursor_skip(fields@, i as int);
            assert(fields@.subrange(i as int, n as int)[0] == fields@[i as int]);
            assert(fields@.subrange(i as int, n as int).subrange(1, n - i) =~= fields@.subrange(i + 1, n as int));
        }
        let is_array = match &fields[i] {
            DbusValue::Array(_) => true,
            _ => false,
        };
        if !is_array {
            match int_in_value(&fields[i]) {
                Some(k) => {
                    return Some(k as i32);
                },
                None => {},
            }
        }
        i = i + 1;
    }
    proof {
        lemma_cursor_skip(fields@, n as int);
    }
    None
}

/// Reads `UpdateFormattedPreedit` (see [`formatted_preedit`]).
pub fn parse_formatted_preedit(fields: &[DbusValue]) -> (res: Option<(String, i32)>)
    ensures
        match res {
            Some(p) => (p.0@, p.1) == formatted_preedit(fields@),
            None => false,
        },
{
    let text = preedit_text_exec(fields);
    let cursor = match preedit_cursor_exec(fields) {
        Some(c) => c,
        None => text.as_str().unicode_len() as i32,
    };
    Some((text, cursor))
}

/// The `(before, after)` lengths of a deletion of `nchars` characters at
/// `offset` from the cursor (offset ≤ 0 reaches back before the cursor).
pub open spec fn delete_span(offset: i32, nchars: u32) -> (u32, u32) {
    if offset <= 0 {
        let back = (-(offset as int)) as u32;
        (back, if nchars >= back { (nchars - back) as u32 } else { 0 })
    } else {
        (0, nchars)
    }
}

/// Commits with text, preedits and deletions are atomic: each gives its
/// event followed by `Done`.
pub proof fn law_fcitx5_text_signals_pair_with_done(name: Seq<char>, fields: Seq<DbusValue>)
    ensures
        (name == "UpdateFormattedPreedit"@ || name == "DeleteSurroundingText"@ || (name == "CommitString"@
            && text_of_list(fields) is Some)) ==> ({
            &&& fcitx5_signal(name, fields) is Ok
            &&& fcitx5_signal(name, fields)->Ok_0.len() == 2
            &&& fcitx5_signal(name, fields)->Ok_0[1] == WorkerMsgView::Ev(HostEventView::Done(0))
        }),
{
    reveal_strlit("CommitString");
    reveal_strlit("UpdateFormattedPreedit");
    reveal_strlit("DeleteSurroundingText");
    assert("CommitString"@.len() != "UpdateFormattedPreedit"@.len());
    assert("CommitString"@.len() != "DeleteSurroundingText"@.len());
    assert("UpdateFormattedPreedit"@.len() != "DeleteSurroundingText"@.len());
}

/// The worker messages of an fcitx5 signal `name` with body `fields`;
/// `Err` for a commit without text and for a signal that is not watched.
pub open spec fn fcitx5_signal(name: Seq<char>, fields: Seq<DbusValue>) -> Result<Seq<WorkerMsgView>, Seq<char>> {
    if name == "CommitString"@ {
        match text_of_list(fields) {
            Some(t) => Ok(with_done(HostEventView::CommitString(t))),
            None => Err("CommitString 缺少文本字段"@),
        }
    } else if name == "UpdateFormattedPreedit"@ {
        let (t, c) = formatted_preedit(fields);
        if t.len() > 0 {
            Ok(with_done(HostEventView::PreeditString(t, c, c)))
        } else {
            Ok(with_done(HostEventView::PreeditString(Seq::empty(), 0, 0)))
        }
    } else if name == "DeleteSurroundingText"@ {
        let offset = (match crate::dbus_value::int_of_list(fields) {
            Some(n) => n,
            None => 0,
        }) as i32;
        let nchars = (if fields.len() > 1 {
            match int_of(fields[1]) {
                Some(n) => n,
                None => 0,
            }
        } else {
            0
        }) as u32;
        let (b, a) = delete_span(offset, nchars);
        Ok(with_done(HostEventView::DeleteSurroundingText(b, a)))
    } else if name == "ForwardKey"@ {
        let nums = ints_of(fields);
        let evdev = (if nums.len() > 1 { nums[1] } else { 0 }) as u32;
        let release = (if nums.len() > 2 { nums[2] } else { 0 }) != 0;
        Ok(
            seq![WorkerMsgView::Forward(ForwardedKey {
                key: key_of_evdev(evdev),
                action: if release { KeyboardAction::Release } else { KeyboardAction::Press },
            })],
        )
    } else {
        Err("未注册的信号 "@ + name)
    }
}

pub open spec fn msgs_view(v: Seq<FromWorker>) -> Seq<WorkerMsgView> {
    v.map_values(|m: FromWorker| m@)
}

fn pair_with_done(e: HostEvent) -> (res: Vec<FromWorker>)
    ensures
        msgs_view(res@) == with_done(e@),
{
    let mut v: Vec<FromWorker> = Vec::new();
    v.push(FromWorker::Ev(e));
    v.push(FromWorker::Ev(HostEvent::Done(0)));
    assert(msgs_view(v@) =~= with_done(e@));
    v
}

fn ints_exec(fields: &[DbusValue]) -> (res: Vec<i64>)
    ensures
        res@ == ints_of(fields@),
{
    let mut out: Vec<i64> = Vec::new();
    let n = fields.len();
    let mut i: usize = 0;
    while i < n
        invariant
            n == fields@.len(),
            i <= n,
            out@ == ints_of(fields@.take(i as int)),
        decreases n - i,
    {
        proof {
            assert(fields@.take(i + 1).drop_last() =~= fields@.take(i as int));
            assert(fields@.take(i + 1).last() == fields@[i as int]);
        }
        match int_in_value(&fields[i]) {
            Some(k) => {
                out.push(k);
            },
            None => {
                assert(out@ =~= out@ + Seq::<i64>::empty());
            },
        }
        i = i + 1;
    }
    assert(fields@.take(n as int) =~= fields@);
    out
}

/// Reads one fcitx5 signal into worker messages (see [`fcitx5_signal`]).
pub fn fcitx5_signal_messages(name: &str, fields: &[DbusValue]) -> (res: Result<Vec<FromWorker>, String>)
    ensures
        match res {
            Ok(v) => fcitx5_signal(name@, fields@) == Ok::<Seq<WorkerMsgView>, Seq<char>>(msgs_view(v@)),
            Err(e) => fcitx5_signal(name@, fields@) == Err::<Seq<WorkerMsgView>, Seq<char>>(e@),
        },
{
    if crate::text::str_eq(name, "CommitString") {
        match find_text(fields) {
            Some(t) => Ok(pair_with_done(HostEvent::CommitString(t))),
            None => Err(String::from_str("CommitString 缺少文本字段")),
        }
    } else if crate::text::str_eq(name, "UpdateFormattedPreedit") {
        let (t, c) = match parse_formatted_preedit(fields) {
            Some(p) => p,
            None => (String::new(), 0),
        };
        if !t.as_str().is_empty() {
            Ok(pair_with_done(HostEvent::PreeditString(t, c, c)))
        } else {
            Ok(pair_with_done(HostEvent::PreeditString(String::new(), 0, 0)))
        }
    } else if crate::text::str_eq(name, "DeleteSurroundingText") {
        let offset = (match find_int(fields) {
            Some(n) => n,
            None => 0,
        }) as i32;
        let nchars = (if fields.len() > 1 {
            match int_in_value(&fields[1]) {
                Some(n) => n,
                None => 0,
            }
        } else {
            0
        }) as u32;
        let (b, a) = if offset <= 0 {
            let back = (-(offset as i64)) as u32;
            (back, if nchars >= back { nchars - back } else { 0 })
        } else {
            (0u32, nchars)
        };
        Ok(pair_with_done(HostEvent::DeleteSurroundingText(b, a)))
    } else if crate::text::str_eq(name, "ForwardKey") {
        let nums = ints_exec(fields);
        let evdev = (if nums.len() > 1 { nums[1] } else { 0 }) as u32;
        let release = (if nums.len() > 2 { nums[2] } else { 0 }) != 0;
        let key = if evdev > u32::MAX - 8 { u32::MAX } else { evdev + 8 };
        let action = if release { KeyboardAction::Release } else { KeyboardAction::Press };
        let mut v: Vec<FromWorker> = Vec::new();
        v.push(FromWorker::Forward(ForwardedKey { key, action }));
        assert(msgs_view(v@) =~= seq![WorkerMsgView::Forward(ForwardedKey { key, action })]);
        Ok(v)
    } else {
        let mut msg = String::from_str("未注册的信号 ");
        msg.append(name);
        Err(msg)
    }
}

/// A deletion of `nchars` characters at `offset` ≤ 0 from the cursor
/// removes the range `[cursor + offset, cursor + offset + nchars)` and
/// nothing more: `-offset` characters before the cursor, and after it the
/// rest of the range, which is empty when the range ends at or before the
/// cursor. The event is followed by `Done`.
pub proof fn law_fcitx5_deletion_removes_exactly_its_range(offset: i32, nchars: u32)
    requires
        offset <= 0,
    ensures
        ({
            let r = fcitx5_signal("DeleteSurroundingText"@, seq![DbusValue::I32(offset), DbusValue::U32(nchars)]);
            &&& r is Ok
            &&& r->Ok_0.len() == 2
            &&& r->Ok_0[1] == WorkerMsgView::Ev(HostEventView::Done(0))
            &&& r->Ok_0[0] matches WorkerMsgView::Ev(HostEventView::DeleteSurroundingText(before, after))
                && before == -(offset as int)
                && (nchars >= -(offset as int) ==> before + after == nchars)
                && (nchars <= -(offset as int) ==> after == 0)
        }),
{
    reveal_strlit("CommitString");
    reveal_strlit("UpdateFormattedPreedit");
    reveal_strlit("DeleteSurroundingText");
    assert("CommitString"@.len() != "DeleteSurroundingText"@.len());
    assert("UpdateFormattedPreedit"@.len() != "DeleteSurroundingText"@.len());
    let fields = seq![DbusValue::I32(offset), DbusValue::U32(nchars)];
    assert(fields[0] == DbusValue::I32(offset));
    assert(int_of(fields[0]) == Some(offset as i64));
    assert(crate::dbus_value::int_of_list(fields) == Some(offset as i64));
    assert(int_of(fields[1]) == Some(nchars as i64));
}

} // verus!
