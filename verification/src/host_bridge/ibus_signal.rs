//! Reading ibus signals for the host bridge.
//!
//! Signal bodies are read by their wire signatures (`CommitText (v)`,
//! `UpdatePreeditText (vub)`, `UpdatePreeditTextWithMode (vubu)`,
//! `DeleteSurroundingText (iu)`, `UpdateLookupTable (vb)`,
//! `ForwardKeyEvent (uuu)`); a body of another shape gives empty values.
//! The text of a serialised `IBusText` is the first non-empty string that
//! does not start with `IBus` (GObject type names).

use vstd::prelude::*;
use crate::dbus_value::DbusValue;
use crate::ime_event::strings_view;
use crate::text::{occurs_at, str_eq, str_starts_with};
use super::dbus_ibus::{FromWorker, WorkerMsg};

verus! {

/// Whether a string is user content: non-empty and not a GObject type name.
pub open spec fn is_content(s: Seq<char>) -> bool {
    s.len() > 0 && !occurs_at(s, "IBus"@, 0)
}

/// The first content string in a value, descending into structures and arrays.
pub open spec fn content_of(v: DbusValue) -> Option<Seq<char>>
    decreases v,
{
    match v {
        DbusValue::Str(s) => if is_content(s@) {
            Some(s@)
        } else {
            None
        },
        DbusValue::Structure(fs) => content_of_list(fs@),
        DbusValue::Array(a) => content_of_list(a@),
        _ => None,
    }
}

/// The first content string in a list of values, in order.
pub open spec fn content_of_list(vs: Seq<DbusValue>) -> Option<Seq<char>>
    decreases vs,
{
    if vs.len() == 0 {
        None
    } else {
        match content_of(vs[0]) {
            Some(t) => Some(t),
            None => content_of_list(vs.subrange(1, vs.len() as int)),
        }
    }
}

/// The text of a serialised `IBusText`, empty when there is none.
pub open spec fn ibustext(v: DbusValue) -> Seq<char> {
    match content_of(v) {
        Some(t) => t,
        None => Seq::empty(),
    }
}

proof fn lemma_content_skip(vs: Seq<DbusValue>, i: int)
    requires
        0 <= i <= vs.len(),
        forall|j: int| 0 <= j < i ==> content_of(#[trigger] vs[j]) is None,
    ensures
        content_of_list(vs) == content_of_list(vs.subrange(i, vs.len() as int)),
    decreases i,
{
    if i > 0 {
        let rest = vs.subrange(1, vs.len() as int);
        assert(rest.subrange(i - 1, rest.len() as int) =~= vs.subrange(i, vs.len() as int));
        assert forall|j: int| 0 <= j < i - 1 implies content_of(#[trigger] rest[j]) is None by {
            assert(rest[j] == vs[j + 1]);
        }
        lemma_content_skip(rest, i - 1);
    } else {
        assert(vs.subrange(0, vs.len() as int) =~= vs);
    }
}

fn content_in_list(vs: &Vec<DbusValue>) -> (res: Option<String>)
    ensures
        match res {
            Some(t) => content_of_list(vs@) == Some(t@),
            None => content_of_list(vs@) is None,
        },
    decreases vs@,
{
    let n = vs.len();
    let mut i: usize = 0;
    while i < n
        invariant
            n == vs@.len(),
            i <= n,
            forall|j: int| 0 <= j < i ==> content_of(#[trigger] vs@[j]) is None,
        decreases n - i,
    {
        proof {
            lemma_content_skip(vs@, i as int);
        }
        match find_content_str(&vs[i]) {
            Some(t) => {
                return Some(t);
            },
            None => {},
        }
        i = i + 1;
    }
    proof {
        lemma_content_skip(vs@, n as int);
    }
    None
}

/// The first content string in a value (see [`content_of`]).
pub fn find_content_str(v: &DbusValue) -> (res: Option<String>)
    ensures
        match res {
            Some(t) => content_of(*v) == Some(t@),
            None => content_of(*v) is None,
        },
    decreases *v,
{
    match v {
        DbusValue::Str(s) => {
            if !s.as_str().is_empty() && !str_starts_with(s.as_str(), "IBus") {
                Some(s.clone())
            } else {
                None
            }
        },
        DbusValue::Structure(fs) => content_in_list(fs),
        DbusValue::Array(a) => content_in_list(a),
        _ => None,
    }
}

/// The text of a serialised `IBusText` (empty when there is none).
pub fn extract_ibustext(v: &DbusValue) -> (res: String)
    ensures
        res@ == ibustext(*v),
{
    match find_content_str(v) {
        Some(t) => t,
        None => String::new(),
    }
}

/// The texts of the array items that have content, in order.
pub open spec fn item_texts(items: Seq<DbusValue>) -> Seq<Seq<char>>
    decreases items.len(),
{
    if items.len() == 0 {
        Seq::empty()
    } else {
        item_texts(items.drop_last()) + match content_of(items.last()) {
            Some(t) => seq![t],
            None => Seq::empty(),
        }
    }
}

/// The item texts of a field that is an array (nothing for other fields).
pub open spec fn array_texts(f: DbusValue) -> Seq<Seq<char>> {
    match f {
        DbusValue::Array(a) => item_texts(a@),
        _ => Seq::empty(),
    }
}

/// The item texts of the array fields of a structure, field after field.
pub open spec fn array_field_texts(fs: Seq<DbusValue>) -> Seq<Seq<char>>
    decreases fs.len(),
{
    if fs.len() == 0 {
        Seq::empty()
    } else {
        array_field_texts(fs.drop_last()) + array_texts(fs.last())
    }
}

/// Whether a field is the type name `IBusLookupTable`.
pub open spec fn is_table_type(f: DbusValue) -> bool {
    match f {
        DbusValue::Str(s) => s@ == "IBusLookupTable"@,
        _ => false,
    }
}

/// Whether the type name `IBusLookupTable` occurs among the fields.
pub open spec fn table_type_seen(fs: Seq<DbusValue>) -> bool
    decreases fs.len(),
{
    fs.len() > 0 && (table_type_seen(fs.drop_last()) || is_table_type(fs.last()))
}

/// The `u32` fields that come after the type name, in order (page size,
/// then cursor position, then any others).
pub open spec fn table_u32s(fs: Seq<DbusValue>) -> Seq<u32>
    decreases fs.len(),
{
    if fs.len() == 0 {
        Seq::empty()
    } else {
        table_u32s(fs.drop_last()) + match fs.last() {
            DbusValue::U32(n) => if table_type_seen(fs.drop_last()) {
                seq![n]
            } else {
                Seq::empty()
            },
            _ => Seq::empty(),
        }
    }
}

/// Candidates found at any depth: in each structure, the item texts of
/// each array field, then what its fields hold, field after field.
pub open spec fn nested_texts(v: DbusValue) -> Seq<Seq<char>>
    decreases v,
{
    match v {
        DbusValue::Structure(fs) => nested_texts_list(fs@),
        _ => Seq::empty(),
    }
}

pub open spec fn nested_texts_list(fs: Seq<DbusValue>) -> Seq<Seq<char>>
    decreases fs,
{
    if fs.len() == 0 {
        Seq::empty()
    } else {
        array_texts(fs[0]) + nested_texts(fs[0]) + nested_texts_list(fs.subrange(1, fs.len() as int))
    }
}

/// Candidates and cursor of a serialised `IBusLookupTable` (a non-empty
/// structure): the item texts of its array fields, or, when there are
/// none, the candidates found at any depth; the cursor is the second `u32`
/// after the type name (0 when there is none).
pub open spec fn lookup_of(v: DbusValue) -> Option<(Seq<Seq<char>>, u32)> {
    match v {
        DbusValue::Structure(fs) => if fs@.len() == 0 {
            None
        } else {
            let direct = array_field_texts(fs@);
            let us = table_u32s(fs@);
            Some(
                (
                    if direct.len() == 0 { nested_texts(v) } else { direct },
                    if us.len() > 1 { us[1] } else { 0 },
                ),
            )
        },
        _ => None,
    }
}

fn item_texts_exec(items: &Vec<DbusValue>) -> (res: Vec<String>)
    ensures
        strings_view(res@) == item_texts(items@),
{
    let mut out: Vec<String> = Vec::new();
    let n = items.len();
    let mut i: usize = 0;
    while i < n
        invariant
            n == items@.len(),
            i <= n,
            strings_view(out@) == item_texts(items@.take(i as int)),
        decreases n - i,
    {
        proof {
            assert(items@.take(i + 1).drop_last() =~= items@.take(i as int));
            assert(items@.take(i + 1).last() == items@[i as int]);
        }
        let ghost before = out@;
        match find_content_str(&items[i]) {
            Some(t) => {
                out.push(t);
                assert(strings_view(out@) =~= strings_view(before) + seq![out@.last()@]);
            },
            None => {
                assert(strings_view(out@) =~= item_texts(items@.take(i as int)) + Seq::<Seq<char>>::empty());
            },
        }
        i = i + 1;
    }
    assert(items@.take(n as int) =~= items@);
    out
}

fn array_texts_exec(f: &DbusValue) -> (res: Vec<String>)
    ensures
        strings_view(res@) == array_texts(*f),
{
    match f {
        DbusValue::Array(a) => item_texts_exec(a),
        _ => {
            let out: Vec<String> = Vec::new();
            assert(strings_view(out@) =~= Seq::<Seq<char>>::empty());
            out
        },
    }
}

fn nested_texts_exec(v: &DbusValue) -> (res: Vec<String>)
    ensures
        strings_view(res@) == nested_texts(*v),
    decreases *v,
{
    match v {
        DbusValue::Structure(fs) => nested_texts_list_exec(fs),
        _ => {
            let out: Vec<String> = Vec::new();
            assert(strings_view(out@) =~= Seq::<Seq<char>>::empty());
            out
        },
    }
}

fn nested_texts_list_exec(fs: &Vec<DbusValue>) -> (res: Vec<String>)
    ensures
        strings_view(res@) == nested_texts_list(fs@),
    decreases fs@,
{
    let mut out: Vec<String> = Vec::new();
    let n = fs.len();
    let mut i: usize = 0;
    assert(fs@.subrange(0, n as int) =~= fs@);
    assert(strings_view(out@) =~= Seq::<Seq<char>>::empty());
    while i < n
        invariant
            n == fs@.len(),
            i <= n,
            strings_view(out@) + nested_texts_list(fs@.subrange(i as int, n as int)) == nested_texts_list(fs@),
        decreases n - i,
    {
        let ghost rest = fs@.subrange(i as int, n as int);
        assert(rest[0] == fs@[i as int]);
        assert(rest.subrange(1, rest.len() as int) =~= fs@.subrange(i + 1, n as int));
        let ghost before = strings_view(out@);
        let mut direct = array_texts_exec(&fs[i]);
        let mut deeper = nested_texts_exec(&fs[i]);
        let ghost d1 = strings_view(direct@);
        let ghost d2 = strings_view(deeper@);
        out.append(&mut direct);
        out.append(&mut deeper);
        proof {
            assert(strings_view(out@) =~= before + d1 + d2);
            assert(before + nested_texts_list(rest) =~= before + d1 + d2 + nested_texts_list(
                fs@.subrange(i + 1, n as int),
            ));
        }
        i = i + 1;
    }
    assert(fs@.subrange(n as int, n as int) =~= Seq::<DbusValue>::empty());
    assert(strings_view(out@) + Seq::<Seq<char>>::empty() =~= strings_view(out@));
    out
}

/// Reads a serialised `IBusLookupTable` (see [`lookup_of`]).
pub fn extract_lookup_table(v: &DbusValue) -> (res: Option<(Vec<String>, u32)>)
    ensures
        match res {
            Some((c, p)) => lookup_of(*v) == Some((strings_view(c@), p)),
            None => lookup_of(*v) is None,
        },
{
    let fs = match v {
        DbusValue::Structure(fs) => fs,
        _ => {
            return None;
        },
    };
    let n = fs.len();
    if n == 0 {
        return None;
    }
    let mut candidates: Vec<String> = Vec::new();
    let mut ints: Vec<u32> = Vec::new();
    let mut seen_type = false;
    let mut i: usize = 0;
    while i < n
        invariant
            n == fs@.len(),
            i <= n,
            strings_view(candidates@) == array_field_texts(fs@.take(i as int)),
            ints@ == table_u32s(fs@.take(i as int)),
            seen_type == table_type_seen(fs@.take(i as int)),
        decreases n - i,
    {
        proof {
            assert(fs@.take(i + 1).drop_last() =~= fs@.take(i as int));
            assert(fs@.take(i + 1).last() == fs@[i as int]);
        }
        let ghost before = strings_view(candidates@);
        let mut direct = array_texts_exec(&fs[i]);
        let ghost d = strings_view(direct@);
        candidates.append(&mut direct);
        assert(strings_view(candidates@) =~= before + d);
        match &fs[i] {
            DbusValue::U32(k) => {
                if seen_type {
                    ints.push(*k);
                } else {
                    assert(ints@ =~= ints@ + Seq::<u32>::empty());
                }
            },
            DbusValue::Str(s) => {
                if str_eq(s.as_str(), "IBusLookupTable") {
                    seen_type = true;
                }
                assert(ints@ =~= ints@ + Seq::<u32>::empty());
            },
            _ => {
                assert(ints@ =~= ints@ + Seq::<u32>::empty());
            },
        }
        i = i + 1;
    }
    assert(fs@.take(n as int) =~= fs@);
    if candidates.len() == 0 {
        candidates = nested_texts_list_exec(fs);
    }
    let cursor = if ints.len() > 1 { ints[1] } else { 0 };
    Some((candidates, cursor))
}

/// The single variant of a `(v)` body.
pub open spec fn body_v(fields: Seq<DbusValue>) -> Option<DbusValue> {
    if fields.len() == 1 {
        match fields[0] {
            DbusValue::Value(b) => Some(*b),
            _ => None,
        }
    } else {
        None
    }
}

/// The text and cursor of a `(v u b)` body, or of a `(v u b u)` body when
/// `with_mode`; empty text and 0 for a body of another shape.
pub open spec fn preedit_body(fields: Seq<DbusValue>, with_mode: bool) -> (Seq<char>, u32) {
    let shaped = fields.len() == (if with_mode { 4int } else { 3int }) && fields[1] is U32
        && fields[2] is Bool && (with_mode ==> fields[3] is U32);
    if shaped {
        match (fields[0], fields[1]) {
            (DbusValue::Value(b), DbusValue::U32(c)) => (ibustext(*b), c),
            _ => (Seq::empty(), 0),
        }
    } else {
        (Seq::empty(), 0)
    }
}

/// The offset of an `(i u)` body (0 for a body of another shape).
pub open spec fn offset_body(fields: Seq<DbusValue>) -> i32 {
    if fields.len() == 2 && fields[1] is U32 {
        match fields[0] {
            DbusValue::I32(o) => o,
            _ => 0,
        }
    } else {
        0
    }
}

/// Candidates, cursor and visibility of a `(v b)` body.
pub open spec fn lookup_body(fields: Seq<DbusValue>) -> (Seq<Seq<char>>, u32, bool) {
    if fields.len() == 2 {
        match (fields[0], fields[1]) {
            (DbusValue::Value(b), DbusValue::Bool(visible)) => match lookup_of(*b) {
                Some((c, p)) => (c, p, visible),
                None => (Seq::empty(), 0, visible),
            },
            _ => (Seq::empty(), 0, false),
        }
    } else {
        (Seq::empty(), 0, false)
    }
}

/// Keyval, keycode and state of a `(u u u)` body.
pub open spec fn key_body(fields: Seq<DbusValue>) -> Option<(u32, u32, u32)> {
    if fields.len() == 3 {
        match (fields[0], fields[1], fields[2]) {
            (DbusValue::U32(a), DbusValue::U32(b), DbusValue::U32(c)) => Some((a, b, c)),
            _ => None,
        }
    } else {
        None
    }
}

/// The deletion `(before, after)` of an ibus offset: a negative offset
/// deletes before the cursor, another one after it.
pub open spec fn deletion_of(offset: i32) -> (u32, u32) {
    if offset < 0 {
        ((-offset) as u32, 0)
    } else {
        (0, offset as u32)
    }
}

/// An empty candidate window, shown or hidden.
pub open spec fn bare_table(visible: bool) -> WorkerMsg {
    WorkerMsg::LookupTable {
        candidates: Seq::empty(),
        labels: Seq::empty(),
        cursor_pos: 0,
        cursor_visible: visible,
        page_size: 0,
        orientation: 0,
        visible,
    }
}

/// A message followed by the `Done` that closes its batch.
pub open spec fn then_done(m: WorkerMsg) -> Seq<WorkerMsg> {
    seq![m, WorkerMsg::Done(0)]
}

/// Signals that are watched but carry nothing for the bridge.
pub open spec fn ignored_signal(name: Seq<char>) -> bool {
    name == "RequireSurroundingText"@ || name == "UpdateProperty"@ || name == "RegisterProperties"@
        || name == "Enabled"@ || name == "Disabled"@
}

/// The worker messages of the ibus signal `name` with body `fields`;
/// `Err` for a signal that is not known.
pub open spec fn bridge_signal(name: Seq<char>, fields: Seq<DbusValue>) -> Result<Seq<WorkerMsg>, Seq<char>> {
    if name == "CommitText"@ {
        Ok(then_done(WorkerMsg::Commit(match body_v(fields) {
            Some(v) => ibustext(v),
            None => Seq::empty(),
        })))
    } else if name == "UpdatePreeditText"@ || name == "UpdatePreeditTextWithMode"@ {
        let (t, c) = preedit_body(fields, name == "UpdatePreeditTextWithMode"@);
        Ok(then_done(WorkerMsg::Preedit { text: t, cursor_begin: c as i32, cursor_end: c as i32, clear: false }))
    } else if name == "HidePreeditText"@ {
        Ok(then_done(WorkerMsg::Preedit { text: Seq::empty(), cursor_begin: 0, cursor_end: 0, clear: true }))
    } else if name == "DeleteSurroundingText"@ {
        let (before, after) = deletion_of(offset_body(fields));
        Ok(then_done(WorkerMsg::DeleteSurrounding { before, after }))
    } else if name == "UpdateLookupTable"@ {
        let (c, p, visible) = lookup_body(fields);
        Ok(then_done(WorkerMsg::LookupTable {
            candidates: c,
            labels: Seq::empty(),
            cursor_pos: p,
            cursor_visible: true,
            page_size: c.len() as u32,
            orientation: 0,
            visible,
        }))
    } else if name == "ShowLookupTable"@ {
        Ok(then_done(bare_table(true)))
    } else if name == "HideLookupTable"@ {
        Ok(then_done(bare_table(false)))
    } else if name == "ForwardKeyEvent"@ {
        match key_body(fields) {
            Some((_, keycode, state)) => Ok(seq![WorkerMsg::ForwardKey { keycode, is_release: state & 0x4000_0000u32 != 0 }]),
            None => Ok(Seq::empty()),
        }
    } else if ignored_signal(name) {
        Ok(Seq::empty())
    } else {
        Err("unknown signal "@ + name)
    }
}

/// Each text signal of ibus is one batch: its message, then the `Done`
/// that closes it; a forwarded key stands alone, without `Done`.
pub proof fn law_text_signals_close_their_batch(name: Seq<char>, fields: Seq<DbusValue>)
    ensures
        (name == "CommitText"@ || name == "UpdatePreeditText"@ || name == "UpdatePreeditTextWithMode"@
            || name == "HidePreeditText"@ || name == "DeleteSurroundingText"@ || name == "UpdateLookupTable"@
            || name == "ShowLookupTable"@ || name == "HideLookupTable"@) ==> ({
            &&& bridge_signal(name, fields) is Ok
            &&& bridge_signal(name, fields)->Ok_0.len() == 2
            &&& bridge_signal(name, fields)->Ok_0[1] == WorkerMsg::Done(0)
            &&& !(bridge_signal(name, fields)->Ok_0[0] is Done)
        }),
        name == "ForwardKeyEvent"@ ==> bridge_signal(name, fields) is Ok && forall|i: int|
            0 <= i < bridge_signal(name, fields)->Ok_0.len() ==> !(#[trigger] bridge_signal(name, fields)->Ok_0[i] is Done),
{
    if name == "ForwardKeyEvent"@ {
        reveal_strlit("ForwardKeyEvent");
        reveal_strlit("CommitText");
        reveal_strlit("UpdatePreeditText");
        reveal_strlit("UpdatePreeditTextWithMode");
        reveal_strlit("HidePreeditText");
        reveal_strlit("DeleteSurroundingText");
        reveal_strlit("UpdateLookupTable");
        reveal_strlit("ShowLookupTable");
        reveal_strlit("HideLookupTable");
        assert(name.len() == 15);
        assert(name != "CommitText"@);
        assert(name != "UpdatePreeditText"@);
        assert(name != "UpdatePreeditTextWithMode"@);
        assert(name != "HidePreeditText"@) by {
            assert(name[0] != "HidePreeditText"@[0]);
        }
        assert(name != "DeleteSurroundingText"@);
        assert(name != "UpdateLookupTable"@);
        assert(name != "ShowLookupTable"@) by {
            assert(name[0] != "ShowLookupTable"@[0]);
        }
        assert(name != "HideLookupTable"@) by {
            assert(name[0] != "HideLookupTable"@[0]);
        }
        let out = bridge_signal(name, fields)->Ok_0;
        match key_body(fields) {
            Some((_, keycode, state)) => {
                assert(out == seq![WorkerMsg::ForwardKey { keycode, is_release: state & 0x4000_0000u32 != 0 }]);
            },
            None => {
                assert(out == Seq::<WorkerMsg>::empty());
            },
        }
    }
}

/// The views of a list of worker messages.
pub open spec fn msgs_view(v: Seq<FromWorker>) -> Seq<WorkerMsg> {
    v.map_values(|m: FromWorker| m@)
}

fn with_done(m: FromWorker) -> (res: Vec<FromWorker>)
    ensures
        msgs_view(res@) == then_done(m@),
{
    let mut v: Vec<FromWorker> = Vec::new();
    v.push(m);
    v.push(FromWorker::Done(0));
    assert(msgs_view(v@) =~= then_done(m@));
    v
}

fn empty_table(visible: bool) -> (res: FromWorker)
    ensures
        res@ == bare_table(visible),
{
    let m = FromWorker::LookupTable {
        candidates: Vec::new(),
        labels: Vec::new(),
        cursor_pos: 0,
        cursor_visible: visible,
        page_size: 0,
        orientation: 0,
        visible,
    };
    assert(strings_view(Seq::<String>::empty()) =~= Seq::<Seq<char>>::empty());
    m
}

fn read_commit(fields: &[DbusValue]) -> (res: String)
    ensures
        res@ == (match body_v(fields@) {
            Some(v) => ibustext(v),
            None => Seq::empty(),
        }),
{
    if fields.len() == 1 {
        match &fields[0] {
            DbusValue::Value(b) => extract_ibustext(b),
            _ => String::new(),
        }
    } else {
        String::new()
    }
}

fn read_preedit(fields: &[DbusValue], with_mode: bool) -> (res: (String, u32))
    ensures
        (res.0@, res.1) == preedit_body(fields@, with_mode),
{
    let want: usize = if with_mode { 4 } else { 3 };
    if fields.len() != want {
        return (String::new(), 0);
    }
    let mode_ok = if with_mode {
        match &fields[3] {
            DbusValue::U32(_) => true,
            _ => false,
        }
    } else {
        true
    };
    match (&fields[0], &fields[1], &fields[2]) {
        (DbusValue::Value(b), DbusValue::U32(c), DbusValue::Bool(_)) => {
            if mode_ok {
                (extract_ibustext(b), *c)
            } else {
                (String::new(), 0)
            }
        },
        _ => (String::new(), 0),
    }
}

fn read_offset(fields: &[DbusValue]) -> (res: i32)
    ensures
        res == offset_body(fields@),
{
    if fields.len() != 2 {
        return 0;
    }
    match (&fields[0], &fields[1]) {
        (DbusValue::I32(o), DbusValue::U32(_)) => *o,
        _ => 0,
    }
}

fn read_lookup(fields: &[DbusValue]) -> (res: (Vec<String>, u32, bool))
    ensures
        (strings_view(res.0@), res.1, res.2) == lookup_body(fields@),
{
    let none: Vec<String> = Vec::new();
    assert(strings_view(none@) =~= Seq::<Seq<char>>::empty());
    if fields.len() != 2 {
        return (none, 0, false);
    }
    match (&fields[0], &fields[1]) {
        (DbusValue::Value(b), DbusValue::Bool(visible)) => match extract_lookup_table(b) {
            Some((c, p)) => (c, p, *visible),
            None => (none, 0, *visible),
        },
        _ => (none, 0, false),
    }
}

fn read_key(fields: &[DbusValue]) -> (res: Option<(u32, u32, u32)>)
    ensures
        res == key_body(fields@),
{
    if fields.len() != 3 {
        return None;
    }
    match (&fields[0], &fields[1], &fields[2]) {
        (DbusValue::U32(a), DbusValue::U32(b), DbusValue::U32(c)) => Some((*a, *b, *c)),
        _ => None,
    }
}

/// Translates one ibus signal into worker messages (see [`bridge_signal`]).
pub fn handle_signal(name: &str, fields: &[DbusValue]) -> (res: Result<Vec<FromWorker>, String>)
    ensures
        match res {
            Ok(v) => bridge_signal(name@, fields@) == Ok::<Seq<WorkerMsg>, Seq<char>>(msgs_view(v@)),
            Err(e) => bridge_signal(name@, fields@) == Err::<Seq<WorkerMsg>, Seq<char>>(e@),
        },
{
    if str_eq(name, "CommitText") {
        Ok(with_done(FromWorker::Commit(read_commit(fields))))
    } else if str_eq(name, "UpdatePreeditText") || str_eq(name, "UpdatePreeditTextWithMode") {
        let (text, c) = read_preedit(fields, str_eq(name, "UpdatePreeditTextWithMode"));
        let cursor = c as i32;
        Ok(with_done(FromWorker::Preedit { text, cursor_begin: cursor, cursor_end: cursor, clear: false }))
    } else if str_eq(name, "HidePreeditText") {
        Ok(with_done(FromWorker::Preedit { text: String::new(), cursor_begin: 0, cursor_end: 0, clear: true }))
    } else if str_eq(name, "DeleteSurroundingText") {
        let offset = read_offset(fields);
        let (before, after) = if offset < 0 {
            ((-(offset as i64)) as u32, 0u32)
        } else {
            (0u32, offset as u32)
        };
        Ok(with_done(FromWorker::DeleteSurrounding { before, after }))
    } else if str_eq(name, "UpdateLookupTable") {
        let (candidates, cursor_pos, visible) = read_lookup(fields);
        let page_size = candidates.len() as u32;
        assert(strings_view(Seq::<String>::empty()) =~= Seq::<Seq<char>>::empty());
        Ok(with_done(FromWorker::LookupTable {
            candidates,
            labels: Vec::new(),
            cursor_pos,
            cursor_visible: true,
            page_size,
            orientation: 0,
            visible,
        }))
    } else if str_eq(name, "ShowLookupTable") {
        Ok(with_done(empty_table(true)))
    } else if str_eq(name, "HideLookupTable") {
        Ok(with_done(empty_table(false)))
    } else if str_eq(name, "ForwardKeyEvent") {
        let mut v: Vec<FromWorker> = Vec::new();
        match read_key(fields) {
            Some((_, keycode, state)) => {
                let is_release = state & 0x4000_0000u32 != 0;
                v.push(FromWorker::ForwardKey { keycode, is_release });
                assert(msgs_view(v@) =~= seq![WorkerMsg::ForwardKey { keycode, is_release }]);
            },
            None => {
                assert(msgs_view(v@) =~= Seq::<WorkerMsg>::empty());
            },
        }
        Ok(v)
    } else if str_eq(name, "RequireSurroundingText") || str_eq(name, "UpdateProperty") || str_eq(
        name,
        "RegisterProperties",
    ) || str_eq(name, "Enabled") || str_eq(name, "Disabled") {
        let v: Vec<FromWorker> = Vec::new();
        assert(msgs_view(v@) =~= Seq::<WorkerMsg>::empty());
        Ok(v)
    } else {
        let mut msg = String::from_str("unknown signal ");
        msg.append(name);
        Err(msg)
    }
}

} // verus!
