//! Reading ibus InputContext signals into worker messages.
//!
//! Each text signal becomes its event followed by `Done` (the atomic unit
//! is one signal). Bodies are read tolerantly: the first text, integer or
//! boolean is taken, descending into variants and structures.

use vstd::prelude::*;
use crate::dbus_value::{
    DbusValue, as_array, as_structure, bool_of_list, field_peeled, find_bool, find_int, find_text,
    gobject_typename, int_of, int_of_list, is_gobject_typename, peel, text_of_list,
};
use crate::ime_event::LookupTableView;
use crate::keyboard::KeyboardAction;
use super::{ForwardedKey, HostEvent, HostEventView, IBUS_RELEASE_MASK, WorkerMsgView};
use super::dbus_ibus::FromWorker;

verus! {

/// The text of a lookup-table element: a variant holding a serialised
/// `IBusText` whose third field is the text (type names and empty texts excluded).
pub open spec fn element_text(v: DbusValue) -> Option<Seq<char>> {
    match peel(v) {
        DbusValue::Structure(fs) => if fs@.len() > 2 {
            match peel(fs@[2]) {
                DbusValue::Str(s) => if s@.len() > 0 && !gobject_typename(s@) {
                    Some(s@)
                } else {
                    None
                },
                _ => None,
            }
        } else {
            None
        },
        _ => None,
    }
}

/// The texts of the elements of an array that have one, in order.
pub open spec fn element_texts(a: Seq<DbusValue>) -> Seq<Seq<char>>
    decreases a.len(),
{
    if a.len() == 0 {
        Seq::empty()
    } else {
        element_texts(a.drop_last()) + match element_text(a.last()) {
            Some(t) => seq![t],
            None => Seq::empty(),
        }
    }
}

/// The texts of the array at a peeled field, or nothing when it is not an array.
pub open spec fn texts_of_field(v: DbusValue) -> Seq<Seq<char>> {
    match peel(v) {
        DbusValue::Array(a) => element_texts(a@),
        _ => Seq::empty(),
    }
}

pub open spec fn u32_at(f: Seq<DbusValue>, i: int) -> u32 {
    if 0 <= i < f.len() {
        match peel(f[i]) {
            DbusValue::U32(n) => n,
            _ => 0,
        }
    } else {
        0
    }
}

pub open spec fn bool_at(f: Seq<DbusValue>, i: int) -> bool {
    if 0 <= i < f.len() {
        match peel(f[i]) {
            DbusValue::Bool(b) => b,
            _ => false,
        }
    } else {
        false
    }
}

/// The orientation field: a non-negative `i32`, negatives read as 0.
pub open spec fn orientation_at(f: Seq<DbusValue>, i: int) -> u32 {
    if 0 <= i < f.len() {
        match peel(f[i]) {
            DbusValue::I32(n) => if n > 0 { n as u32 } else { 0 },
            _ => 0,
        }
    } else {
        0
    }
}

/// `UpdateLookupTable (v b)`: a serialised `IBusLookupTable`
/// `(s a{sv} u u b b i av av)` — type name, attachments, page size, cursor
/// (absolute), cursor visibility, round, orientation, candidates, labels —
/// and the visibility flag. The cursor is made relative to its page.
pub open spec fn lookup_table_of(fields: Seq<DbusValue>) -> Result<LookupTableView, Seq<char>> {
    let visible = if fields.len() > 1 {
        match fields[1] {
            DbusValue::Bool(b) => b,
            _ => false,
        }
    } else {
        false
    };
    if fields.len() == 0 {
        Err("UpdateLookupTable 缺表字段"@)
    } else {
        match peel(fields[0]) {
            DbusValue::Structure(fs) => {
                let f = fs@;
                let page_size = u32_at(f, 2);
                let cursor_pos = u32_at(f, 3);
                if f.len() <= 7 {
                    Err("缺候选字段"@)
                } else if f.len() <= 8 {
                    Err("缺标签字段"@)
                } else {
                    Ok(
                        LookupTableView {
                            candidates: texts_of_field(f[7]),
                            labels: texts_of_field(f[8]),
                            cursor_pos: if page_size > 0 { (cursor_pos % page_size) as u32 } else { 0 },
                            cursor_visible: bool_at(f, 4),
                            page_size,
                            orientation: orientation_at(f, 6),
                            visible,
                        },
                    )
                }
            },
            _ => Err("UpdateLookupTable 表不是结构体"@),
        }
    }
}

/// The text of one lookup-table element (see [`element_text`]).
pub fn lookup_element_text(v: &DbusValue) -> (res: Option<String>)
    ensures
        match res {
            Some(t) => element_text(*v) == Some(t@),
            None => element_text(*v) is None,
        },
{
    let st = match as_structure(v) {
        Some(st) => st,
        None => {
            return None;
        },
    };
    match field_peeled(st.as_slice(), 2) {
        Some(DbusValue::Str(s)) => {
            if !s.as_str().is_empty() && !is_gobject_typename(s.as_str()) {
                Some(s.clone())
            } else {
                None
            }
        },
        _ => None,
    }
}

fn element_texts_exec(a: &Vec<DbusValue>) -> (res: Vec<String>)
    ensures
        crate::ime_event::strings_view(res@) == element_texts(a@),
{
    let mut out: Vec<String> = Vec::new();
    let n = a.len();
    let mut i: usize = 0;
    while i < n
        invariant
            n == a@.len(),
            i <= n,
            crate::ime_event::strings_view(out@) == element_texts(a@.take(i as int)),
        decreases n - i,
    {
        proof {
            assert(a@.take(i + 1).drop_last() =~= a@.take(i as int));
            assert(a@.take(i + 1).last() == a@[i as int]);
        }
        let ghost before = out@;
        match lookup_element_text(&a[i]) {
            Some(t) => {
                out.push(t);
                assert(crate::ime_event::strings_view(out@) =~= crate::ime_event::strings_view(before)
                    + seq![out@.last()@]);
            },
            None => {
                assert(crate::ime_event::strings_view(out@) =~= element_texts(a@.take(i as int))
                    + Seq::<Seq<char>>::empty());
            },
        }
        i = i + 1;
    }
    assert(a@.take(n as int) =~= a@);
    out
}

fn texts_of_field_exec(v: &DbusValue) -> (res: Vec<String>)
    ensures
        crate::ime_event::strings_view(res@) == texts_of_field(*v),
{
    match as_array(v) {
        Some(a) => element_texts_exec(a),
        None => {
            let out: Vec<String> = Vec::new();
            assert(crate::ime_event::strings_view(out@) =~= Seq::<Seq<char>>::empty());
            out
        },
    }
}

fn u32_at_exec(f: &[DbusValue], i: usize) -> (res: u32)
    ensures
        res == u32_at(f@, i as int),
{
    match field_peeled(f, i) {
        Some(DbusValue::U32(n)) => *n,
        _ => 0,
    }
}

fn bool_at_exec(f: &[DbusValue], i: usize) -> (res: bool)
    ensures
        res == bool_at(f@, i as int),
{
    match field_peeled(f, i) {
        Some(DbusValue::Bool(b)) => *b,
        _ => false,
    }
}

fn orientation_at_exec(f: &[DbusValue], i: usize) -> (res: u32)
    ensures
        res == orientation_at(f@, i as int),
{
    match field_peeled(f, i) {
        Some(DbusValue::I32(n)) => if *n > 0 { *n as u32 } else { 0 },
        _ => 0,
    }
}

/// Reads `UpdateLookupTable` (see [`lookup_table_of`]).
pub fn parse_lookup_table(fields: &[DbusValue]) -> (res: Result<HostEvent, String>)
    ensures
        match res {
            Ok(ev) => lookup_table_of(fields@) is Ok && ev@ == HostEventView::LookupTable(
                lookup_table_of(fields@)->Ok_0,
            ),
            Err(e) => lookup_table_of(fields@) == Err::<LookupTableView, Seq<char>>(e@),
        },
{
    let visible = if fields.len() > 1 {
        match &fields[1] {
            DbusValue::Bool(b) => *b,
            _ => false,
        }
    } else {
        false
    };
    if fields.len() == 0 {
        return Err(String::from_str("UpdateLookupTable 缺表字段"));
    }
    let st = match as_structure(&fields[0]) {
        Some(st) => st,
        None => {
            return Err(String::from_str("UpdateLookupTable 表不是结构体"));
        },
    };
    let f = st.as_slice();
    let page_size = u32_at_exec(f, 2);
    let cursor_pos = u32_at_exec(f, 3);
    let cursor_visible = bool_at_exec(f, 4);
    let orientation = orientation_at_exec(f, 6);
    if f.len() <= 7 {
        return Err(String::from_str("缺候选字段"));
    }
    if f.len() <= 8 {
        return Err(String::from_str("缺标签字段"));
    }
    let candidates = texts_of_field_exec(&f[7]);
    let labels = texts_of_field_exec(&f[8]);
    Ok(
        HostEvent::LookupTable {
            candidates,
            labels,
            cursor_pos: if page_size > 0 { cursor_pos % page_size } else { 0 },
            cursor_visible,
            page_size,
            orientation,
            visible,
        },
    )
}

/// The integers of the top-level fields that have one, in order.
pub open spec fn ints_of(fields: Seq<DbusValue>) -> Seq<i64>
    decreases fields.len(),
{
    if fields.len() == 0 {
        Seq::empty()
    } else {
        ints_of(fields.drop_last()) + match int_of(fields.last()) {
            Some(n) => seq![n],
            None => Seq::empty(),
        }
    }
}

/// The messages of a text event: the event, then `Done`.
pub open spec fn with_done(e: HostEventView) -> Seq<WorkerMsgView> {
    seq![WorkerMsgView::Ev(e), WorkerMsgView::Ev(HostEventView::Done(0))]
}

/// An empty, visible or hidden candidate window.
pub open spec fn bare_lookup(visible: bool) -> HostEventView {
    HostEventView::LookupTable(
        LookupTableView {
            candidates: Seq::empty(),
            labels: Seq::empty(),
            cursor_pos: 0,
            cursor_visible: visible,
            page_size: 0,
            orientation: 0,
            visible,
        },
    )
}

/// The key of an evdev code (evdev + 8, saturating).
pub open spec fn key_of_evdev(evdev: u32) -> u32 {
    if evdev as int + 8 > u32::MAX { u32::MAX } else { (evdev + 8) as u32 }
}

/// The worker messages of an ibus signal `name` with body `fields`;
/// `Err` for a commit without text and for a signal that is not watched.
/// A lookup table that cannot be read gives no message.
pub open spec fn ibus_signal(name: Seq<char>, fields: Seq<DbusValue>) -> Result<Seq<WorkerMsgView>, Seq<char>> {
    if name == "CommitText"@ {
        match text_of_list(fields) {
            Some(t) => Ok(with_done(HostEventView::CommitString(t))),
            None => Err("CommitText 缺少文本字段"@),
        }
    } else if name == "UpdatePreeditText"@ || name == "UpdatePreeditTextWithMode"@ {
        let t = match text_of_list(fields) {
            Some(t) => t,
            None => Seq::empty(),
        };
        let c = (match int_of_list(fields) {
            Some(n) => n,
            None => t.len() as i64,
        }) as i32;
        let visible = match bool_of_list(fields) {
            Some(b) => b,
            None => t.len() > 0,
        };
        if visible && t.len() > 0 {
            Ok(with_done(HostEventView::PreeditString(t, c, c)))
        } else {
            Ok(with_done(HostEventView::PreeditString(Seq::empty(), 0, 0)))
        }
    } else if name == "DeleteSurroundingText"@ {
        let before = (match int_of_list(fields) {
            Some(n) => n,
            None => 0,
        }) as u32;
        Ok(with_done(HostEventView::DeleteSurroundingText(before, 0)))
    } else if name == "HidePreeditText"@ {
        Ok(with_done(HostEventView::PreeditString(Seq::empty(), 0, 0)))
    } else if name == "UpdateLookupTable"@ {
        match lookup_table_of(fields) {
            Ok(lt) => Ok(with_done(HostEventView::LookupTable(lt))),
            Err(_) => Ok(Seq::empty()),
        }
    } else if name == "ShowLookupTable"@ {
        Ok(with_done(bare_lookup(true)))
    } else if name == "HideLookupTable"@ {
        Ok(with_done(bare_lookup(false)))
    } else if name == "ForwardKeyEvent"@ {
        let nums = ints_of(fields);
        let evdev = (if nums.len() > 1 { nums[1] } else { 0 }) as u32;
        let state = (if nums.len() > 2 { nums[2] } else { 0 }) as u32;
        let action = if state & IBUS_RELEASE_MASK != 0 { KeyboardAction::Release } else { KeyboardAction::Press };
        Ok(seq![WorkerMsgView::Forward(ForwardedKey { key: key_of_evdev(evdev), action })])
    } else {
        Err("未注册的信号 "@ + name)
    }
}

/// The watched ibus signal names are pairwise different.
proof fn lemma_ibus_names_distinct()
    ensures
        ({
            let n = seq![
                "CommitText"@,
                "UpdatePreeditText"@,
                "UpdatePreeditTextWithMode"@,
                "DeleteSurroundingText"@,
                "HidePreeditText"@,
                "UpdateLookupTable"@,
                "ShowLookupTable"@,
                "HideLookupTable"@,
                "ForwardKeyEvent"@,
            ];
            forall|i: int, j: int| 0 <= i < j < 9 ==> n[i] != n[j]
        }),
{
    reveal_strlit("CommitText");
    reveal_strlit("UpdatePreeditText");
    reveal_strlit("UpdatePreeditTextWithMode");
    reveal_strlit("DeleteSurroundingText");
    reveal_strlit("HidePreeditText");
    reveal_strlit("UpdateLookupTable");
    reveal_strlit("ShowLookupTable");
    reveal_strlit("HideLookupTable");
    reveal_strlit("ForwardKeyEvent");
    let n = seq![
        "CommitText"@,
        "UpdatePreeditText"@,
        "UpdatePreeditTextWithMode"@,
        "DeleteSurroundingText"@,
        "HidePreeditText"@,
        "UpdateLookupTable"@,
        "ShowLookupTable"@,
        "HideLookupTable"@,
        "ForwardKeyEvent"@,
    ];
    assert forall|i: int, j: int| 0 <= i < j < 9 implies n[i] != n[j] by {
        if n[i].len() == n[j].len() {
            if n[i][0] == n[j][0] {
                if n[i][4] == n[j][4] {
                    assert(n[i][6] != n[j][6]);
                }
            }
        }
    }
}

/// The text signals are atomic: each gives its event followed by `Done`
/// (a commit only when it has text; an unreadable candidate table gives nothing).
pub proof fn law_ibus_text_signals_pair_with_done(name: Seq<char>, fields: Seq<DbusValue>)
    ensures
        (name == "UpdatePreeditText"@ || name == "UpdatePreeditTextWithMode"@ || name == "DeleteSurroundingText"@
            || name == "HidePreeditText"@ || name == "ShowLookupTable"@ || name == "HideLookupTable"@ || (name
            == "CommitText"@ && text_of_list(fields) is Some)) ==> ({
            &&& ibus_signal(name, fields) is Ok
            &&& ibus_signal(name, fields)->Ok_0.len() == 2
            &&& ibus_signal(name, fields)->Ok_0[1] == WorkerMsgView::Ev(HostEventView::Done(0))
        }),
        name == "UpdateLookupTable"@ ==> ibus_signal(name, fields) is Ok && (ibus_signal(name, fields)->Ok_0.len() == 0
            || ibus_signal(name, fields)->Ok_0 == with_done(HostEventView::LookupTable(lookup_table_of(fields)->Ok_0))),
{
    lemma_ibus_names_distinct();
    let n = seq![
        "CommitText"@,
        "UpdatePreeditText"@,
        "UpdatePreeditTextWithMode"@,
        "DeleteSurroundingText"@,
        "HidePreeditText"@,
        "UpdateLookupTable"@,
        "ShowLookupTable"@,
        "HideLookupTable"@,
        "ForwardKeyEvent"@,
    ];
    assert(n[0] == "CommitText"@ && n[1] == "UpdatePreeditText"@ && n[2] == "UpdatePreeditTextWithMode"@);
    assert(n[3] == "DeleteSurroundingText"@ && n[4] == "HidePreeditText"@ && n[5] == "UpdateLookupTable"@);
    assert(n[6] == "ShowLookupTable"@ && n[7] == "HideLookupTable"@ && n[8] == "ForwardKeyEvent"@);
    assert(n[0] != n[1] && n[0] != n[2] && n[0] != n[3] && n[0] != n[4] && n[0] != n[5] && n[0] != n[6] && n[0] != n[7]);
    assert(n[1] != n[3] && n[1] != n[4] && n[1] != n[5] && n[1] != n[6] && n[1] != n[7]);
    assert(n[2] != n[3] && n[2] != n[4] && n[2] != n[5] && n[2] != n[6] && n[2] != n[7]);
    assert(n[3] != n[4] && n[3] != n[5] && n[3] != n[6] && n[3] != n[7]);
    assert(n[4] != n[5] && n[4] != n[6] && n[4] != n[7]);
    assert(n[5] != n[6] && n[5] != n[7]);
}

pub open spec fn msgs_view(v: Seq<FromWorker>) -> Seq<WorkerMsgView> {
    v.map_values(|m: FromWorker| m@)
}

fn ints_exec(fields: &[DbusValue]) -> (res: Vec<i64>)
    ensures
        res@ == ints_of(fields@),
{
    let mut out: Vec<i64> = Vec::new();
    let n = fields.len();
    let mut i: usize = 0;
    while i < n
        invariant
            n == fields@.len(),
            i <= n,
            out@ == ints_of(fields@.take(i as int)),
        decreases n - i,
    {
        proof {
            assert(fields@.take(i + 1).drop_last() =~= fields@.take(i as int));
            assert(fields@.take(i + 1).last() == fields@[i as int]);
        }
        match crate::dbus_value::int_in_value(&fields[i]) {
            Some(k) => {
                out.push(k);
            },
            None => {
                assert(out@ =~= out@ + Seq::<i64>::empty());
            },
        }
        i = i + 1;
    }
    assert(fields@.take(n as int) =~= fields@);
    out
}

fn pair_with_done(e: HostEvent) -> (res: Vec<FromWorker>)
    ensures
        msgs_view(res@) == with_done(e@),
{
    let mut v: Vec<FromWorker> = Vec::new();
    v.push(FromWorker::Ev(e));
    v.push(FromWorker::Ev(HostEvent::Done(0)));
    assert(msgs_view(v@) =~= with_done(e@));
    v
}

fn bare_lookup_event(visible: bool) -> (res: HostEvent)
    ensures
        res@ == bare_lookup(visible),
{
    let e = HostEvent::LookupTable {
        candidates: Vec::new(),
        labels: Vec::new(),
        cursor_pos: 0,
        cursor_visible: visible,
        page_size: 0,
        orientation: 0,
        visible,
    };
    assert(e@ == bare_lookup(visible)) by {
        assert(crate::ime_event::strings_view(Seq::<String>::empty()) =~= Seq::<Seq<char>>::empty());
    }
    e
}

/// Reads one ibus signal into worker messages (see [`ibus_signal`]).
pub fn ibus_signal_messages(name: &str, fields: &[DbusValue]) -> (res: Result<Vec<FromWorker>, String>)
    ensures
        match res {
            Ok(v) => ibus_signal(name@, fields@) == Ok::<Seq<WorkerMsgView>, Seq<char>>(msgs_view(v@)),
            Err(e) => ibus_signal(name@, fields@) == Err::<Seq<WorkerMsgView>, Seq<char>>(e@),
        },
{
    if crate::text::str_eq(name, "CommitText") {
        match find_text(fields) {
            Some(t) => Ok(pair_with_done(HostEvent::CommitString(t))),
            None => Err(String::from_str("CommitText 缺少文本字段")),
        }
    } else if crate::text::str_eq(name, "UpdatePreeditText") || crate::text::str_eq(
        name,
        "UpdatePreeditTextWithMode",
    ) {
        let t = match find_text(fields) {
            Some(t) => t,
            None => String::new(),
        };
        let tlen = t.as_str().unicode_len();
        let c = (match find_int(fields) {
            Some(n) => n,
            None => tlen as i64,
        }) as i32;
        let visible = match find_bool(fields) {
            Some(b) => b,
            None => tlen > 0,
        };
        if visible && tlen > 0 {
            Ok(pair_with_done(HostEvent::PreeditString(t, c, c)))
        } else {
            Ok(pair_with_done(HostEvent::PreeditString(String::new(), 0, 0)))
        }
    } else if crate::text::str_eq(name, "DeleteSurroundingText") {
        let before = (match find_int(fields) {
            Some(n) => n,
            None => 0,
        }) as u32;
        Ok(pair_with_done(HostEvent::DeleteSurroundingText(before, 0)))
    } else if crate::text::str_eq(name, "HidePreeditText") {
        Ok(pair_with_done(HostEvent::PreeditString(String::new(), 0, 0)))
    } else if crate::text::str_eq(name, "UpdateLookupTable") {
        match parse_lookup_table(fields) {
            Ok(ev) => Ok(pair_with_done(ev)),
            Err(_) => {
                let v: Vec<FromWorker> = Vec::new();
                assert(msgs_view(v@) =~= Seq::<WorkerMsgView>::empty());
                Ok(v)
            },
        }
    } else if crate::text::str_eq(name, "ShowLookupTable") {
        Ok(pair_with_done(bare_lookup_event(true)))
    } else if crate::text::str_eq(name, "HideLookupTable") {
        Ok(pair_with_done(bare_lookup_event(false)))
    } else if crate::text::str_eq(name, "ForwardKeyEvent") {
        let nums = ints_exec(fields);
        let evdev = (if nums.len() > 1 { nums[1] } else { 0 }) as u32;
        let state = (if nums.len() > 2 { nums[2] } else { 0 }) as u32;
        let action = if state & IBUS_RELEASE_MASK != 0 { KeyboardAction::Release } else { KeyboardAction::Press };
        let key = if evdev > u32::MAX - 8 { u32::MAX } else { evdev + 8 };
        let mut v: Vec<FromWorker> = Vec::new();
        v.push(FromWorker::Forward(ForwardedKey { key, action }));
        assert(msgs_view(v@) =~= seq![WorkerMsgView::Forward(ForwardedKey { key, action })]);
        Ok(v)
    } else {
        let mut msg = String::from_str("未注册的信号 ");
        msg.append(name);
        Err(msg)
    }
}

/// A preedit update whose visible flag is false hides the preedit,
/// whatever its text and cursor: an empty preedit at 0, then `Done`.
pub proof fn law_ibus_hidden_preedit_is_empty(name: Seq<char>, fields: Seq<DbusValue>)
    requires
        name == "UpdatePreeditText"@ || name == "UpdatePreeditTextWithMode"@,
        bool_of_list(fields) == Some(false),
    ensures
        ibus_signal(name, fields) == Ok::<Seq<WorkerMsgView>, Seq<char>>(
            seq![
                WorkerMsgView::Ev(HostEventView::PreeditString(Seq::empty(), 0, 0)),
                WorkerMsgView::Ev(HostEventView::Done(0)),
            ],
        ),
{
    reveal_strlit("CommitText");
    reveal_strlit("UpdatePreeditText");
    reveal_strlit("UpdatePreeditTextWithMode");
    assert("CommitText"@.len() != "UpdatePreeditText"@.len());
    assert("CommitText"@.len() != "UpdatePreeditTextWithMode"@.len());
    assert(name != "CommitText"@);
    assert(with_done(HostEventView::PreeditString(Seq::empty(), 0, 0)) =~= seq![
        WorkerMsgView::Ev(HostEventView::PreeditString(Seq::empty(), 0, 0)),
        WorkerMsgView::Ev(HostEventView::Done(0)),
    ]);
}

} // verus!
