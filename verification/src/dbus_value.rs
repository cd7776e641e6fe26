//! D-Bus message values as plain data, and the tolerant readers used on
//! input-method signal bodies.
//!
//! Signal bodies hold serialised GObjects (`IBusText`, `IBusLookupTable`,
//! ...): a type name, an attachment dictionary, then the fields. The
//! readers skip the type names and look for the first text, integer or
//! boolean, descending into variants and structures.

use vstd::prelude::*;
use crate::text::{occurs_at, str_eq, str_starts_with};

verus! {

/// A D-Bus value. Dictionaries, floats, object paths, signatures and file
/// descriptors are never inspected and are kept as `Dict` or `Other`.
#[derive(Debug)]
pub enum DbusValue {
    U8(u8),
    Bool(bool),
    I16(i16),
    U16(u16),
    I32(i32),
    U32(u32),
    I64(i64),
    U64(u64),
    Str(String),
    /// A variant wrapping one value.
    Value(Box<DbusValue>),
    Array(Vec<DbusValue>),
    Structure(Vec<DbusValue>),
    Dict,
    Other,
}

/// GObject type names written by ibus serialisation; never user text.
pub open spec fn gobject_typename(s: Seq<char>) -> bool {
    s == "IBusText"@ || s == "IBusLookupTable"@ || s == "IBusAttrList"@ || s == "IBusEngineDesc"@
        || s == "IBusComponent"@ || s == "IBusConfig"@ || s == "IBusObject"@ || s == "IBusSerializable"@
        || s == "IBusInputContext"@ || s == "IBusObservedPath"@ || s == "IBusRegistryEntry"@
}

/// Whether `s` is one of the GObject type names of ibus serialisation.
pub fn is_gobject_typename(s: &str) -> (res: bool)
    ensures
        res == gobject_typename(s@),
{
    str_eq(s, "IBusText") || str_eq(s, "IBusLookupTable") || str_eq(s, "IBusAttrList") || str_eq(
        s,
        "IBusEngineDesc",
    ) || str_eq(s, "IBusComponent") || str_eq(s, "IBusConfig") || str_eq(s, "IBusObject") || str_eq(
        s,
        "IBusSerializable",
    ) || str_eq(s, "IBusInputContext") || str_eq(s, "IBusObservedPath") || str_eq(s, "IBusRegistryEntry")
}

/// The first non-empty text that is not a type name, in a value
/// (descending into variants and structures, not arrays).
pub open spec fn text_of(v: DbusValue) -> Option<Seq<char>>
    decreases v,
{
    match v {
        DbusValue::Str(s) => if s@.len() > 0 && !gobject_typename(s@) {
            Some(s@)
        } else {
            None
        },
        DbusValue::Value(inner) => text_of(*inner),
        DbusValue::Structure(fs) => text_of_list(fs@),
        _ => None,
    }
}

/// The first text found in a list of values, in order.
pub open spec fn text_of_list(vs: Seq<DbusValue>) -> Option<Seq<char>>
    decreases vs,
{
    if vs.len() == 0 {
        None
    } else {
        match text_of(vs[0]) {
            Some(t) => Some(t),
            None => text_of_list(vs.subrange(1, vs.len() as int)),
        }
    }
}

proof fn lemma_text_skip(vs: Seq<DbusValue>, i: int)
    requires
        0 <= i <= vs.len(),
        forall|j: int| 0 <= j < i ==> text_of(#[trigger] vs[j]) is None,
    ensures
        text_of_list(vs) == text_of_list(vs.subrange(i, vs.len() as int)),
    decreases i,
{
    if i > 0 {
        let rest = vs.subrange(1, vs.len() as int);
        assert(rest.subrange(i - 1, rest.len() as int) =~= vs.subrange(i, vs.len() as int));
        assert forall|j: int| 0 <= j < i - 1 implies text_of(#[trigger] rest[j]) is None by {
            assert(rest[j] == vs[j + 1]);
        }
        lemma_text_skip(rest, i - 1);
    } else {
        assert(vs.subrange(0, vs.len() as int) =~= vs);
    }
}

fn text_in_value(v: &DbusValue) -> (res: Option<String>)
    ensures
        match res {
            Some(t) => text_of(*v) == Some(t@),
            None => text_of(*v) is None,
        },
    decreases *v,
{
    match v {
        DbusValue::Str(s) => {
            if !s.as_str().is_empty() && !is_gobject_typename(s.as_str()) {
                Some(s.clone())
            } else {
                None
            }
        },
        DbusValue::Value(inner) => text_in_value(inner),
        DbusValue::Structure(fs) => find_text(fs.as_slice()),
        _ => None,
    }
}

/// The first non-empty text that is not a type name, among `values` in
/// order, descending into variants and structures.
pub fn find_text(values: &[DbusValue]) -> (res: Option<String>)
    ensures
        match res {
            Some(t) => text_of_list(values@) == Some(t@),
            None => text_of_list(values@) is None,
        },
    decreases values@,
{
    let n = values.len();
    let mut i: usize = 0;
    while i < n
        invariant
            n == values@.len(),
            i <= n,
            forall|j: int| 0 <= j < i ==> text_of(#[trigger] values@[j]) is None,
        decreases n - i,
    {
        proof {
            lemma_text_skip(values@, i as int);
        }
        match text_in_value(&values[i]) {
            Some(t) => {
                return Some(t);
            },
            None => {},
        }
        i = i + 1;
    }
    proof {
        lemma_text_skip(values@, n as int);
    }
    None
}

/// The first integer in a value, widened to `i64` (descending into
/// variants and structures, not arrays).
pub open spec fn int_of(v: DbusValue) -> Option<i64>
    decreases v,
{
    match v {
        DbusValue::U8(n) => Some(n as i64),
        DbusValue::U16(n) => Some(n as i64),
        DbusValue::I16(n) => Some(n as i64),
        DbusValue::U32(n) => Some(n as i64),
        DbusValue::I32(n) => Some(n as i64),
        DbusValue::U64(n) => Some(n as i64),
        DbusValue::I64(n) => Some(n),
        DbusValue::Value(inner) => int_of(*inner),
        DbusValue::Structure(fs) => int_of_list(fs@),
        _ => None,
    }
}

/// The first integer found in a list of values, in order.
pub open spec fn int_of_list(vs: Seq<DbusValue>) -> Option<i64>
    decreases vs,
{
    if vs.len() == 0 {
        None
    } else {
        match int_of(vs[0]) {
            Some(n) => Some(n),
            None => int_of_list(vs.subrange(1, vs.len() as int)),
        }
    }
}

proof fn lemma_int_skip(vs: Seq<DbusValue>, i: int)
    requires
        0 <= i <= vs.len(),
        forall|j: int| 0 <= j < i ==> int_of(#[trigger] vs[j]) is None,
    ensures
        int_of_list(vs) == int_of_list(vs.subrange(i, vs.len() as int)),
    decreases i,
{
    if i > 0 {
        let rest = vs.subrange(1, vs.len() as int);
        assert(rest.subrange(i - 1, rest.len() as int) =~= vs.subrange(i, vs.len() as int));
        assert forall|j: int| 0 <= j < i - 1 implies int_of(#[trigger] rest[j]) is None by {
            assert(rest[j] == vs[j + 1]);
        }
        lemma_int_skip(rest, i - 1);
    } else {
        assert(vs.subrange(0, vs.len() as int) =~= vs);
    }
}

/// The first integer in a value (see [`int_of`]).
pub fn int_in_value(v: &DbusValue) -> (res: Option<i64>)
    ensures
        res == int_of(*v),
    decreases *v,
{
    match v {
        DbusValue::U8(n) => Some(*n as i64),
        DbusValue::U16(n) => Some(*n as i64),
        DbusValue::I16(n) => Some(*n as i64),
        DbusValue::U32(n) => Some(*n as i64),
        DbusValue::I32(n) => Some(*n as i64),
        DbusValue::U64(n) => Some(*n as i64),
        DbusValue::I64(n) => Some(*n),
        DbusValue::Value(inner) => int_in_value(inner),
        DbusValue::Structure(fs) => find_int(fs.as_slice()),
        _ => None,
    }
}

/// The first integer among `values` in order (see [`int_of`]).
pub fn find_int(values: &[DbusValue]) -> (res: Option<i64>)
    ensures
        res == int_of_list(values@),
    decreases values@,
{
    let n = values.len();
    let mut i: usize = 0;
    while i < n
        invariant
            n == values@.len(),
            i <= n,
            forall|j: int| 0 <= j < i ==> int_of(#[trigger] values@[j]) is None,
        decreases n - i,
    {
        proof {
            lemma_int_skip(values@, i as int);
        }
        match int_in_value(&values[i]) {
            Some(k) => {
                return Some(k);
            },
            None => {},
        }
        i = i + 1;
    }
    proof {
        lemma_int_skip(values@, n as int);
    }
    None
}

/// The boolean of a value, looking through variants.
pub open spec fn bool_of(v: DbusValue) -> Option<bool>
    decreases v,
{
    match v {
        DbusValue::Bool(b) => Some(b),
        DbusValue::Value(inner) => bool_of(*inner),
        _ => None,
    }
}

/// The first boolean found in a list of values, in order.
pub open spec fn bool_of_list(vs: Seq<DbusValue>) -> Option<bool>
    decreases vs.len(),
{
    if vs.len() == 0 {
        None
    } else {
        match bool_of(vs[0]) {
            Some(b) => Some(b),
            None => bool_of_list(vs.subrange(1, vs.len() as int)),
        }
    }
}

fn bool_in_value(v: &DbusValue) -> (res: Option<bool>)
    ensures
        res == bool_of(*v),
    decreases *v,
{
    match v {
        DbusValue::Bool(b) => Some(*b),
        DbusValue::Value(inner) => bool_in_value(inner),
        _ => None,
    }
}

proof fn lemma_bool_skip(vs: Seq<DbusValue>, i: int)
    requires
        0 <= i <= vs.len(),
        forall|j: int| 0 <= j < i ==> bool_of(#[trigger] vs[j]) is None,
    ensures
        bool_of_list(vs) == bool_of_list(vs.subrange(i, vs.len() as int)),
    decreases i,
{
    if i > 0 {
        let rest = vs.subrange(1, vs.len() as int);
        assert(rest.subrange(i - 1, rest.len() as int) =~= vs.subrange(i, vs.len() as int));
        assert forall|j: int| 0 <= j < i - 1 implies bool_of(#[trigger] rest[j]) is None by {
            assert(rest[j] == vs[j + 1]);
        }
        lemma_bool_skip(rest, i - 1);
    } else {
        assert(vs.subrange(0, vs.len() as int) =~= vs);
    }
}

/// The first boolean among `values` in order, looking through variants.
pub fn find_bool(values: &[DbusValue]) -> (res: Option<bool>)
    ensures
        res == bool_of_list(values@),
{
    let n = values.len();
    let mut i: usize = 0;
    while i < n
        invariant
            n == values@.len(),
            i <= n,
            forall|j: int| 0 <= j < i ==> bool_of(#[trigger] values@[j]) is None,
        decreases n - i,
    {
        proof {
            lemma_bool_skip(values@, i as int);
        }
        match bool_in_value(&values[i]) {
            Some(b) => {
                return Some(b);
            },
            None => {},
        }
        i = i + 1;
    }
    proof {
        lemma_bool_skip(values@, n as int);
    }
    None
}

/// A value with all enclosing variants removed.
pub open spec fn peel(v: DbusValue) -> DbusValue
    decreases v,
{
    match v {
        DbusValue::Value(inner) => peel(*inner),
        _ => v,
    }
}

/// Removes all enclosing variants.
pub fn peel_variant(v: &DbusValue) -> (res: &DbusValue)
    ensures
        *res == peel(*v),
    decreases *v,
{
    match v {
        DbusValue::Value(inner) => peel_variant(inner),
        _ => v,
    }
}

/// The array inside a value, looking through variants.
pub fn as_array(v: &DbusValue) -> (res: Option<&Vec<DbusValue>>)
    ensures
        match res {
            Some(a) => peel(*v) == DbusValue::Array(*a),
            None => !(peel(*v) is Array),
        },
{
    match peel_variant(v) {
        DbusValue::Array(a) => Some(a),
        _ => None,
    }
}

/// The structure fields inside a value, looking through variants.
pub fn as_structure(v: &DbusValue) -> (res: Option<&Vec<DbusValue>>)
    ensures
        match res {
            Some(a) => peel(*v) == DbusValue::Structure(*a),
            None => !(peel(*v) is Structure),
        },
{
    match peel_variant(v) {
        DbusValue::Structure(a) => Some(a),
        _ => None,
    }
}

/// Field `idx` with its variants removed.
pub fn field_peeled(fields: &[DbusValue], idx: usize) -> (res: Option<&DbusValue>)
    ensures
        match res {
            Some(x) => idx < fields@.len() && *x == peel(fields@[idx as int]),
            None => idx >= fields@.len(),
        },
{
    if idx < fields.len() {
        Some(peel_variant(&fields[idx]))
    } else {
        None
    }
}

} // verus!
