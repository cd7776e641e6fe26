//! The lists of surfaces that the embedding application holds handles to:
//! each surface of the compositor is entered once, in the order in which it
//! first appears, and stays at its place. A surface is identified by a
//! number (its handle).

use vstd::prelude::*;

verus! {

/// The list after entering `elems` in order, each one only when it is not
/// in the list yet.
pub open spec fn inserted_all(v: Seq<u64>, elems: Seq<u64>) -> Seq<u64>
    decreases elems.len(),
{
    if elems.len() == 0 {
        v
    } else {
        let w = inserted_all(v, elems.drop_last());
        if w.contains(elems.last()) { w } else { w.push(elems.last()) }
    }
}

/// Whether no element occurs twice.
pub open spec fn no_duplicates(v: Seq<u64>) -> bool {
    forall|i: int, j: int| 0 <= i < j < v.len() ==> v[i] != v[j]
}

/// Whether `v` holds `x`, by a scan.
fn holds(v: &Vec<u64>, x: u64) -> (res: bool)
    ensures
        res == v@.contains(x),
{
    let mut i: usize = 0;
    while i < v.len()
        invariant
            i <= v@.len(),
            forall|j: int| 0 <= j < i ==> v@[j] != x,
        decreases v@.len() - i,
    {
        if v[i] == x {
            assert(v@[i as int] == x);
            return true;
        }
        i = i + 1;
    }
    false
}

/// Enters every element of `elems` that is not in the list already, in
/// order (see [`inserted_all`]).
pub fn insert_all(vec: &mut Vec<u64>, elems: &[u64])
    ensures
        final(vec)@ == inserted_all(old(vec)@, elems@),
{
    let n = elems.len();
    let mut i: usize = 0;
    while i < n
        invariant
            n == elems@.len(),
            i <= n,
            vec@ == inserted_all(old(vec)@, elems@.take(i as int)),
        decreases n - i,
    {
        let x = elems[i];
        proof {
            assert(elems@.take(i + 1).drop_last() =~= elems@.take(i as int));
            assert(elems@.take(i + 1).last() == x);
        }
        if !holds(vec, x) {
            vec.push(x);
        }
        i = i + 1;
    }
    assert(elems@.take(n as int) =~= elems@);
}

/// Entering elements keeps the list's elements at their places, adds
/// exactly the new ones, and never makes an element occur twice.
pub proof fn law_insert_all_enters_each_once(v: Seq<u64>, elems: Seq<u64>)
    requires
        no_duplicates(v),
    ensures
        no_duplicates(inserted_all(v, elems)),
        inserted_all(v, elems).len() >= v.len(),
        inserted_all(v, elems).take(v.len() as int) == v,
        forall|x: u64| #[trigger] inserted_all(v, elems).contains(x) <==> (v.contains(x) || elems.contains(x)),
    decreases elems.len(),
{
    if elems.len() == 0 {
        assert(v.take(v.len() as int) =~= v);
        assert forall|x: u64| #[trigger] inserted_all(v, elems).contains(x) <==> (v.contains(x) || elems.contains(x)) by {
            if elems.contains(x) {
                let k = choose|k: int| 0 <= k < elems.len() && elems[k] == x;
            }
        }
    } else {
        let e = elems.last();
        law_insert_all_enters_each_once(v, elems.drop_last());
        let w = inserted_all(v, elems.drop_last());
        assert forall|x: u64| elems.contains(x) <==> (elems.drop_last().contains(x) || x == e) by {
            if elems.contains(x) {
                let k = choose|k: int| 0 <= k < elems.len() && elems[k] == x;
                if k < elems.len() - 1 {
                    assert(elems.drop_last()[k] == x);
                }
            }
            if elems.drop_last().contains(x) {
                let k = choose|k: int| 0 <= k < elems.drop_last().len() && elems.drop_last()[k] == x;
                assert(elems[k] == x);
            }
            if x == e {
                assert(elems[elems.len() - 1] == x);
            }
        }
        if !w.contains(e) {
            assert(w.push(e).take(v.len() as int) =~= w.take(v.len() as int));
            assert forall|x: u64| w.push(e).contains(x) <==> (w.contains(x) || x == e) by {
                if w.push(e).contains(x) {
                    let k = choose|k: int| 0 <= k < w.push(e).len() && w.push(e)[k] == x;
                    if k < w.len() {
                        assert(w[k] == x);
                    }
                }
                if w.contains(x) {
                    let k = choose|k: int| 0 <= k < w.len() && w[k] == x;
                    assert(w.push(e)[k] == x);
                }
                if x == e {
                    assert(w.push(e)[w.len() as int] == x);
                }
            }
            assert forall|i: int, j: int| 0 <= i < j < w.push(e).len() implies w.push(e)[i] != w.push(e)[j] by {
                if j == w.len() {
                    assert(w[i] == w.push(e)[i]);
                }
            }
        }
        assert forall|x: u64| #[trigger] inserted_all(v, elems).contains(x) <==> (v.contains(x) || elems.contains(x)) by {
            assert(elems.contains(x) <==> (elems.drop_last().contains(x) || x == e));
            assert(w.contains(x) <==> (v.contains(x) || elems.drop_last().contains(x)));
        }
    }
}

} // verus!
