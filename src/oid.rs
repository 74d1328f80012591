//! Object identifiers as sequences of arcs.

use vstd::prelude::*;

verus! {

/// Object identifiers as mathematical sequences.
pub open spec fn oids_view(v: Seq<Vec<u32>>) -> Seq<Seq<u32>> {
    v.map_values(|o: Vec<u32>| o@)
}

/// Whether two object identifiers are equal.
pub fn oid_eq(a: &Vec<u32>, b: &Vec<u32>) -> (r: bool)
    ensures
        r == (a@ == b@),
{
    if a.len() != b.len() {
        return false;
    }
    let mut i: usize = 0;
    while i < a.len()
        invariant
            a.len() == b.len(),
            0 <= i <= a.len(),
            forall|j: int| 0 <= j < i ==> a@[j] == b@[j],
        decreases a.len() - i,
    {
        if a[i] != b[i] {
            return false;
        }
        i = i + 1;
    }
    proof {
        assert(a@ =~= b@);
    }
    true
}

/// Whether an object identifier is in a list.
pub fn oid_in(list: &Vec<Vec<u32>>, oid: &Vec<u32>) -> (r: bool)
    ensures
        r == oids_view(list@).contains(oid@),
{
    let mut i: usize = 0;
    while i < list.len()
        invariant
            0 <= i <= list.len(),
            forall|j: int| 0 <= j < i ==> list@[j]@ != oid@,
        decreases list.len() - i,
    {
        if oid_eq(&list[i], oid) {
            proof {
                assert(oids_view(list@)[i as int] == oid@);
            }
            return true;
        }
        i = i + 1;
    }
    proof {
        if oids_view(list@).contains(oid@) {
            let j = choose|j: int| 0 <= j < oids_view(list@).len() && oids_view(list@)[j] == oid@;
            assert(list@[j]@ == oid@);
        }
    }
    false
}

/// A copy of an object identifier.
pub fn copy_oid(v: &Vec<u32>) -> (r: Vec<u32>)
    ensures
        r@ == v@,
{
    let mut r: Vec<u32> = Vec::new();
    let mut i: usize = 0;
    while i < v.len()
        invariant
            0 <= i <= v.len(),
            r@ == v@.take(i as int),
        decreases v.len() - i,
    {
        r.push(v[i]);
        i = i + 1;
        proof {
            assert(r@ =~= v@.take(i as int));
        }
    }
    proof {
        assert(v@.take(v.len() as int) =~= v@);
    }
    r
}

} // verus!
