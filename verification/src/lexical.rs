//! The order of texts by their bytes, as strings are ordered.

use vstd::prelude::*;

verus! {

/// How one text stands to another.
#[derive(Debug, Clone, Copy, PartialEq, Eq, Structural)]
pub enum Rank {
    Before,
    Same,
    After,
}

/// The two byte strings agree on their first `k` bytes.
pub open spec fn agree(a: Seq<u8>, b: Seq<u8>, k: int) -> bool {
    &&& 0 <= k <= a.len()
    &&& k <= b.len()
    &&& forall|j: int| 0 <= j < k ==> a[j] == b[j]
}

/// `a` comes before `b`: at the first place where they differ `a` has the
/// smaller byte, or `a` ends there and `b` goes on.
pub open spec fn before(a: Seq<u8>, b: Seq<u8>) -> bool {
    exists|k: int| #[trigger]
        agree(a, b, k) && ((k == a.len() && k < b.len()) || (k < a.len() && k < b.len() && a[k]
            < b[k]))
}

/// Nothing comes before itself.
pub proof fn before_is_strict(a: Seq<u8>)
    ensures
        !before(a, a),
{
}

/// What comes before something that comes before a third, comes before the
/// third.
pub proof fn before_is_transitive(a: Seq<u8>, b: Seq<u8>, c: Seq<u8>)
    requires
        before(a, b),
        before(b, c),
    ensures
        before(a, c),
{
    let k1 = choose|k: int| #[trigger]
        agree(a, b, k) && ((k == a.len() && k < b.len()) || (k < a.len() && k < b.len() && a[k]
            < b[k]));
    let k2 = choose|k: int| #[trigger]
        agree(b, c, k) && ((k == b.len() && k < c.len()) || (k < b.len() && k < c.len() && b[k]
            < c[k]));
    let k = if k1 <= k2 {
        k1
    } else {
        k2
    };
    assert(agree(a, c, k));
}

/// Compares two byte strings.
pub fn compare(a: &[u8], b: &[u8]) -> (r: Rank)
    ensures
        r == Rank::Before <==> before(a@, b@),
        r == Rank::After <==> before(b@, a@),
        r == Rank::Same <==> a@ == b@,
{
    let mut i: usize = 0;
    while i < a.len() && i < b.len()
        invariant
            agree(a@, b@, i as int),
        decreases a@.len() - i,
    {
        if a[i] < b[i] {
            proof {
                assert(agree(a@, b@, i as int));
                differ_one_way(a@, b@, i as int);
            }
            return Rank::Before;
        }
        if a[i] > b[i] {
            proof {
                assert(agree(b@, a@, i as int));
                differ_one_way(b@, a@, i as int);
            }
            return Rank::After;
        }
        i += 1;
    }
    if i < b.len() {
        proof {
            assert(agree(a@, b@, i as int));
            shorter_one_way(a@, b@);
        }
        Rank::Before
    } else if i < a.len() {
        proof {
            assert(agree(b@, a@, i as int));
            shorter_one_way(b@, a@);
        }
        Rank::After
    } else {
        assert(a@ =~= b@);
        proof {
            before_is_strict(a@);
        }
        Rank::Same
    }
}

proof fn differ_one_way(a: Seq<u8>, b: Seq<u8>, k: int)
    requires
        agree(a, b, k),
        k < a.len(),
        k < b.len(),
        a[k] < b[k],
    ensures
        before(a, b),
        !before(b, a),
        a != b,
{
    if before(b, a) {
        before_is_transitive(a, b, a);
        before_is_strict(a);
    }
}

proof fn shorter_one_way(a: Seq<u8>, b: Seq<u8>)
    requires
        agree(a, b, a.len() as int),
        a.len() < b.len(),
    ensures
        before(a, b),
        !before(b, a),
        a != b,
{
    if before(b, a) {
        before_is_transitive(a, b, a);
        before_is_strict(a);
    }
}

} // verus!
