//! A stable merge sort over rows that carry an integer sort key.
use vstd::prelude::*;
use vstd::seq_lib::lemma_multiset_commutative;

verus! {

broadcast use vstd::seq_lib::group_to_multiset_ensures, vstd::multiset::group_multiset_axioms;

/// A row that is ordered by one unsigned key.
pub trait SortKey {
    spec fn key(&self) -> u64;

    fn sort_key(&self) -> (k: u64)
        ensures
            k == self.key(),
    ;
}

/// Keys never decrease along `s`.
pub open spec fn sorted_by_key<T: SortKey>(s: Seq<T>) -> bool {
    forall|i: int, j: int| 0 <= i < j < s.len() ==> (#[trigger] s[i]).key() <= (#[trigger] s[j]).key()
}

fn merge<T: SortKey + Copy>(l: &Vec<T>, r: &Vec<T>) -> (out: Vec<T>)
    requires
        sorted_by_key(l@),
        sorted_by_key(r@),
    ensures
        sorted_by_key(out@),
        out@.to_multiset() == l@.to_multiset().add(r@.to_multiset()),
        sorted_by_key(l@ + r@) ==> out@ == l@ + r@,
{
    let mut out: Vec<T> = Vec::new();
    let mut i: usize = 0;
    let mut j: usize = 0;
    while i < l.len() || j < r.len()
        invariant
            i <= l@.len(),
            j <= r@.len(),
            sorted_by_key(l@),
            sorted_by_key(r@),
            sorted_by_key(out@),
            out@.len() == i + j,
            out@.to_multiset() == l@.subrange(0, i as int).to_multiset().add(
                r@.subrange(0, j as int).to_multiset(),
            ),
            forall|k: int|
                0 <= k < out@.len() ==> (i < l@.len() ==> (#[trigger] out@[k]).key() <= l@[i as int].key())
                    && (j < r@.len() ==> out@[k].key() <= r@[j as int].key()),
            sorted_by_key(l@ + r@) ==> (j == 0 && out@ == l@.subrange(0, i as int)) || (i == l@.len()
                && out@ == l@ + r@.subrange(0, j as int)),
        decreases l@.len() + r@.len() - i - j,
    {
        let take_left = j >= r.len() || (i < l.len() && l[i].sort_key() <= r[j].sort_key());
        if take_left {
            let x = l[i];
            proof {
                assert(l@.subrange(0, i + 1) == l@.subrange(0, i as int).push(x));
                if sorted_by_key(l@ + r@) && j < r@.len() {
                    assert((l@ + r@)[i as int] == x);
                    assert((l@ + r@)[l@.len() + j] == r@[j as int]);
                }
            }
            out.push(x);
            i = i + 1;
            proof {
                if sorted_by_key(l@ + r@) && j > 0 {
                    assert(false);
                }
            }
        } else {
            let x = r[j];
            proof {
                assert(r@.subrange(0, j + 1) == r@.subrange(0, j as int).push(x));
                if sorted_by_key(l@ + r@) {
                    if i < l@.len() {
                        assert((l@ + r@)[i as int] == l@[i as int]);
                        assert((l@ + r@)[l@.len() + j] == r@[j as int]);
                        assert(false);
                    }
                    assert(l@ + r@.subrange(0, j + 1) == (l@ + r@.subrange(0, j as int)).push(x));
                }
            }
            out.push(x);
            j = j + 1;
        }
    }
    proof {
        assert(l@.subrange(0, l@.len() as int) == l@);
        assert(r@.subrange(0, r@.len() as int) == r@);
    }
    out
}

/// Sorts `v` by key. Rows with equal keys keep their order, so a sequence
/// that is already sorted comes back as it was.
pub fn merge_sort<T: SortKey + Copy>(v: Vec<T>) -> (r: Vec<T>)
    ensures
        sorted_by_key(r@),
        r@.to_multiset() == v@.to_multiset(),
        sorted_by_key(v@) ==> r@ == v@,
    decreases v@.len(),
{
    if v.len() <= 1 {
        return v;
    }
    let mut left = v;
    let mid = left.len() / 2;
    let right = left.split_off(mid);
    proof {
        assert(v@ == left@ + right@);
        lemma_multiset_commutative(left@, right@);
        if sorted_by_key(v@) {
            assert forall|i: int, j: int| 0 <= i < j < left@.len() implies (#[trigger] left@[i]).key()
                <= (#[trigger] left@[j]).key() by {
                assert(left@[i] == v@[i] && left@[j] == v@[j]);
            }
            assert forall|i: int, j: int| 0 <= i < j < right@.len() implies (#[trigger] right@[i]).key()
                <= (#[trigger] right@[j]).key() by {
                assert(right@[i] == v@[mid + i] && right@[j] == v@[mid + j]);
            }
        }
    }
    let l = merge_sort(left);
    let r = merge_sort(right);
    proof {
        lemma_multiset_commutative(l@, r@);
    }
    merge(&l, &r)
}

} // verus!
