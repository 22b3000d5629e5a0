//! [`std::vec::Vec`] related extensions.

use std::cmp::Ordering;
use vstd::laws_cmp::obeys_cmp;
use vstd::prelude::*;
use vstd::std_specs::cmp::OrdSpec;

verus! {

/// `s` is in non-descending order by `T`'s `cmp`.
pub open spec fn sorted_by_cmp<T: Ord>(s: Seq<T>) -> bool {
    forall|i: int, j: int| 0 <= i < j < s.len() ==> s[i].cmp_spec(&s[j]) != Ordering::Greater
}

/// `p` lists each index below `n` exactly once.
pub open spec fn is_index_permutation(p: Seq<int>, n: nat) -> bool {
    &&& p.len() == n
    &&& forall|i: int| 0 <= i < n ==> 0 <= #[trigger] p[i] < n
    &&& forall|i: int, j: int| 0 <= i < j < n ==> p[i] != p[j]
}

/// `r` is `s` reordered so that it is in non-descending order by `cmp`, with
/// elements that compare equal kept in the order they had in `s`.
pub open spec fn is_stable_sort_of<T: Ord>(r: Seq<T>, s: Seq<T>) -> bool {
    &&& sorted_by_cmp(r)
    &&& exists|p: Seq<int>|
        {
            &&& is_index_permutation(p, s.len())
            &&& r.len() == s.len()
            &&& forall|i: int| 0 <= i < r.len() ==> r[i] == s[#[trigger] p[i]]
            &&& forall|i: int, j: int|
                0 <= i < j < r.len() && r[i].cmp_spec(&r[j]) == Ordering::Equal ==> p[i] < p[j]
        }
}

/// `s` in reverse order.
pub open spec fn reversed_seq<T>(s: Seq<T>) -> Seq<T> {
    Seq::new(s.len(), |i: int| s[s.len() - 1 - i])
}

/// Relies on `slice::sort`: a stable sort into non-descending order by
/// `cmp`. It may panic where `cmp` is not a total order, which `obeys_cmp`
/// rules out.
#[verifier::external_body]
fn sort_stable<T: Ord>(v: &mut Vec<T>)
    requires
        obeys_cmp::<T>(),
    ensures
        final(v)@.to_multiset() == old(v)@.to_multiset(),
        is_stable_sort_of(final(v)@, old(v)@),
{
    v.sort()
}

/// Relies on `slice::sort_unstable`: it reorders the elements into
/// non-descending order by `cmp`. It may panic where `cmp` is not a total
/// order, which `obeys_cmp` rules out.
#[verifier::external_body]
fn sort_any<T: Ord>(v: &mut Vec<T>)
    requires
        obeys_cmp::<T>(),
    ensures
        final(v)@.to_multiset() == old(v)@.to_multiset(),
        sorted_by_cmp(final(v)@),
{
    v.sort_unstable()
}

/// Extension methods for [`std::vec::Vec`] that return the vector, so that
/// calls can be chained.
pub trait VecExt<T>: Sized {
    /// The elements, for use in contracts.
    spec fn elems(&self) -> Seq<T>;

    /// Sorts the vector like [`Vec::sort`] and returns it: stable, in
    /// non-descending order.
    fn sorted(self) -> (r: Self) where T: Ord
        requires
            obeys_cmp::<T>(),
        ensures
            r.elems().to_multiset() == self.elems().to_multiset(),
            is_stable_sort_of(r.elems(), self.elems()),
    ;

    /// Sorts the vector like [`Vec::sort_unstable`] and returns it.
    fn sorted_unstable(self) -> (r: Self) where T: Ord
        requires
            obeys_cmp::<T>(),
        ensures
            r.elems().to_multiset() == self.elems().to_multiset(),
            sorted_by_cmp(r.elems()),
    ;

    /// Reverses the order of the elements and returns the vector.
    fn reversed(self) -> (r: Self)
        ensures
            r.elems() == reversed_seq(self.elems()),
    ;
}

impl<T> VecExt<T> for Vec<T> {
    open spec fn elems(&self) -> Seq<T> {
        self@
    }

    fn sorted(self) -> (r: Self) where T: Ord {
        let mut v = self;
        sort_stable(&mut v);
        v
    }

    fn sorted_unstable(self) -> (r: Self) where T: Ord {
        let mut v = self;
        sort_any(&mut v);
        v
    }

    fn reversed(self) -> (r: Self) {
        let mut rest = self;
        let mut out: Vec<T> = Vec::new();
        while rest.len() > 0
            invariant
                rest@.len() + out@.len() == self@.len(),
                rest@ == self@.subrange(0, rest@.len() as int),
                out@ == reversed_seq(self@).subrange(0, out@.len() as int),
            decreases rest@.len(),
        {
            let x = rest.pop().unwrap();
            out.push(x);
            assert(out@ =~= reversed_seq(self@).subrange(0, out@.len() as int));
        }
        assert(out@ =~= reversed_seq(self@));
        out
    }
}

} // verus!
