//! Stable sorting of block items by their reported transaction index.
//!
//! Pairing is index-based, not arrival-based: before transactions are zipped
//! with receipts, each list is sorted by the index its node reported, keeping
//! the arrival order of items whose reported indices tie. The sort is defined
//! here once as a specification, `sort_indexed`, and the executable
//! `sort_by_reported_index` is proved to return exactly that sequence.

use vstd::prelude::*;

use crate::block::TransactionIndexed;

verus! {

/// Holds when `s` ascends (weakly) by reported index.
pub open spec fn sorted_by_reported_index<T: TransactionIndexed>(s: Seq<T>) -> bool {
    forall|i: int, j: int|
        0 <= i < j < s.len() ==> #[trigger] s[i].spec_reported_index()
            <= #[trigger] s[j].spec_reported_index()
}

/// `x` placed into `s` after every element whose reported index is at most
/// `x`'s. On a sorted sequence this is the stable insertion position: an
/// element arriving later never moves ahead of an equal-index element
/// already present.
pub open spec fn insert_indexed<T: TransactionIndexed>(x: T, s: Seq<T>) -> Seq<T>
    decreases s.len(),
{
    if s.len() == 0 {
        seq![x]
    } else if s.last().spec_reported_index() <= x.spec_reported_index() {
        s.push(x)
    } else {
        insert_indexed(x, s.drop_last()).push(s.last())
    }
}

/// The stable sort of `s` by reported index: each element, in arrival order,
/// inserted at its stable position among those before it.
pub open spec fn sort_indexed<T: TransactionIndexed>(s: Seq<T>) -> Seq<T>
    decreases s.len(),
{
    if s.len() == 0 {
        s
    } else {
        insert_indexed(s.last(), sort_indexed(s.drop_last()))
    }
}

pub proof fn lemma_insert_indexed_len<T: TransactionIndexed>(x: T, s: Seq<T>)
    ensures
        insert_indexed(x, s).len() == s.len() + 1,
    decreases s.len(),
{
    if s.len() == 0 {
    } else if s.last().spec_reported_index() <= x.spec_reported_index() {
    } else {
        lemma_insert_indexed_len(x, s.drop_last());
    }
}

pub proof fn lemma_insert_indexed_multiset<T: TransactionIndexed>(x: T, s: Seq<T>)
    ensures
        insert_indexed(x, s).to_multiset() == s.to_multiset().insert(x),
    decreases s.len(),
{
    broadcast use vstd::seq_lib::group_to_multiset_ensures;

    if s.len() == 0 {
        assert(seq![x] =~= Seq::<T>::empty().push(x));
        assert(s =~= Seq::<T>::empty());
    } else if s.last().spec_reported_index() <= x.spec_reported_index() {
    } else {
        let dl = s.drop_last();
        lemma_insert_indexed_multiset(x, dl);
        assert(s =~= dl.push(s.last()));
        assert(insert_indexed(x, s) == insert_indexed(x, dl).push(s.last()));
        assert(dl.to_multiset().insert(x).insert(s.last()) =~= dl.to_multiset().insert(
            s.last(),
        ).insert(x));
    }
}

/// Every element of `insert_indexed(x, s)` stays within a bound that holds
/// of `x` and of every element of `s`.
pub proof fn lemma_insert_indexed_bound<T: TransactionIndexed>(x: T, s: Seq<T>, bound: u64)
    requires
        x.spec_reported_index() <= bound,
        forall|m: int| 0 <= m < s.len() ==> #[trigger] s[m].spec_reported_index() <= bound,
    ensures
        forall|m: int|
            0 <= m < insert_indexed(x, s).len() ==> #[trigger] insert_indexed(x, s)[
                m
            ].spec_reported_index() <= bound,
    decreases s.len(),
{
    if s.len() == 0 {
        assert forall|m: int| 0 <= m < insert_indexed(x, s).len() implies insert_indexed(x, s)[
            m
        ].spec_reported_index() <= bound by {
            assert(insert_indexed(x, s)[m] == x);
        }
    } else if s.last().spec_reported_index() <= x.spec_reported_index() {
        assert forall|m: int| 0 <= m < insert_indexed(x, s).len() implies insert_indexed(x, s)[
            m
        ].spec_reported_index() <= bound by {
            if m < s.len() {
                assert(insert_indexed(x, s)[m] == s[m]);
            } else {
                assert(insert_indexed(x, s)[m] == x);
            }
        }
    } else {
        let dl = s.drop_last();
        assert forall|m: int| 0 <= m < dl.len() implies #[trigger] dl[m].spec_reported_index()
            <= bound by {
            assert(dl[m] == s[m]);
        }
        lemma_insert_indexed_bound(x, dl, bound);
        let ins = insert_indexed(x, dl);
        assert forall|m: int| 0 <= m < insert_indexed(x, s).len() implies insert_indexed(x, s)[
            m
        ].spec_reported_index() <= bound by {
            if m < ins.len() {
                assert(insert_indexed(x, s)[m] == ins[m]);
            } else {
                assert(insert_indexed(x, s)[m] == s.last());
                assert(s[s.len() - 1].spec_reported_index() <= bound);
            }
        }
    }
}

pub proof fn lemma_insert_indexed_sorted<T: TransactionIndexed>(x: T, s: Seq<T>)
    requires
        sorted_by_reported_index(s),
    ensures
        sorted_by_reported_index(insert_indexed(x, s)),
    decreases s.len(),
{
    if s.len() == 0 {
    } else if s.last().spec_reported_index() <= x.spec_reported_index() {
        let r = s.push(x);
        assert forall|i: int, j: int| 0 <= i < j < r.len() implies r[i].spec_reported_index() <= r[
            j
        ].spec_reported_index() by {
            if j < s.len() {
            } else {
                if i < s.len() - 1 {
                    assert(s[i].spec_reported_index() <= s[s.len() - 1].spec_reported_index());
                }
            }
        }
    } else {
        let dl = s.drop_last();
        let last = s.last();
        assert(sorted_by_reported_index(dl)) by {
            assert forall|i: int, j: int|
                0 <= i < j < dl.len() implies dl[i].spec_reported_index() <= dl[
                j
            ].spec_reported_index() by {
                assert(s[i].spec_reported_index() <= s[j].spec_reported_index());
            }
        }
        lemma_insert_indexed_sorted(x, dl);
        assert forall|m: int| 0 <= m < dl.len() implies #[trigger] dl[m].spec_reported_index()
            <= last.spec_reported_index() by {
            assert(s[m].spec_reported_index() <= s[s.len() - 1].spec_reported_index());
        }
        lemma_insert_indexed_bound(x, dl, last.spec_reported_index());
        let ins = insert_indexed(x, dl);
        let r = ins.push(last);
        lemma_insert_indexed_len(x, dl);
        assert forall|i: int, j: int| 0 <= i < j < r.len() implies r[i].spec_reported_index() <= r[
            j
        ].spec_reported_index() by {
            if j < ins.len() {
                assert(ins[i].spec_reported_index() <= ins[j].spec_reported_index());
            } else {
                assert(ins[i].spec_reported_index() <= last.spec_reported_index());
            }
        }
    }
}

/// The stable sort keeps the length, keeps exactly the elements, and leaves
/// them ascending by reported index.
pub proof fn lemma_sort_indexed_ensures<T: TransactionIndexed>(s: Seq<T>)
    ensures
        sort_indexed(s).len() == s.len(),
        sort_indexed(s).to_multiset() == s.to_multiset(),
        sorted_by_reported_index(sort_indexed(s)),
    decreases s.len(),
{
    broadcast use vstd::seq_lib::group_to_multiset_ensures;

    if s.len() == 0 {
    } else {
        let dl = s.drop_last();
        let last = s.last();
        lemma_sort_indexed_ensures(dl);
        lemma_insert_indexed_len(last, sort_indexed(dl));
        lemma_insert_indexed_multiset(last, sort_indexed(dl));
        lemma_insert_indexed_sorted(last, sort_indexed(dl));
        assert(s =~= dl.push(last));
    }
}

/// Under the conditions that the executable scan establishes, the stable
/// insertion position of `x` in sorted `s` is exactly `pos`.
pub proof fn lemma_insert_indexed_at<T: TransactionIndexed>(x: T, s: Seq<T>, pos: int)
    requires
        sorted_by_reported_index(s),
        0 <= pos <= s.len(),
        pos == 0 || s[pos - 1].spec_reported_index() <= x.spec_reported_index(),
        forall|m: int|
            pos <= m < s.len() ==> #[trigger] s[m].spec_reported_index()
                > x.spec_reported_index(),
    ensures
        insert_indexed(x, s) == s.insert(pos, x),
    decreases s.len(),
{
    if s.len() == 0 {
        assert(insert_indexed(x, s) =~= s.insert(0, x));
    } else if s.last().spec_reported_index() <= x.spec_reported_index() {
        assert(pos == s.len());
        assert(s.push(x) =~= s.insert(pos, x));
    } else {
        assert(pos < s.len());
        let dl = s.drop_last();
        assert(sorted_by_reported_index(dl)) by {
            assert forall|i: int, j: int|
                0 <= i < j < dl.len() implies dl[i].spec_reported_index() <= dl[
                j
            ].spec_reported_index() by {
                assert(s[i].spec_reported_index() <= s[j].spec_reported_index());
            }
        }
        lemma_insert_indexed_at(x, dl, pos);
        assert(dl.insert(pos, x).push(s.last()) =~= s.insert(pos, x));
    }
}

/// Sorts `v` stably by reported index, returning exactly the sequence that
/// `sort_indexed` describes.
pub fn sort_by_reported_index<T: TransactionIndexed + Copy>(v: Vec<T>) -> (r: Vec<T>)
    ensures
        r@ == sort_indexed(v@),
{
    let n = v.len();
    let mut out: Vec<T> = Vec::new();
    let mut i: usize = 0;
    while i < n
        invariant
            i <= n,
            n == v@.len(),
            out@ == sort_indexed(v@.take(i as int)),
            sorted_by_reported_index(out@),
        decreases n - i,
    {
        let x = v[i];
        let x_key = x.reported_index();
        let mut pos: usize = out.len();
        while pos > 0 && out[pos - 1].reported_index() > x_key
            invariant
                pos <= out@.len(),
                x_key == x.spec_reported_index(),
                forall|m: int|
                    pos <= m < out@.len() ==> #[trigger] out@[m].spec_reported_index()
                        > x.spec_reported_index(),
            decreases pos,
        {
            pos = pos - 1;
        }
        let ghost prev = out@;
        proof {
            lemma_insert_indexed_at(x, prev, pos as int);
            lemma_insert_indexed_sorted(x, prev);
        }
        out.insert(pos, x);
        proof {
            assert(out@ == insert_indexed(x, prev));
            assert(v@.take(i as int + 1).drop_last() =~= v@.take(i as int));
            assert(v@.take(i as int + 1).last() == v@[i as int]);
            assert(sort_indexed(v@.take(i as int + 1)) == insert_indexed(
                x,
                sort_indexed(v@.take(i as int)),
            ));
        }
        i = i + 1;
    }
    proof {
        assert(v@.take(n as int) =~= v@);
    }
    out
}

} // verus!
