//! Ordering rows by a numeric key.
use vstd::prelude::*;
use vstd::multiset::Multiset;
use vstd::seq_lib::{to_multiset_build, to_multiset_insert};

verus! {

/// Rows that are ordered by a numeric key.
pub trait SortKey {
    spec fn sort_key(&self) -> u64;

    fn key(&self) -> (k: u64)
        ensures
            k == self.sort_key(),
    ;
}

/// The keys of `s` never decrease.
pub open spec fn sorted_by_key<T: SortKey>(s: Seq<T>) -> bool {
    forall|i: int, j: int| 0 <= i <= j < s.len() ==> s[i].sort_key() <= s[j].sort_key()
}

/// The rows of `s` whose key is `k`, in their order in `s`.
pub open spec fn with_key<T: SortKey>(s: Seq<T>, k: u64) -> Seq<T> {
    s.filter(key_is(k))
}

/// Whether a row's key is `k`.
pub open spec fn key_is<T: SortKey>(k: u64) -> spec_fn(T) -> bool {
    |x: T| x.sort_key() == k
}

proof fn lemma_with_key_single<T: SortKey>(x: T, k: u64)
    ensures
        with_key(seq![x], k) == if x.sort_key() == k { seq![x] } else { Seq::<T>::empty() },
{
    let p = key_is::<T>(k);
    let e = Seq::<T>::empty();
    assert(e.all(|y: T| !p(y)));
    e.lemma_all_neg_filter_empty(p);
    e.lemma_filter_push(x, p);
    assert(e.push(x) =~= seq![x]);
    assert(e.filter(p) =~= e);
}

/// Inserting `x` before every row whose key is not smaller puts it first among
/// the rows of its key, and leaves the rows of every other key as they were.
proof fn lemma_insert_with_key<T: SortKey>(a: Seq<T>, pos: int, x: T, k: u64)
    requires
        0 <= pos <= a.len(),
        forall|i: int| 0 <= i < pos ==> (#[trigger] a[i]).sort_key() < x.sort_key(),
    ensures
        with_key(a.insert(pos, x), k) == if x.sort_key() == k {
            seq![x] + with_key(a, k)
        } else {
            with_key(a, k)
        },
{
    let p = key_is::<T>(k);
    let front = a.take(pos);
    let back = a.skip(pos);
    assert(a =~= front + back);
    assert(a.insert(pos, x) =~= front + (seq![x] + back));
    Seq::filter_distributes_over_add(front, back, p);
    Seq::filter_distributes_over_add(front, seq![x] + back, p);
    Seq::filter_distributes_over_add(seq![x], back, p);
    lemma_with_key_single(x, k);
    if x.sort_key() == k {
        assert(front.all(|y: T| !p(y))) by {
            assert forall|i: int| 0 <= i < front.len() implies !p(#[trigger] front[i]) by {
                assert(front[i] == a[i]);
            }
        }
        front.lemma_all_neg_filter_empty(p);
        assert(front.filter(p) =~= Seq::<T>::empty());
        assert(with_key(a.insert(pos, x), k) =~= seq![x] + with_key(a, k));
    } else {
        assert(with_key(a.insert(pos, x), k) =~= with_key(a, k));
    }
}

/// Orders `v` by key, keeping rows of equal key in their order (like
/// `slice::sort_by_key`). The result is sorted, holds the same rows, and for
/// every key holds the rows of that key in the order `v` holds them.
pub fn sort_by_key<T: SortKey>(v: Vec<T>) -> (r: Vec<T>)
    ensures
        sorted_by_key(r@),
        r@.to_multiset() == v@.to_multiset(),
        r@.len() == v@.len(),
        forall|k: u64| #[trigger] with_key(r@, k) == with_key(v@, k),
{
    broadcast use vstd::multiset::group_multiset_axioms;
    broadcast use vstd::seq_lib::group_to_multiset_ensures;

    let ghost orig = v@;
    let mut rest = v;
    let mut out: Vec<T> = Vec::new();
    assert(out@.to_multiset() =~= Multiset::empty());
    assert forall|k: u64| #[trigger] with_key(orig, k) == with_key(rest@, k) + with_key(out@, k) by {
        let p = key_is::<T>(k);
        assert(out@.all(|y: T| !p(y)));
        out@.lemma_all_neg_filter_empty(p);
        assert(with_key(rest@, k) + with_key(out@, k) =~= with_key(rest@, k));
    }
    while rest.len() > 0
        invariant
            sorted_by_key(out@),
            out@.to_multiset().add(rest@.to_multiset()) == orig.to_multiset(),
            out@.len() + rest@.len() == orig.len(),
            forall|k: u64| #[trigger] with_key(orig, k) == with_key(rest@, k) + with_key(out@, k),
        decreases rest@.len(),
    {
        let ghost before_rest = rest@;
        let x = rest.pop().unwrap();
        proof {
            assert(before_rest =~= rest@.push(x));
            to_multiset_build(rest@, x);
        }
        let xk = x.key();
        let mut pos: usize = 0;
        while pos < out.len() && out[pos].key() < xk
            invariant
                pos <= out@.len(),
                forall|k: int| 0 <= k < pos ==> out@[k].sort_key() < xk,
            decreases out@.len() - pos,
        {
            pos = pos + 1;
        }
        let ghost before_out = out@;
        proof {
            to_multiset_insert(before_out, pos as int, x);
        }
        out.insert(pos, x);
        assert(out@ == before_out.insert(pos as int, x));
        assert forall|k: u64| #[trigger] with_key(orig, k) == with_key(rest@, k) + with_key(out@, k) by {
            let p = key_is::<T>(k);
            assert(with_key(orig, k) == with_key(before_rest, k) + with_key(before_out, k));
            rest@.lemma_filter_push(x, p);
            lemma_insert_with_key(before_out, pos as int, x, k);
            if x.sort_key() == k {
                assert(with_key(rest@, k) + with_key(out@, k) =~= with_key(rest@, k).push(x) + with_key(
                    before_out,
                    k,
                ));
            }
        }
        assert forall|i: int, j: int| 0 <= i <= j < out@.len() implies out@[i].sort_key()
            <= out@[j].sort_key() by {
            if pos < before_out.len() {
                assert(before_out[pos as int].sort_key() >= xk);
            }
            if i < pos && j > pos {
                assert(out@[j] == before_out[j - 1]);
            }
        }
    }
    proof {
        assert(rest@ =~= Seq::<T>::empty());
        assert(rest@.to_multiset() =~= Multiset::empty());
        assert forall|k: u64| #[trigger] with_key(out@, k) == with_key(orig, k) by {
            let p = key_is::<T>(k);
            assert(rest@.all(|y: T| !p(y)));
            rest@.lemma_all_neg_filter_empty(p);
            assert(with_key(rest@, k) + with_key(out@, k) =~= with_key(out@, k));
        }
    }
    out
}

} // verus!
