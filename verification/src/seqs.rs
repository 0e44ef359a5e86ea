//! Sequence vocabulary shared by the contracts: first match, filtering and stable ordering.
use vstd::prelude::*;

verus! {

/// The first position, from `i` on, whose element satisfies `p`.
pub open spec fn first_from<A>(s: Seq<A>, p: spec_fn(A) -> bool, i: int) -> Option<int>
    decreases s.len() - i,
{
    if i < 0 || i >= s.len() {
        None
    } else if p(s[i]) {
        Some(i)
    } else {
        first_from(s, p, i + 1)
    }
}

/// The first position whose element satisfies `p`.
pub open spec fn first_pos<A>(s: Seq<A>, p: spec_fn(A) -> bool) -> Option<int> {
    first_from(s, p, 0)
}

pub proof fn lemma_first_from<A>(s: Seq<A>, p: spec_fn(A) -> bool, i: int)
    requires
        0 <= i,
    ensures
        match first_from(s, p, i) {
            Some(k) => i <= k < s.len() && p(s[k]) && (forall|j: int| i <= j < k ==> !p(#[trigger] s[j])),
            None => forall|j: int| i <= j < s.len() ==> !p(#[trigger] s[j]),
        },
    decreases s.len() - i,
{
    if i < s.len() && !p(s[i]) {
        lemma_first_from(s, p, i + 1);
    }
}

/// Elements before the first match stand in for it: a match at `k` with none before is first.
pub proof fn lemma_first_is<A>(s: Seq<A>, p: spec_fn(A) -> bool, k: int)
    requires
        0 <= k < s.len(),
        p(s[k]),
        forall|j: int| 0 <= j < k ==> !p(#[trigger] s[j]),
    ensures
        first_pos(s, p) == Some(k),
{
    lemma_first_from(s, p, 0);
}

/// The elements that satisfy `p`, in order.
pub open spec fn keep<A>(s: Seq<A>, p: spec_fn(A) -> bool) -> Seq<A>
    decreases s.len(),
{
    if s.len() == 0 {
        Seq::empty()
    } else {
        let rest = keep(s.drop_last(), p);
        if p(s.last()) {
            rest.push(s.last())
        } else {
            rest
        }
    }
}

pub proof fn lemma_keep_step<A>(s: Seq<A>, p: spec_fn(A) -> bool, j: int)
    requires
        0 <= j < s.len(),
    ensures
        keep(s.take(j + 1), p) == (if p(s[j]) {
            keep(s.take(j), p).push(s[j])
        } else {
            keep(s.take(j), p)
        }),
{
    assert(s.take(j + 1).drop_last() =~= s.take(j));
    assert(s.take(j + 1).last() == s[j]);
}

pub proof fn lemma_keep<A>(s: Seq<A>, p: spec_fn(A) -> bool)
    ensures
        keep(s, p).len() <= s.len(),
        keep(s, p).len() == s.len() <==> (forall|j: int| 0 <= j < s.len() ==> p(#[trigger] s[j])),
        keep(s, p).len() == s.len() ==> keep(s, p) == s,
        forall|x: A| #[trigger] keep(s, p).contains(x) <==> (s.contains(x) && p(x)),
        forall|j: int| 0 <= j < keep(s, p).len() ==> p(#[trigger] keep(s, p)[j]),
    decreases s.len(),
{
    if s.len() > 0 {
        let r = s.drop_last();
        lemma_keep(r, p);
        let k = keep(s, p);
        let kr = keep(r, p);
        assert(k == (if p(s.last()) {
            kr.push(s.last())
        } else {
            kr
        }));
        assert forall|x: A| #[trigger] k.contains(x) <==> (s.contains(x) && p(x)) by {
            if s.contains(x) && p(x) {
                let i = choose|i: int| 0 <= i < s.len() && s[i] == x;
                if i < r.len() {
                    assert(r[i] == x);
                    assert(r.contains(x));
                    assert(kr.contains(x));
                    let m = choose|m: int| 0 <= m < kr.len() && kr[m] == x;
                    assert(k[m] == x);
                } else {
                    assert(k[k.len() - 1] == x);
                }
            }
            if k.contains(x) {
                let m = choose|m: int| 0 <= m < k.len() && k[m] == x;
                if m < kr.len() {
                    assert(kr[m] == x);
                    assert(kr.contains(x));
                    assert(r.contains(x));
                    let i = choose|i: int| 0 <= i < r.len() && r[i] == x;
                    assert(s[i] == x);
                } else {
                    assert(s[s.len() - 1] == x);
                }
            }
        }
        if forall|j: int| 0 <= j < s.len() ==> p(#[trigger] s[j]) {
            assert forall|j: int| 0 <= j < r.len() implies p(#[trigger] r[j]) by {
                assert(r[j] == s[j]);
            }
        }
        if k.len() == s.len() {
            assert forall|j: int| 0 <= j < s.len() implies p(#[trigger] s[j]) by {
                if j < r.len() {
                    assert(r[j] == s[j]);
                }
            }
        }
        assert forall|j: int| 0 <= j < k.len() implies p(#[trigger] k[j]) by {
            if j < kr.len() {
                assert(kr[j] == k[j]);
            }
        }
    }
}

/// The values of a list.
pub open spec fn views<T: View>(v: Seq<T>) -> Seq<T::V> {
    v.map_values(|x: T| x@)
}

/// Keeps the elements that `f` holds of; `p` is what `f` says over their values.
pub(crate) fn retain_by<T: View, F: Fn(&T) -> bool>(v: &mut Vec<T>, f: F, Ghost(p): Ghost<spec_fn(T::V) -> bool>)
    requires
        forall|x: &T| call_requires(f, (x,)),
        forall|x: &T, b: bool| call_ensures(f, (x,), b) ==> b == p(x@),
    ensures
        views(final(v)@) == keep(views(old(v)@), p),
{
    let ghost all = views(v@);
    let n: usize = v.len();
    let mut seen: usize = 0;
    let mut at: usize = 0;
    assert(all.take(0) =~= Seq::empty());
    assert(all.skip(0) =~= all);
    while seen < n
        invariant
            forall|x: &T| call_requires(f, (x,)),
            forall|x: &T, b: bool| call_ensures(f, (x,), b) ==> b == p(x@),
            n == all.len(),
            seen <= n,
            at == keep(all.take(seen as int), p).len(),
            views(v@) == keep(all.take(seen as int), p) + all.skip(seen as int),
        decreases n - seen,
    {
        proof {
            lemma_keep_step(all, p, seen as int);
            assert(views(v@).len() == v@.len());
            assert(all.skip(seen as int).len() == n - seen);
            assert(views(v@)[at as int] == all[seen as int]);
            assert(v@[at as int]@ == all[seen as int]);
            assert(at < v.len());
        }
        let ghost before = views(v@);
        let stays: bool = f(&v[at]);
        if stays {
            at = at + 1;
        } else {
            v.remove(at);
            assert(views(v@) =~= before.remove(at as int));
        }
        seen = seen + 1;
        assert(views(v@) =~= keep(all.take(seen as int), p) + all.skip(seen as int));
    }
    proof {
        assert(all.take(n as int) =~= all);
        assert(views(v@) =~= keep(all, p));
    }
}

/// The first element that `f` holds of; `p` is what `f` says over the elements' values.
pub(crate) fn find_by<T: View, F: Fn(&T) -> bool>(v: &Vec<T>, f: F, Ghost(p): Ghost<spec_fn(T::V) -> bool>) -> (r: Option<
    usize,
>)
    requires
        forall|x: &T| call_requires(f, (x,)),
        forall|x: &T, b: bool| call_ensures(f, (x,), b) ==> b == p(x@),
    ensures
        match (r, first_pos(views(v@), p)) {
            (Some(k), Some(i)) => k == i && k < v.len() && p(v[k as int]@),
            (None, None) => true,
            _ => false,
        },
{
    let mut i: usize = 0;
    while i < v.len()
        invariant
            forall|x: &T| call_requires(f, (x,)),
            forall|x: &T, b: bool| call_ensures(f, (x,), b) ==> b == p(x@),
            i <= v.len(),
            first_pos(views(v@), p) == first_from(views(v@), p, i as int),
        decreases v.len() - i,
    {
        assert(views(v@)[i as int] == v@[i as int]@);
        if f(&v[i]) {
            return Some(i);
        }
        i = i + 1;
    }
    None
}

/// `x` put after the last element that does not have to follow it.
pub open spec fn insert_by(s: Seq<int>, x: int, le: spec_fn(int, int) -> bool) -> Seq<int>
    decreases s.len(),
{
    if s.len() == 0 || le(s.last(), x) {
        s.push(x)
    } else {
        insert_by(s.drop_last(), x, le).push(s.last())
    }
}

/// The elements in the order of `le`, equal ones in the order they came.
pub open spec fn sort_by(s: Seq<int>, le: spec_fn(int, int) -> bool) -> Seq<int>
    decreases s.len(),
{
    if s.len() == 0 {
        s
    } else {
        insert_by(sort_by(s.drop_last(), le), s.last(), le)
    }
}

/// The numbers below `n`.
pub open spec fn upto(n: int) -> Seq<int> {
    Seq::new(if n < 0 {
        0
    } else {
        n as nat
    }, |i: int| i)
}

pub proof fn lemma_insert_at(s: Seq<int>, x: int, le: spec_fn(int, int) -> bool, p: int)
    requires
        0 <= p <= s.len(),
        forall|k: int| p <= k < s.len() ==> !le(#[trigger] s[k], x),
        p == 0 || le(s[p - 1], x),
    ensures
        insert_by(s, x, le) == s.insert(p, x),
    decreases s.len(),
{
    if p == s.len() {
        assert(s.insert(p, x) =~= s.push(x));
    } else {
        lemma_insert_at(s.drop_last(), x, le, p);
        assert(s.drop_last().insert(p, x).push(s.last()) =~= s.insert(p, x));
    }
}

/// Whether `le` orders everything.
pub open spec fn total_order(le: spec_fn(int, int) -> bool) -> bool {
    &&& forall|a: int, b: int| #[trigger] le(a, b) || le(b, a)
    &&& forall|a: int, b: int, c: int| #[trigger] le(a, b) && #[trigger] le(b, c) ==> le(a, c)
}

/// Whether `s` is ordered by `le`, and by number where `le` does not tell two apart.
pub open spec fn ordered(s: Seq<int>, le: spec_fn(int, int) -> bool) -> bool {
    forall|i: int, j: int|
        0 <= i < j < s.len() ==> le(#[trigger] s[i], #[trigger] s[j]) && (le(s[j], s[i]) ==> s[i] < s[j])
}

pub open spec fn increasing(s: Seq<int>) -> bool {
    forall|i: int, j: int| 0 <= i < j < s.len() ==> #[trigger] s[i] < #[trigger] s[j]
}

proof fn lemma_insert_by(s: Seq<int>, x: int, le: spec_fn(int, int) -> bool)
    requires
        total_order(le),
        ordered(s, le),
        forall|i: int| 0 <= i < s.len() ==> #[trigger] s[i] < x,
    ensures
        ordered(insert_by(s, x, le), le),
        insert_by(s, x, le).len() == s.len() + 1,
        forall|y: int| #[trigger] insert_by(s, x, le).contains(y) <==> (s.contains(y) || y == x),
        forall|i: int| 0 <= i <= s.len() ==> #[trigger] insert_by(s, x, le)[i] <= x,
    decreases s.len(),
{
    let r = insert_by(s, x, le);
    if s.len() == 0 {
        assert(r =~= seq![x]);
        assert(r[0] == x);
    } else if le(s.last(), x) {
        assert(r[s.len() as int] == x);
        assert forall|i: int, j: int| 0 <= i < j < r.len() implies le(#[trigger] r[i], #[trigger] r[j]) && (le(
            r[j],
            r[i],
        ) ==> r[i] < r[j]) by {
            if j == s.len() {
                if i < s.len() - 1 {
                    assert(le(s[i], s[s.len() - 1]));
                }
                assert(le(s[i], x));
            }
        }
        assert forall|y: int| #[trigger] r.contains(y) <==> (s.contains(y) || y == x) by {
            if s.contains(y) {
                let i = choose|i: int| 0 <= i < s.len() && s[i] == y;
                assert(r[i] == y);
            }
        }
    } else {
        let d = s.drop_last();
        lemma_insert_by(d, x, le);
        let q = insert_by(d, x, le);
        let z = s.last();
        assert(le(x, z));
        assert(r =~= q.push(z));
        assert forall|i: int, j: int| 0 <= i < j < r.len() implies le(#[trigger] r[i], #[trigger] r[j]) && (le(
            r[j],
            r[i],
        ) ==> r[i] < r[j]) by {
            if j == q.len() {
                assert(q.contains(q[i]));
                if q[i] == x {
                    assert(le(x, z));
                } else {
                    assert(d.contains(q[i]));
                    let k = choose|k: int| 0 <= k < d.len() && d[k] == q[i];
                    assert(s[k] == q[i]);
                    assert(le(s[k], s[s.len() - 1]));
                }
            }
        }
        assert forall|y: int| #[trigger] r.contains(y) <==> (s.contains(y) || y == x) by {
            if r.contains(y) {
                let i = choose|i: int| 0 <= i < r.len() && r[i] == y;
                if i < q.len() {
                    assert(q[i] == y);
                    assert(q.contains(y));
                    if y != x {
                        assert(d.contains(y));
                        let k = choose|k: int| 0 <= k < d.len() && d[k] == y;
                        assert(s[k] == y);
                    }
                } else {
                    assert(s[s.len() - 1] == y);
                }
            }
            if s.contains(y) || y == x {
                if y == x {
                    assert(q.contains(x));
                    let k = choose|k: int| 0 <= k < q.len() && q[k] == x;
                    assert(r[k] == x);
                } else {
                    let k = choose|k: int| 0 <= k < s.len() && s[k] == y;
                    if k < d.len() {
                        assert(d[k] == y);
                        assert(d.contains(y));
                        assert(q.contains(y));
                        let m = choose|m: int| 0 <= m < q.len() && q[m] == y;
                        assert(r[m] == y);
                    } else {
                        assert(r[r.len() - 1] == y);
                    }
                }
            }
        }
    }
}

/// Sorting keeps every element, orders them, and leaves those that `le` does not tell apart in
/// the order they came.
pub proof fn law_sort_by(s: Seq<int>, le: spec_fn(int, int) -> bool)
    requires
        total_order(le),
        increasing(s),
    ensures
        ordered(sort_by(s, le), le),
        sort_by(s, le).len() == s.len(),
        forall|y: int| #[trigger] sort_by(s, le).contains(y) <==> s.contains(y),
        sort_by(s, le).no_duplicates(),
    decreases s.len(),
{
    if s.len() > 0 {
        let d = s.drop_last();
        law_sort_by(d, le);
        let q = sort_by(d, le);
        assert forall|i: int| 0 <= i < q.len() implies #[trigger] q[i] < s.last() by {
            assert(q.contains(q[i]));
            assert(d.contains(q[i]));
            let k = choose|k: int| 0 <= k < d.len() && d[k] == q[i];
            assert(s[k] < s[s.len() - 1]);
        }
        lemma_insert_by(q, s.last(), le);
        let r = sort_by(s, le);
        assert forall|y: int| #[trigger] r.contains(y) <==> s.contains(y) by {
            if s.contains(y) {
                let k = choose|k: int| 0 <= k < s.len() && s[k] == y;
                if k < d.len() {
                    assert(d[k] == y);
                }
            }
            if d.contains(y) {
                let k = choose|k: int| 0 <= k < d.len() && d[k] == y;
                assert(s[k] == y);
            }
            if y == s.last() {
                assert(s[s.len() - 1] == y);
            }
        }
    }
    let r = sort_by(s, le);
    assert forall|i: int, j: int| 0 <= i < j < r.len() implies r[i] != r[j] by {
        if r[i] == r[j] {
            assert(le(r[j], r[i]));
        }
    }
}

} // verus!
