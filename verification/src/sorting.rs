//! Stable sorting by text keys, as a list of positions.
use vstd::prelude::*;
use crate::seqs::{law_sort_by, lemma_insert_at, sort_by, total_order, upto, views};
use crate::text::{chars_le, lemma_lex_le_antisymmetric, lemma_lex_le_total, lemma_lex_le_transitive, lex_le};

verus! {

/// Positions as numbers.
pub open spec fn ints(v: Seq<usize>) -> Seq<int> {
    v.map_values(|x: usize| x as int)
}

/// The elements of a sequence in the order of a list of positions.
pub open spec fn arranged<A>(s: Seq<A>, order: Seq<int>) -> Seq<A> {
    order.map_values(|i: int| s[i])
}

/// Keys as texts.
pub open spec fn keys_of(keys: Seq<Vec<char>>) -> Seq<Seq<char>> {
    keys.map_values(|k: Vec<char>| k@)
}

/// The order of positions by their keys.
pub open spec fn by_key(keys: Seq<Seq<char>>) -> spec_fn(int, int) -> bool {
    |a: int, b: int| lex_le(keys[a], keys[b])
}

/// The order of positions by a first key, and by a second one where the first is the same.
pub open spec fn by_keys(first: Seq<Seq<char>>, second: Seq<Seq<char>>) -> spec_fn(int, int) -> bool {
    |a: int, b: int|
        if first[a] == first[b] {
            lex_le(second[a], second[b])
        } else {
            lex_le(first[a], first[b])
        }
}

/// The positions in the order of their keys, equal keys in the order they came.
pub open spec fn key_order(keys: Seq<Seq<char>>) -> Seq<int> {
    sort_by(upto(keys.len() as int), by_key(keys))
}

pub open spec fn pair_order(first: Seq<Seq<char>>, second: Seq<Seq<char>>) -> Seq<int> {
    sort_by(upto(first.len() as int), by_keys(first, second))
}

/// Sorting by a key keeps every position once, orders the keys, and leaves equal ones in the order
/// they came.
pub proof fn law_key_order(keys: Seq<Seq<char>>)
    ensures
        key_order(keys).len() == keys.len(),
        key_order(keys).no_duplicates(),
        forall|y: int| #[trigger] key_order(keys).contains(y) <==> 0 <= y < keys.len(),
        forall|i: int, j: int|
            0 <= i < j < keys.len() ==> lex_le(
                keys[#[trigger] key_order(keys)[i]],
                keys[#[trigger] key_order(keys)[j]],
            ),
        forall|i: int, j: int|
            0 <= i < j < keys.len() && keys[key_order(keys)[i]] == keys[key_order(keys)[j]] ==> #[trigger] key_order(
                keys,
            )[i] < #[trigger] key_order(keys)[j],
{
    let le = by_key(keys);
    assert(total_order(le)) by {
        assert forall|a: int, b: int| #[trigger] le(a, b) || le(b, a) by {
            lemma_lex_le_total(keys[a], keys[b]);
        }
        assert forall|a: int, b: int, c: int| #[trigger] le(a, b) && #[trigger] le(b, c) implies le(a, c) by {
            lemma_lex_le_transitive(keys[a], keys[b], keys[c]);
        }
    }
    law_sort_by(upto(keys.len() as int), le);
    let o = key_order(keys);
    assert forall|y: int| #[trigger] o.contains(y) <==> 0 <= y < keys.len() by {
        if 0 <= y < keys.len() {
            assert(upto(keys.len() as int)[y] == y);
        }
    }
    assert forall|i: int, j: int| 0 <= i < j < keys.len() implies lex_le(
        keys[#[trigger] o[i]],
        keys[#[trigger] o[j]],
    ) by {
        assert(le(o[i], o[j]));
    }
    assert forall|i: int, j: int| 0 <= i < j < keys.len() && keys[o[i]] == keys[o[j]] implies #[trigger] o[i]
        < #[trigger] o[j] by {
        lemma_lex_le_total(keys[o[i]], keys[o[j]]);
        assert(le(o[j], o[i]));
    }
}

/// Sorting by two keys keeps every position once, and orders by the first key and then the second.
pub proof fn law_pair_order(first: Seq<Seq<char>>, second: Seq<Seq<char>>)
    ensures
        pair_order(first, second).len() == first.len(),
        pair_order(first, second).no_duplicates(),
        forall|y: int| #[trigger] pair_order(first, second).contains(y) <==> 0 <= y < first.len(),
        forall|i: int, j: int|
            0 <= i < j < first.len() ==> by_keys(first, second)(
                #[trigger] pair_order(first, second)[i],
                #[trigger] pair_order(first, second)[j],
            ),
{
    let le = by_keys(first, second);
    assert(total_order(le)) by {
        assert forall|a: int, b: int| #[trigger] le(a, b) || le(b, a) by {
            lemma_lex_le_total(first[a], first[b]);
            lemma_lex_le_total(second[a], second[b]);
        }
        assert forall|a: int, b: int, c: int| #[trigger] le(a, b) && #[trigger] le(b, c) implies le(a, c) by {
            if first[a] == first[b] && first[b] == first[c] {
                lemma_lex_le_transitive(second[a], second[b], second[c]);
            } else if first[a] != first[b] && first[b] != first[c] {
                lemma_lex_le_transitive(first[a], first[b], first[c]);
                if first[a] == first[c] {
                    lemma_lex_le_antisymmetric(first[a], first[b]);
                }
            }
        }
    }
    law_sort_by(upto(first.len() as int), le);
    let o = pair_order(first, second);
    assert forall|y: int| #[trigger] o.contains(y) <==> 0 <= y < first.len() by {
        if 0 <= y < first.len() {
            assert(upto(first.len() as int)[y] == y);
        }
    }
}

/// Sorts the positions below `n` by insertion; `f` tells whether one may stand before another.
fn order_by<F: Fn(usize, usize) -> bool>(
    n: usize,
    f: F,
    Ghost(le): Ghost<spec_fn(int, int) -> bool>,
) -> (r: Vec<usize>)
    requires
        forall|a: usize, b: usize| a < n && b < n ==> #[trigger] call_requires(f, (a, b)),
        forall|a: usize, b: usize, x: bool|
            #[trigger] call_ensures(f, (a, b), x) && a < n && b < n ==> x == le(a as int, b as int),
    ensures
        ints(r@) == sort_by(upto(n as int), le),
        forall|k: int| 0 <= k < r.len() ==> (#[trigger] r[k]) < n,
{
    let mut order: Vec<usize> = Vec::new();
    let mut j: usize = 0;
    assert(ints(order@) =~= sort_by(upto(0), le)) by {
        assert(upto(0) =~= Seq::empty());
    }
    while j < n
        invariant
            j <= n,
            forall|a: usize, b: usize| a < n && b < n ==> #[trigger] call_requires(f, (a, b)),
            forall|a: usize, b: usize, x: bool|
                #[trigger] call_ensures(f, (a, b), x) && a < n && b < n ==> x == le(a as int, b as int),
            ints(order@) == sort_by(upto(j as int), le),
            forall|k: int| 0 <= k < order.len() ==> (#[trigger] order[k]) < n,
        decreases n - j,
    {
        let ghost s = ints(order@);
        let mut p: usize = order.len();
        let mut looking: bool = true;
        while looking && p > 0
            invariant
                p <= order.len(),
                j < n,
                forall|a: usize, b: usize| a < n && b < n ==> #[trigger] call_requires(f, (a, b)),
                forall|a: usize, b: usize, x: bool|
                    #[trigger] call_ensures(f, (a, b), x) && a < n && b < n ==> x == le(a as int, b as int),
                s == ints(order@),
                forall|k: int| 0 <= k < order.len() ==> (#[trigger] order[k]) < n,
                forall|k: int| p <= k < s.len() ==> !le(#[trigger] s[k], j as int),
                !looking ==> p > 0 && le(s[p - 1], j as int),
            decreases p + if looking {
                1int
            } else {
                0
            },
        {
            let before: usize = order[p - 1];
            assert(s[p - 1] == before);
            if f(before, j) {
                looking = false;
            } else {
                p = p - 1;
            }
        }
        proof {
            lemma_insert_at(s, j as int, le, p as int);
            assert(upto(j + 1).drop_last() =~= upto(j as int));
            assert(upto(j + 1).last() == j);
        }
        let ghost before = order@;
        order.insert(p, j);
        assert(ints(order@) =~= s.insert(p as int, j as int));
        assert forall|k: int| 0 <= k < order.len() implies (#[trigger] order[k]) < n by {
            if k < p {
                assert(order[k] == before[k]);
            } else if k > p {
                assert(order[k] == before[k - 1]);
            }
        }
        j = j + 1;
    }
    order
}

fn key_le(keys: &Vec<Vec<char>>, a: usize, b: usize) -> (r: bool)
    requires
        a < keys.len(),
        b < keys.len(),
    ensures
        r == by_key(keys_of(keys@))(a as int, b as int),
{
    chars_le(&keys[a], &keys[b])
}

fn pair_le(first: &Vec<Vec<char>>, second: &Vec<Vec<char>>, a: usize, b: usize) -> (r: bool)
    requires
        a < first.len(),
        b < first.len(),
        first.len() == second.len(),
    ensures
        r == by_keys(keys_of(first@), keys_of(second@))(a as int, b as int),
{
    let up: bool = chars_le(&first[a], &first[b]);
    let down: bool = chars_le(&first[b], &first[a]);
    proof {
        lemma_lex_le_total(first[a as int]@, first[b as int]@);
        if up && down {
            lemma_lex_le_antisymmetric(first[a as int]@, first[b as int]@);
        }
    }
    if up && down {
        chars_le(&second[a], &second[b])
    } else {
        up
    }
}

/// The positions in the order of their keys, equal keys in the order they came.
pub fn sorted_order(keys: &Vec<Vec<char>>) -> (r: Vec<usize>)
    ensures
        ints(r@) == key_order(keys_of(keys@)),
        ints(r@).no_duplicates(),
        forall|k: int| 0 <= k < r.len() ==> (#[trigger] r[k]) < keys.len(),
{
    let ghost le = by_key(keys_of(keys@));
    let before = |a: usize, b: usize| -> (x: bool)
        requires
            a < keys.len(),
            b < keys.len(),
        ensures
            x == le(a as int, b as int),
        { key_le(keys, a, b) };
    let r = order_by(keys.len(), before, Ghost(le));
    proof {
        law_key_order(keys_of(keys@));
    }
    r
}

/// The positions in the order of a first key, and of a second one where the first is the same.
pub fn sorted_pairs(first: &Vec<Vec<char>>, second: &Vec<Vec<char>>) -> (r: Vec<usize>)
    requires
        first.len() == second.len(),
    ensures
        ints(r@) == pair_order(keys_of(first@), keys_of(second@)),
        ints(r@).no_duplicates(),
        forall|k: int| 0 <= k < r.len() ==> (#[trigger] r[k]) < first.len(),
{
    let ghost le = by_keys(keys_of(first@), keys_of(second@));
    let before = |a: usize, b: usize| -> (x: bool)
        requires
            a < first.len(),
            b < first.len(),
        ensures
            x == le(a as int, b as int),
        { pair_le(first, second, a, b) };
    let r = order_by(first.len(), before, Ghost(le));
    proof {
        law_pair_order(keys_of(first@), keys_of(second@));
    }
    r
}

/// The elements of a list in the order of a list of distinct positions.
pub(crate) fn arrange<T: View>(v: Vec<T>, order: &Vec<usize>) -> (r: Vec<T>)
    requires
        ints(order@).no_duplicates(),
        forall|j: int| 0 <= j < order.len() ==> (#[trigger] order[j]) < v.len(),
    ensures
        views(r@) == arranged(views(v@), ints(order@)),
{
    let ghost all = v@;
    let mut slots: Vec<Option<T>> = Vec::new();
    for x in it: v.into_iter()
        invariant
            it.seq() == all,
            slots.len() == it.index(),
            forall|k: int| 0 <= k < slots.len() ==> (#[trigger] slots[k]) == Some(all[k]),
    {
        slots.push(Some(x));
    }
    let mut out: Vec<T> = Vec::new();
    let mut i: usize = 0;
    while i < order.len()
        invariant
            i <= order.len(),
            slots.len() == all.len(),
            ints(order@).no_duplicates(),
            forall|j: int| 0 <= j < order.len() ==> (#[trigger] order[j]) < all.len(),
            forall|k: int|
                0 <= k < slots.len() && !ints(order@).subrange(0, i as int).contains(k) ==> (#[trigger] slots[k])
                    == Some(all[k]),
            out.len() == i,
            forall|k: int| 0 <= k < i ==> (#[trigger] out[k]) == all[order[k] as int],
        decreases order.len() - i,
    {
        let at: usize = order[i];
        proof {
            let o = ints(order@);
            assert(o[i as int] == at);
            if o.subrange(0, i as int).contains(at as int) {
                let j = choose|j: int| 0 <= j < i && o.subrange(0, i as int)[j] == at;
                assert(o[j] == o[i as int]);
            }
        }
        match slots[at].take() {
            Some(x) => {
                out.push(x);
            },
            None => {},
        }
        proof {
            let o = ints(order@);
            assert forall|k: int| 0 <= k < slots.len() && !o.subrange(0, i + 1).contains(k) implies (#[trigger] slots[k])
                == Some(all[k]) by {
                assert(o.subrange(0, i + 1)[i as int] == at);
                if o.subrange(0, i as int).contains(k) {
                    let j = choose|j: int| 0 <= j < i && o.subrange(0, i as int)[j] == k;
                    assert(o.subrange(0, i + 1)[j] == k);
                }
            }
        }
        i = i + 1;
    }
    assert(views(out@) =~= arranged(views(all), ints(order@)));
    out
}

} // verus!
