//! Stable sorting of a sequence under a strict weak order, as a
//! specification with the laws that its users rely on.

use vstd::prelude::*;

verus! {

/// Whether `lt` orders its values as "comes strictly before" does when
/// values are ranked by a key: nothing comes before itself, and both coming
/// before and not coming before carry over a middle value.
pub open spec fn strict_weak_order<T>(lt: spec_fn(T, T) -> bool) -> bool {
    &&& forall|a: T| !#[trigger] lt(a, a)
    &&& forall|a: T, b: T, c: T| #[trigger] lt(a, b) && #[trigger] lt(b, c) ==> lt(a, c)
    &&& forall|a: T, b: T, c: T| !#[trigger] lt(a, b) && !#[trigger] lt(b, c) ==> !lt(a, c)
}

/// Whether no value of `s` comes strictly before one that stands earlier.
pub open spec fn sorted<T>(s: Seq<T>, lt: spec_fn(T, T) -> bool) -> bool {
    forall|i: int, j: int| 0 <= i < j < s.len() ==> !lt(#[trigger] s[j], #[trigger] s[i])
}

/// Whether values that neither come before the other are the same value.
pub open spec fn ties_are_equal<T>(s: Seq<T>, lt: spec_fn(T, T) -> bool) -> bool {
    forall|i: int, j: int|
        0 <= i < s.len() && 0 <= j < s.len() && !lt(#[trigger] s[i], #[trigger] s[j]) && !lt(
            s[j],
            s[i],
        ) ==> s[i] == s[j]
}

/// How many values at the front of `s` come strictly before `x`: the place
/// where `x` enters a sorted `s`, ahead of every value it ties with.
pub open spec fn insert_index<T>(x: T, s: Seq<T>, lt: spec_fn(T, T) -> bool) -> int
    decreases s.len(),
{
    if s.len() == 0 {
        0
    } else if lt(s[0], x) {
        1 + insert_index(x, s.drop_first(), lt)
    } else {
        0
    }
}

/// The values of `s` in ascending order, with ties in the order they had in
/// `s`: each value, from the last to the first, enters the sorted rest ahead
/// of the values it ties with.
pub open spec fn stable_sort<T>(s: Seq<T>, lt: spec_fn(T, T) -> bool) -> Seq<T>
    decreases s.len(),
{
    if s.len() == 0 {
        s
    } else {
        let rest = stable_sort(s.drop_first(), lt);
        rest.insert(insert_index(s[0], rest, lt), s[0])
    }
}

/// The insert index lies within the sequence, every value ahead of it comes
/// before `x`, and the value at it, if any, does not.
pub proof fn lemma_insert_index<T>(x: T, s: Seq<T>, lt: spec_fn(T, T) -> bool)
    ensures
        0 <= insert_index(x, s, lt) <= s.len(),
        forall|k: int| 0 <= k < insert_index(x, s, lt) ==> lt(#[trigger] s[k], x),
        insert_index(x, s, lt) < s.len() ==> !lt(s[insert_index(x, s, lt)], x),
    decreases s.len(),
{
    if s.len() > 0 && lt(s[0], x) {
        let rest = s.drop_first();
        lemma_insert_index(x, rest, lt);
        let at = insert_index(x, rest, lt);
        assert forall|k: int| 0 <= k < at + 1 implies lt(#[trigger] s[k], x) by {
            if k > 0 {
                assert(s[k] == rest[k - 1]);
            }
        }
        if at + 1 < s.len() {
            assert(s[at + 1] == rest[at]);
        }
    }
}

/// The insert index is the only place ahead of which every value comes
/// before `x` while the value at it does not.
pub proof fn lemma_insert_index_found<T>(x: T, s: Seq<T>, lt: spec_fn(T, T) -> bool, at: int)
    requires
        0 <= at <= s.len(),
        forall|k: int| 0 <= k < at ==> lt(#[trigger] s[k], x),
        at < s.len() ==> !lt(s[at], x),
    ensures
        insert_index(x, s, lt) == at,
    decreases s.len(),
{
    if s.len() > 0 && at > 0 {
        let rest = s.drop_first();
        assert(lt(s[0], x));
        assert forall|k: int| 0 <= k < at - 1 implies lt(#[trigger] rest[k], x) by {
            assert(rest[k] == s[k + 1]);
        }
        if at - 1 < rest.len() {
            assert(rest[at - 1] == s[at]);
        }
        lemma_insert_index_found(x, rest, lt, at - 1);
    }
}

/// A sorted sequence stays sorted when a value enters at its insert index.
pub proof fn lemma_insert_keeps_sorted<T>(x: T, s: Seq<T>, lt: spec_fn(T, T) -> bool)
    requires
        strict_weak_order(lt),
        sorted(s, lt),
    ensures
        sorted(s.insert(insert_index(x, s, lt), x), lt),
{
    lemma_insert_index(x, s, lt);
    let at = insert_index(x, s, lt);
    let out = s.insert(at, x);
    assert forall|i: int, j: int| 0 <= i < j < out.len() implies !lt(
        #[trigger] out[j],
        #[trigger] out[i],
    ) by {
        if j == at {
            assert(out[i] == s[i]);
            assert(lt(s[i], x));
            if lt(x, s[i]) {
                assert(lt(x, x));
            }
        } else if i == at {
            assert(out[j] == s[j - 1]);
            assert(!lt(s[at], x));
            if j - 1 > at {
                assert(!lt(s[j - 1], s[at]));
            }
        } else {
            let oi = if i < at {
                i
            } else {
                i - 1
            };
            let oj = if j < at {
                j
            } else {
                j - 1
            };
            assert(out[i] == s[oi] && out[j] == s[oj]);
            assert(oi < oj);
        }
    }
}

/// What `stable_sort` gives is sorted.
pub proof fn lemma_stable_sort_sorted<T>(s: Seq<T>, lt: spec_fn(T, T) -> bool)
    requires
        strict_weak_order(lt),
    ensures
        sorted(stable_sort(s, lt), lt),
    decreases s.len(),
{
    if s.len() > 0 {
        lemma_stable_sort_sorted(s.drop_first(), lt);
        lemma_insert_keeps_sorted(s[0], stable_sort(s.drop_first(), lt), lt);
    }
}

/// What `stable_sort` gives holds the values of `s`, each as often as `s`
/// holds it, and so is as long as `s`.
pub proof fn lemma_stable_sort_permutes<T>(s: Seq<T>, lt: spec_fn(T, T) -> bool)
    ensures
        stable_sort(s, lt).to_multiset() == s.to_multiset(),
        stable_sort(s, lt).len() == s.len(),
    decreases s.len(),
{
    broadcast use vstd::seq_lib::group_to_multiset_ensures;

    if s.len() > 0 {
        let rest = stable_sort(s.drop_first(), lt);
        lemma_stable_sort_permutes(s.drop_first(), lt);
        lemma_insert_index(s[0], rest, lt);
        let at = insert_index(s[0], rest, lt);
        vstd::seq_lib::to_multiset_insert(rest, at, s[0]);
        assert(s.drop_first() == s.remove(0));
        vstd::seq_lib::to_multiset_remove(s, 0);
        assert(s.to_multiset().count(s[0]) > 0);
        assert(rest.insert(at, s[0]).to_multiset() =~= s.to_multiset());
    } else {
        assert(stable_sort(s, lt) == s);
    }
}

/// Whether two values tie: neither comes strictly before the other.
pub open spec fn ties_with<T>(a: T, b: T, lt: spec_fn(T, T) -> bool) -> bool {
    !lt(a, b) && !lt(b, a)
}

/// The values of `s` that tie with `x`, in the order they have in `s`.
pub open spec fn tied<T>(s: Seq<T>, x: T, lt: spec_fn(T, T) -> bool) -> Seq<T>
    decreases s.len(),
{
    if s.len() == 0 {
        Seq::empty()
    } else if ties_with(s[0], x, lt) {
        seq![s[0]] + tied(s.drop_first(), x, lt)
    } else {
        tied(s.drop_first(), x, lt)
    }
}

/// The values that tie with `x` in a row are those of its two parts, one
/// after the other.
pub proof fn lemma_tied_splits<T>(a: Seq<T>, b: Seq<T>, x: T, lt: spec_fn(T, T) -> bool)
    ensures
        tied(a + b, x, lt) == tied(a, x, lt) + tied(b, x, lt),
    decreases a.len(),
{
    if a.len() == 0 {
        assert(a + b =~= b);
        assert(tied(a, x, lt) + tied(b, x, lt) =~= tied(b, x, lt));
    } else {
        assert((a + b).drop_first() =~= a.drop_first() + b);
        assert((a + b)[0] == a[0]);
        lemma_tied_splits(a.drop_first(), b, x, lt);
        assert(tied(a + b, x, lt) =~= tied(a, x, lt) + tied(b, x, lt));
    }
}

/// A row of which no value ties with `x` holds no value that ties with `x`.
pub proof fn lemma_none_tied<T>(s: Seq<T>, x: T, lt: spec_fn(T, T) -> bool)
    requires
        forall|i: int| 0 <= i < s.len() ==> !ties_with(#[trigger] s[i], x, lt),
    ensures
        tied(s, x, lt) == Seq::<T>::empty(),
    decreases s.len(),
{
    if s.len() > 0 {
        let rest = s.drop_first();
        assert(!ties_with(s[0], x, lt));
        assert forall|i: int| 0 <= i < rest.len() implies !ties_with(#[trigger] rest[i], x, lt) by {
            assert(rest[i] == s[i + 1]);
        }
        lemma_none_tied(rest, x, lt);
    }
}

/// Sorting is stable: the values that tie with any one value stand in the
/// sorted row in the order they had before.
pub proof fn lemma_stable_sort_keeps_ties_in_order<T>(s: Seq<T>, x: T, lt: spec_fn(T, T) -> bool)
    requires
        strict_weak_order(lt),
    ensures
        tied(stable_sort(s, lt), x, lt) == tied(s, x, lt),
    decreases s.len(),
{
    if s.len() > 0 {
        let first = s[0];
        let rest = stable_sort(s.drop_first(), lt);
        lemma_stable_sort_keeps_ties_in_order(s.drop_first(), x, lt);
        lemma_insert_index(first, rest, lt);
        let at = insert_index(first, rest, lt);
        let front = rest.subrange(0, at);
        let back = rest.subrange(at, rest.len() as int);
        assert(rest =~= front + back);
        assert(rest.insert(at, first) =~= (front + seq![first]) + back);
        lemma_tied_splits(front, back, x, lt);
        lemma_tied_splits(front + seq![first], back, x, lt);
        lemma_tied_splits(front, seq![first], x, lt);
        assert(seq![first].drop_first() =~= Seq::<T>::empty());
        assert(seq![first][0] == first);
        assert(tied(Seq::<T>::empty(), x, lt) =~= Seq::<T>::empty());
        if ties_with(first, x, lt) {
            assert forall|i: int| 0 <= i < front.len() implies !ties_with(
                #[trigger] front[i],
                x,
                lt,
            ) by {
                assert(front[i] == rest[i]);
                assert(lt(rest[i], first));
                if ties_with(front[i], x, lt) {
                    assert(!lt(front[i], x) && !lt(x, first));
                    assert(!lt(front[i], first));
                }
            }
            lemma_none_tied(front, x, lt);
            assert(tied(seq![first], x, lt) =~= seq![first]);
            assert(tied(rest.insert(at, first), x, lt) =~= seq![first] + tied(back, x, lt));
            assert(tied(rest, x, lt) =~= tied(back, x, lt));
        } else {
            assert(tied(seq![first], x, lt) =~= Seq::<T>::empty());
            assert(tied(rest.insert(at, first), x, lt) =~= tied(front, x, lt) + tied(back, x, lt));
        }
    }
}

/// The values that tie with `x` in a row reversed are those of the row,
/// reversed.
pub proof fn lemma_tied_of_reverse<T>(s: Seq<T>, x: T, lt: spec_fn(T, T) -> bool)
    ensures
        tied(s.reverse(), x, lt) == tied(s, x, lt).reverse(),
    decreases s.len(),
{
    if s.len() == 0 {
        assert(s.reverse() =~= s);
        assert(tied(s, x, lt).reverse() =~= tied(s, x, lt));
    } else {
        let first = seq![s[0]];
        let rest = s.drop_first();
        lemma_tied_of_reverse(rest, x, lt);
        assert(s.reverse() =~= rest.reverse() + first);
        lemma_tied_splits(rest.reverse(), first, x, lt);
        assert(first.drop_first() =~= Seq::<T>::empty());
        assert(first[0] == s[0]);
        assert(tied(Seq::<T>::empty(), x, lt) =~= Seq::<T>::empty());
        if ties_with(s[0], x, lt) {
            assert(tied(first, x, lt) =~= first);
            assert(tied(s, x, lt).reverse() =~= tied(rest, x, lt).reverse() + first);
        } else {
            assert(tied(first, x, lt) =~= Seq::<T>::empty());
            assert(tied(s.reverse(), x, lt) =~= tied(rest, x, lt).reverse());
        }
    }
}

/// Sorting leaves a sorted sequence as it is.
pub proof fn lemma_stable_sort_of_sorted<T>(s: Seq<T>, lt: spec_fn(T, T) -> bool)
    requires
        sorted(s, lt),
    ensures
        stable_sort(s, lt) == s,
    decreases s.len(),
{
    if s.len() > 0 {
        let rest = s.drop_first();
        assert forall|i: int, j: int| 0 <= i < j < rest.len() implies !lt(
            #[trigger] rest[j],
            #[trigger] rest[i],
        ) by {
            assert(rest[i] == s[i + 1] && rest[j] == s[j + 1]);
        }
        lemma_stable_sort_of_sorted(rest, lt);
        if rest.len() > 0 {
            assert(rest[0] == s[1]);
            assert(!lt(s[1], s[0]));
        }
        assert(insert_index(s[0], rest, lt) == 0);
        assert(rest.insert(0, s[0]) =~= s);
    }
}

/// Sorting twice gives what sorting once gives.
pub proof fn lemma_stable_sort_idempotent<T>(s: Seq<T>, lt: spec_fn(T, T) -> bool)
    requires
        strict_weak_order(lt),
    ensures
        stable_sort(stable_sort(s, lt), lt) == stable_sort(s, lt),
{
    lemma_stable_sort_sorted(s, lt);
    lemma_stable_sort_of_sorted(stable_sort(s, lt), lt);
}

/// Where ties are equal values in `s`, they are so in every sequence that
/// holds the same values.
pub proof fn lemma_ties_carry_over<T>(s: Seq<T>, t: Seq<T>, lt: spec_fn(T, T) -> bool)
    requires
        s.to_multiset() == t.to_multiset(),
        ties_are_equal(s, lt),
    ensures
        ties_are_equal(t, lt),
{
    broadcast use vstd::seq_lib::group_to_multiset_ensures;

    assert forall|i: int, j: int|
        0 <= i < t.len() && 0 <= j < t.len() && !lt(#[trigger] t[i], #[trigger] t[j]) && !lt(
            t[j],
            t[i],
        ) implies t[i] == t[j] by {
        assert(t.contains(t[i]) && t.contains(t[j]));
        assert(s.to_multiset().count(t[i]) > 0 && s.to_multiset().count(t[j]) > 0);
        assert(s.contains(t[i]) && s.contains(t[j]));
        let a = choose|a: int| 0 <= a < s.len() && s[a] == t[i];
        let b = choose|b: int| 0 <= b < s.len() && s[b] == t[j];
        assert(!lt(s[a], s[b]) && !lt(s[b], s[a]));
    }
}

/// Two sorted sequences that hold the same values, each equally often, are
/// one and the same where ties are equal values.
pub proof fn lemma_sorted_is_unique<T>(a: Seq<T>, b: Seq<T>, lt: spec_fn(T, T) -> bool)
    requires
        strict_weak_order(lt),
        sorted(a, lt),
        sorted(b, lt),
        a.to_multiset() == b.to_multiset(),
        ties_are_equal(a, lt),
    ensures
        a == b,
    decreases a.len(),
{
    broadcast use vstd::seq_lib::group_to_multiset_ensures;

    assert(a.len() == a.to_multiset().len() && b.len() == b.to_multiset().len());
    if a.len() == 0 {
        assert(a =~= b);
    } else {
        assert(a.contains(a[0]) && b.contains(b[0]));
        assert(b.to_multiset().count(a[0]) > 0 && a.to_multiset().count(b[0]) > 0);
        assert(b.contains(a[0]) && a.contains(b[0]));
        let k = choose|k: int| 0 <= k < b.len() && b[k] == a[0];
        let m = choose|m: int| 0 <= m < a.len() && a[m] == b[0];
        if m > 0 {
            assert(!lt(a[m], a[0]));
        }
        if k > 0 {
            assert(!lt(b[k], b[0]));
        }
        assert(!lt(a[0], a[m]) && !lt(a[m], a[0]));
        assert(a[0] == b[0]);
        let ra = a.drop_first();
        let rb = b.drop_first();
        assert(ra == a.remove(0) && rb == b.remove(0));
        vstd::seq_lib::to_multiset_remove(a, 0);
        vstd::seq_lib::to_multiset_remove(b, 0);
        assert forall|i: int, j: int| 0 <= i < j < ra.len() implies !lt(
            #[trigger] ra[j],
            #[trigger] ra[i],
        ) by {
            assert(ra[i] == a[i + 1] && ra[j] == a[j + 1]);
        }
        assert forall|i: int, j: int| 0 <= i < j < rb.len() implies !lt(
            #[trigger] rb[j],
            #[trigger] rb[i],
        ) by {
            assert(rb[i] == b[i + 1] && rb[j] == b[j + 1]);
        }
        assert forall|i: int, j: int|
            0 <= i < ra.len() && 0 <= j < ra.len() && !lt(#[trigger] ra[i], #[trigger] ra[j])
                && !lt(ra[j], ra[i]) implies ra[i] == ra[j] by {
            assert(ra[i] == a[i + 1] && ra[j] == a[j + 1]);
        }
        lemma_sorted_is_unique(ra, rb, lt);
        assert(a =~= seq![a[0]] + ra);
        assert(b =~= seq![b[0]] + rb);
    }
}

/// The values of `s` in descending order: sorted ascending, then reversed.
pub open spec fn sort_descending<T>(s: Seq<T>, lt: spec_fn(T, T) -> bool) -> Seq<T> {
    stable_sort(s, lt).reverse()
}

/// In a row sorted descending, the values that tie with any one value
/// stand in the opposite of the order they had before.
pub proof fn lemma_sort_descending_turns_ties_round<T>(
    s: Seq<T>,
    x: T,
    lt: spec_fn(T, T) -> bool,
)
    requires
        strict_weak_order(lt),
    ensures
        tied(sort_descending(s, lt), x, lt) == tied(s, x, lt).reverse(),
{
    lemma_stable_sort_keeps_ties_in_order(s, x, lt);
    lemma_tied_of_reverse(stable_sort(s, lt), x, lt);
}

/// Whether, for every value, the values of the row that tie with it read
/// the same forwards and backwards.
pub open spec fn ties_read_the_same_backwards<T>(s: Seq<T>, lt: spec_fn(T, T) -> bool) -> bool {
    forall|x: T| #[trigger] tied(s, x, lt).reverse() == tied(s, x, lt)
}

/// The first value of a row is the first of those that tie with it.
pub proof fn lemma_first_is_first_of_its_ties<T>(s: Seq<T>, x: T, lt: spec_fn(T, T) -> bool)
    requires
        s.len() > 0,
        ties_with(s[0], x, lt),
    ensures
        tied(s, x, lt).len() > 0,
        tied(s, x, lt)[0] == s[0],
        tied(s, x, lt).drop_first() == tied(s.drop_first(), x, lt),
{
    assert(tied(s, x, lt).drop_first() =~= tied(s.drop_first(), x, lt));
}

/// A row that holds a value that ties with `x` has values that tie with `x`.
pub proof fn lemma_some_tied<T>(s: Seq<T>, x: T, lt: spec_fn(T, T) -> bool, at: int)
    requires
        0 <= at < s.len(),
        ties_with(s[at], x, lt),
    ensures
        tied(s, x, lt).len() > 0,
    decreases s.len(),
{
    if at > 0 {
        assert(s.drop_first()[at - 1] == s[at]);
        lemma_some_tied(s.drop_first(), x, lt, at - 1);
    }
}

/// A row that has values that tie with `x` holds one.
pub proof fn lemma_tied_is_held<T>(s: Seq<T>, x: T, lt: spec_fn(T, T) -> bool) -> (at: int)
    requires
        tied(s, x, lt).len() > 0,
    ensures
        0 <= at < s.len(),
        ties_with(s[at], x, lt),
    decreases s.len(),
{
    if s.len() == 0 {
        0
    } else if ties_with(s[0], x, lt) {
        0
    } else {
        let below = lemma_tied_is_held(s.drop_first(), x, lt);
        assert(s.drop_first()[below] == s[below + 1]);
        below + 1
    }
}

/// Two sorted rows are one and the same if, for every value, the values
/// that tie with it are the same in both, in the same order.
pub proof fn lemma_sorted_with_same_ties<T>(a: Seq<T>, b: Seq<T>, lt: spec_fn(T, T) -> bool)
    requires
        strict_weak_order(lt),
        sorted(a, lt),
        sorted(b, lt),
        forall|x: T| #[trigger] tied(a, x, lt) == tied(b, x, lt),
    ensures
        a == b,
    decreases a.len() + b.len(),
{
    if a.len() == 0 && b.len() == 0 {
        assert(a =~= b);
    } else if a.len() == 0 {
        lemma_some_tied(b, b[0], lt, 0);
        assert(tied(a, b[0], lt) == tied(b, b[0], lt));
    } else if b.len() == 0 {
        lemma_some_tied(a, a[0], lt, 0);
        assert(tied(a, a[0], lt) == tied(b, a[0], lt));
    } else {
        lemma_some_tied(a, a[0], lt, 0);
        lemma_some_tied(b, b[0], lt, 0);
        assert(tied(a, a[0], lt) == tied(b, a[0], lt));
        assert(tied(a, b[0], lt) == tied(b, b[0], lt));
        let k = lemma_tied_is_held(b, a[0], lt);
        let m = lemma_tied_is_held(a, b[0], lt);
        if k > 0 {
            assert(!lt(b[k], b[0]));
        }
        if m > 0 {
            assert(!lt(a[m], a[0]));
        }
        // b[k] ties with a[0] and does not come before b[0]; a[m] ties with
        // b[0] and does not come before a[0]: so a[0] and b[0] tie.
        assert(!lt(a[0], b[0])) by {
            if lt(a[0], b[0]) {
                assert(!lt(b[k], a[0]) && !lt(a[0], b[k]));
                if k > 0 {
                    assert(!lt(b[k], b[0]));
                    assert(!lt(a[0], b[0]));
                }
            }
        }
        assert(!lt(b[0], a[0])) by {
            if lt(b[0], a[0]) {
                assert(!lt(a[m], b[0]) && !lt(b[0], a[m]));
                if m > 0 {
                    assert(!lt(a[m], a[0]));
                    assert(!lt(b[0], a[0]));
                }
            }
        }
        lemma_first_is_first_of_its_ties(a, a[0], lt);
        lemma_first_is_first_of_its_ties(b, a[0], lt);
        assert(a[0] == b[0]);
        let ra = a.drop_first();
        let rb = b.drop_first();
        assert forall|i: int, j: int| 0 <= i < j < ra.len() implies !lt(
            #[trigger] ra[j],
            #[trigger] ra[i],
        ) by {
            assert(ra[i] == a[i + 1] && ra[j] == a[j + 1]);
        }
        assert forall|i: int, j: int| 0 <= i < j < rb.len() implies !lt(
            #[trigger] rb[j],
            #[trigger] rb[i],
        ) by {
            assert(rb[i] == b[i + 1] && rb[j] == b[j + 1]);
        }
        assert forall|x: T| #[trigger] tied(ra, x, lt) == tied(rb, x, lt) by {
            assert(tied(a, x, lt) == tied(b, x, lt));
            if ties_with(a[0], x, lt) {
                lemma_first_is_first_of_its_ties(a, x, lt);
                lemma_first_is_first_of_its_ties(b, x, lt);
            }
        }
        lemma_sorted_with_same_ties(ra, rb, lt);
        assert(a =~= seq![a[0]] + ra);
        assert(b =~= seq![b[0]] + rb);
    }
}

/// Sorting descending twice gives what sorting descending once gives on
/// the rows whose ties read the same backwards, and on no others. (Each
/// descending sort turns the values that tie round.)
pub proof fn lemma_sort_descending_idempotent<T>(s: Seq<T>, lt: spec_fn(T, T) -> bool)
    requires
        strict_weak_order(lt),
    ensures
        sort_descending(sort_descending(s, lt), lt) == sort_descending(s, lt)
            <==> ties_read_the_same_backwards(s, lt),
{
    let once = sort_descending(s, lt);
    let twice = sort_descending(once, lt);
    if twice == once {
        assert forall|x: T| #[trigger] tied(s, x, lt).reverse() == tied(s, x, lt) by {
            lemma_sort_descending_turns_ties_round(s, x, lt);
            lemma_sort_descending_turns_ties_round(once, x, lt);
            assert(tied(s, x, lt).reverse().reverse() =~= tied(s, x, lt));
        }
    }
    if ties_read_the_same_backwards(s, lt) {
        let t = stable_sort(s, lt);
        let again = stable_sort(t.reverse(), lt);
        lemma_stable_sort_sorted(s, lt);
        lemma_stable_sort_sorted(t.reverse(), lt);
        assert forall|x: T| #[trigger] tied(t, x, lt) == tied(again, x, lt) by {
            lemma_stable_sort_keeps_ties_in_order(s, x, lt);
            lemma_stable_sort_keeps_ties_in_order(t.reverse(), x, lt);
            lemma_tied_of_reverse(t, x, lt);
            assert(tied(s, x, lt).reverse() == tied(s, x, lt));
        }
        lemma_sorted_with_same_ties(t, again, lt);
    }
}

/// The ties of a row read the same backwards where values that tie are
/// equal values.
pub proof fn lemma_equal_ties_read_the_same_backwards<T>(s: Seq<T>, lt: spec_fn(T, T) -> bool)
    requires
        strict_weak_order(lt),
        ties_are_equal(s, lt),
    ensures
        ties_read_the_same_backwards(s, lt),
{
    let t = stable_sort(s, lt);
    let again = stable_sort(t.reverse(), lt);
    lemma_stable_sort_sorted(s, lt);
    lemma_stable_sort_permutes(s, lt);
    lemma_ties_carry_over(s, t, lt);
    lemma_stable_sort_sorted(t.reverse(), lt);
    lemma_stable_sort_permutes(t.reverse(), lt);
    t.lemma_reverse_to_multiset();
    lemma_sorted_is_unique(t, again, lt);
    lemma_sort_descending_idempotent(s, lt);
}

} // verus!
