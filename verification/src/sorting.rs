//! Ordering of keyed entries.

use crate::scalar::Scalar;
use vstd::prelude::*;

verus! {

/// The entries whose key is less than `pivot`.
pub open spec fn below<T>(pivot: Scalar) -> spec_fn((Scalar, T)) -> bool {
    |entry: (Scalar, T)| entry.0.spec_less_than(pivot)
}

/// The entries whose key is greater than `pivot`.
pub open spec fn above<T>(pivot: Scalar) -> spec_fn((Scalar, T)) -> bool {
    |entry: (Scalar, T)| entry.0.spec_greater_than(pivot)
}

/// The entries whose key is neither less nor greater than `pivot`: those with
/// an equal key and, whatever `pivot` is, those whose key is not a number.
pub open spec fn beside<T>(pivot: Scalar) -> spec_fn((Scalar, T)) -> bool {
    |entry: (Scalar, T)| !entry.0.spec_less_than(pivot) && !entry.0.spec_greater_than(pivot)
}

/// The key by which a list of two or more entries is split: that of its middle
/// entry.
pub open spec fn pivot_of<T>(list: Seq<(Scalar, T)>) -> Scalar
    recommends
        list.len() > 0,
{
    list[list.len() as int / 2].0
}

/// A filter that rejects one of the entries yields a shorter list.
pub proof fn lemma_filter_drops<A>(s: Seq<A>, pred: spec_fn(A) -> bool, i: int)
    requires
        0 <= i < s.len(),
        !pred(s[i]),
    ensures
        s.filter(pred).len() < s.len(),
    decreases s.len(),
{
    reveal(Seq::filter);
    s.drop_last().lemma_filter_len(pred);
    if i < s.len() - 1 {
        lemma_filter_drops(s.drop_last(), pred, i);
    }
}

/// The list in ascending order of its keys, entries with equal keys in the
/// order in which they stand in `list`.
///
/// A list of two or more entries is split by the key of its middle entry into
/// the entries below it, beside it and above it; the first and the last part
/// are ordered in the same way. Where a key is not a number no order exists,
/// and this split is what decides where the entry goes.
pub open spec fn sorted_by_key<T>(list: Seq<(Scalar, T)>) -> Seq<(Scalar, T)>
    decreases list.len(),
{
    if list.len() <= 1 {
        list
    } else {
        let pivot = pivot_of(list);
        proof {
            let middle = list.len() as int / 2;
            lemma_filter_drops(list, below::<T>(pivot), middle);
            lemma_filter_drops(list, above::<T>(pivot), middle);
        }
        sorted_by_key(list.filter(below(pivot))) + list.filter(beside(pivot)) + sorted_by_key(
            list.filter(above(pivot)),
        )
    }
}

/// Every key of `list` is a number.
pub open spec fn keys_are_numbers<T>(list: Seq<(Scalar, T)>) -> bool {
    forall|i: int| 0 <= i < list.len() ==> !(#[trigger] list[i]).0.spec_is_nan()
}

/// No entry of `list` has a greater key than an entry behind it.
pub open spec fn ascending<T>(list: Seq<(Scalar, T)>) -> bool {
    forall|i: int, j: int|
        0 <= i < j < list.len() ==> (#[trigger] list[i]).0.spec_at_most((#[trigger] list[j]).0)
}

/// The entries whose key equals `key`.
pub open spec fn keyed<T>(key: Scalar) -> spec_fn((Scalar, T)) -> bool {
    |entry: (Scalar, T)| entry.0.spec_equals(key)
}

/// `prop` holds of every entry of `s`.
pub open spec fn holds_of_all<A>(s: Seq<A>, prop: spec_fn(A) -> bool) -> bool {
    forall|i: int| 0 <= i < s.len() ==> prop(#[trigger] s[i])
}

/// What holds of every entry holds of every entry that a filter keeps.
pub proof fn lemma_filter_keeps<A>(s: Seq<A>, pred: spec_fn(A) -> bool, prop: spec_fn(A) -> bool)
    requires
        holds_of_all(s, prop),
    ensures
        holds_of_all(s.filter(pred), prop),
    decreases s.len(),
{
    reveal(Seq::filter);
    if s.len() > 0 {
        let front = s.drop_last();
        assert forall|i: int| 0 <= i < front.len() implies prop(#[trigger] front[i]) by {
            assert(front[i] == s[i]);
        }
        lemma_filter_keeps(front, pred, prop);
        let kept = s.filter(pred);
        assert forall|i: int| 0 <= i < kept.len() implies prop(#[trigger] kept[i]) by {
            if i < front.filter(pred).len() {
                assert(kept[i] == front.filter(pred)[i]);
            } else {
                assert(kept[i] == s[s.len() - 1]);
            }
        }
    }
}

/// A filter keeps nothing of a list on which its condition never holds.
pub proof fn lemma_filter_none<A>(s: Seq<A>, pred: spec_fn(A) -> bool)
    requires
        forall|i: int| 0 <= i < s.len() ==> !pred(#[trigger] s[i]),
    ensures
        s.filter(pred) =~= Seq::<A>::empty(),
    decreases s.len(),
{
    reveal(Seq::filter);
    if s.len() > 0 {
        let front = s.drop_last();
        assert forall|i: int| 0 <= i < front.len() implies !pred(#[trigger] front[i]) by {
            assert(front[i] == s[i]);
        }
        lemma_filter_none(front, pred);
        assert(s.last() == s[s.len() - 1]);
    }
}

/// Filtering by `outer` first changes nothing for a second filter `inner`
/// whose condition holds only where that of `outer` holds.
pub proof fn lemma_filter_within<A>(s: Seq<A>, outer: spec_fn(A) -> bool, inner: spec_fn(A) -> bool)
    requires
        forall|i: int| 0 <= i < s.len() && inner(#[trigger] s[i]) ==> outer(s[i]),
    ensures
        s.filter(outer).filter(inner) == s.filter(inner),
    decreases s.len(),
{
    reveal(Seq::filter);
    if s.len() > 0 {
        let front = s.drop_last();
        assert forall|i: int| 0 <= i < front.len() && inner(#[trigger] front[i]) implies outer(
            front[i],
        ) by {
            assert(front[i] == s[i]);
        }
        lemma_filter_within(front, outer, inner);
        assert(s.last() == s[s.len() - 1]);
        if outer(s.last()) {
            front.filter(outer).lemma_filter_push(s.last(), inner);
        }
    }
}

/// Filtering by `outer` first leaves nothing for a second filter `inner` whose
/// condition holds nowhere where that of `outer` holds.
pub proof fn lemma_filter_apart<A>(s: Seq<A>, outer: spec_fn(A) -> bool, inner: spec_fn(A) -> bool)
    requires
        forall|i: int| 0 <= i < s.len() && outer(#[trigger] s[i]) ==> !inner(s[i]),
    ensures
        s.filter(outer).filter(inner) =~= Seq::<A>::empty(),
{
    let kept = s.filter(outer);
    assert forall|i: int| 0 <= i < kept.len() implies !inner(#[trigger] kept[i]) by {
        s.lemma_filter_pred(outer, i);
        assert(kept.contains(kept[i]));
        s.lemma_filter_contains_rev(outer, kept[i]);
        let k = choose|k: int| 0 <= k < s.len() && s[k] == kept[i];
        assert(outer(s[k]));
    }
    lemma_filter_none(kept, inner);
}

/// The three parts into which a pivot splits a list hold its entries, each as
/// often as the list does.
pub proof fn lemma_split_keeps_entries<T>(list: Seq<(Scalar, T)>, pivot: Scalar)
    ensures
        list.to_multiset() =~= list.filter(below(pivot)).to_multiset().add(
            list.filter(beside(pivot)).to_multiset(),
        ).add(list.filter(above(pivot)).to_multiset()),
    decreases list.len(),
{
    broadcast use vstd::multiset::group_multiset_axioms;

    reveal(Seq::filter);
    if list.len() == 0 {
        assert(list.to_multiset() =~= vstd::multiset::Multiset::<(Scalar, T)>::empty()) by {
            list.to_multiset_ensures();
        }
    } else {
        let front = list.drop_last();
        let last = list.last();
        lemma_split_keeps_entries(front, pivot);
        assert(list =~= front.push(last));
        vstd::seq_lib::to_multiset_build(front, last);
        vstd::seq_lib::to_multiset_build(front.filter(below(pivot)), last);
        vstd::seq_lib::to_multiset_build(front.filter(beside(pivot)), last);
        vstd::seq_lib::to_multiset_build(front.filter(above(pivot)), last);
    }
}

/// What holds of every entry of a list holds of every entry of the sorted list.
pub proof fn lemma_sorted_keeps<T>(list: Seq<(Scalar, T)>, prop: spec_fn((Scalar, T)) -> bool)
    requires
        holds_of_all(list, prop),
    ensures
        holds_of_all(sorted_by_key(list), prop),
    decreases list.len(),
{
    if list.len() > 1 {
        let pivot = pivot_of(list);
        let middle = list.len() as int / 2;
        lemma_filter_drops(list, below::<T>(pivot), middle);
        lemma_filter_drops(list, above::<T>(pivot), middle);
        let less = list.filter(below(pivot));
        let equal = list.filter(beside(pivot));
        let more = list.filter(above(pivot));
        lemma_filter_keeps(list, below(pivot), prop);
        lemma_filter_keeps(list, beside(pivot), prop);
        lemma_filter_keeps(list, above(pivot), prop);
        lemma_sorted_keeps(less, prop);
        lemma_sorted_keeps(more, prop);
    }
}

/// Sorting is a rearrangement: the sorted list holds the entries of the list,
/// each as often as the list does.
pub proof fn lemma_sorted_is_permutation<T>(list: Seq<(Scalar, T)>)
    ensures
        sorted_by_key(list).to_multiset() =~= list.to_multiset(),
        sorted_by_key(list).len() == list.len(),
    decreases list.len(),
{
    broadcast use vstd::multiset::group_multiset_axioms;

    if list.len() > 1 {
        let pivot = pivot_of(list);
        let middle = list.len() as int / 2;
        lemma_filter_drops(list, below::<T>(pivot), middle);
        lemma_filter_drops(list, above::<T>(pivot), middle);
        let less = list.filter(below(pivot));
        let equal = list.filter(beside(pivot));
        let more = list.filter(above(pivot));
        lemma_sorted_is_permutation(less);
        lemma_sorted_is_permutation(more);
        lemma_split_keeps_entries(list, pivot);
        vstd::seq_lib::lemma_multiset_commutative(sorted_by_key(less), equal);
        vstd::seq_lib::lemma_multiset_commutative(sorted_by_key(less) + equal, sorted_by_key(more));
    }
    sorted_by_key(list).to_multiset_ensures();
    list.to_multiset_ensures();
}

/// Where every key is a number, the sorted list is in ascending order.
pub proof fn lemma_sorted_ascends<T>(list: Seq<(Scalar, T)>)
    requires
        keys_are_numbers(list),
    ensures
        ascending(sorted_by_key(list)),
{
    let no_greater = |first: (Scalar, T), second: (Scalar, T)| first.0.spec_at_most(second.0);
    lemma_sorted_is_in_order(list, no_greater);
    let sorted = sorted_by_key(list);
    assert forall|i: int, j: int| 0 <= i < j < sorted.len() implies (#[trigger] sorted[i]).0.spec_at_most(
        (#[trigger] sorted[j]).0,
    ) by {
        assert(no_greater(sorted[i], sorted[j]));
    }
}

/// Where every key is a number, sorting is stable: the entries with any one
/// key stand in the sorted list in the order in which they stand in the list.
pub proof fn lemma_sorted_is_stable<T>(list: Seq<(Scalar, T)>, key: Scalar)
    requires
        keys_are_numbers(list),
    ensures
        sorted_by_key(list).filter(keyed(key)) == list.filter(keyed(key)),
    decreases list.len(),
{
    if list.len() > 1 {
        let pivot = pivot_of(list);
        let middle = list.len() as int / 2;
        assert(!list[middle].0.spec_is_nan());
        lemma_filter_drops(list, below::<T>(pivot), middle);
        lemma_filter_drops(list, above::<T>(pivot), middle);
        let less = list.filter(below(pivot));
        let equal = list.filter(beside(pivot));
        let more = list.filter(above(pivot));
        let number = |entry: (Scalar, T)| !entry.0.spec_is_nan();
        assert(holds_of_all(list, number));
        lemma_filter_keeps(list, below(pivot), number);
        lemma_filter_keeps(list, above(pivot), number);
        assert(keys_are_numbers(less));
        assert(keys_are_numbers(more));
        lemma_sorted_is_stable(less, key);
        lemma_sorted_is_stable(more, key);
        let low = sorted_by_key(less);
        let high = sorted_by_key(more);
        Seq::filter_distributes_over_add(low, equal, keyed(key));
        Seq::filter_distributes_over_add(low + equal, high, keyed(key));
        let wanted = keyed::<T>(key);
        if key.spec_less_than(pivot) {
            lemma_filter_within(list, below(pivot), wanted);
            lemma_filter_apart(list, beside(pivot), wanted);
            lemma_filter_apart(list, above(pivot), wanted);
        } else if key.spec_greater_than(pivot) {
            lemma_filter_apart(list, below(pivot), wanted);
            lemma_filter_apart(list, beside(pivot), wanted);
            lemma_filter_within(list, above(pivot), wanted);
        } else {
            lemma_filter_apart(list, below(pivot), wanted);
            assert forall|i: int| 0 <= i < list.len() && wanted(#[trigger] list[i]) implies beside::<
                T,
            >(pivot)(list[i]) by {}
            lemma_filter_within(list, beside(pivot), wanted);
            lemma_filter_apart(list, above(pivot), wanted);
        }
        assert(sorted_by_key(list).filter(wanted) =~= list.filter(wanted));
    }
}

/// `tie` holds between every entry of `list` and every later entry with an
/// equal key.
pub open spec fn ties_hold<T>(
    list: Seq<(Scalar, T)>,
    tie: spec_fn((Scalar, T), (Scalar, T)) -> bool,
) -> bool {
    forall|i: int, j: int|
        0 <= i < j < list.len() && (#[trigger] list[i]).0.spec_equals((#[trigger] list[j]).0) ==> tie(
            list[i],
            list[j],
        )
}

/// A filter keeps the order of the entries, and with it what holds between
/// each entry and the later entries with an equal key.
pub proof fn lemma_filter_keeps_ties<T>(
    list: Seq<(Scalar, T)>,
    pred: spec_fn((Scalar, T)) -> bool,
    tie: spec_fn((Scalar, T), (Scalar, T)) -> bool,
)
    requires
        ties_hold(list, tie),
    ensures
        ties_hold(list.filter(pred), tie),
    decreases list.len(),
{
    reveal(Seq::filter);
    if list.len() > 0 {
        let front = list.drop_last();
        let last = list.last();
        assert(ties_hold(front, tie)) by {
            assert forall|i: int, j: int|
                0 <= i < j < front.len() && (#[trigger] front[i]).0.spec_equals(
                    (#[trigger] front[j]).0,
                ) implies tie(front[i], front[j]) by {
                assert(front[i] == list[i] && front[j] == list[j]);
            }
        }
        lemma_filter_keeps_ties(front, pred, tie);
        let kept = list.filter(pred);
        let before = front.filter(pred);
        assert forall|i: int, j: int|
            0 <= i < j < kept.len() && (#[trigger] kept[i]).0.spec_equals(
                (#[trigger] kept[j]).0,
            ) implies tie(kept[i], kept[j]) by {
            if j < before.len() {
                assert(kept[i] == before[i] && kept[j] == before[j]);
            } else {
                assert(kept[j] == last);
                assert(kept[i] == before[i]);
                assert(before.contains(before[i]));
                front.lemma_filter_contains_rev(pred, before[i]);
                let k = choose|k: int| 0 <= k < front.len() && front[k] == before[i];
                assert(list[k] == kept[i]);
                assert(list[list.len() - 1] == last);
            }
        }
    }
}

/// `rel` holds between every entry of `list` and every later entry.
pub open spec fn in_order<T>(
    list: Seq<(Scalar, T)>,
    rel: spec_fn((Scalar, T), (Scalar, T)) -> bool,
) -> bool {
    forall|i: int, j: int|
        0 <= i < j < list.len() ==> rel(#[trigger] list[i], #[trigger] list[j])
}

/// `rel` holds between any two entries of `list` of which the first has the
/// smaller key.
pub open spec fn follows_keys<T>(
    list: Seq<(Scalar, T)>,
    rel: spec_fn((Scalar, T), (Scalar, T)) -> bool,
) -> bool {
    forall|i: int, j: int|
        0 <= i < list.len() && 0 <= j < list.len() && (#[trigger] list[i]).0.spec_less_than(
            (#[trigger] list[j]).0,
        ) ==> rel(list[i], list[j])
}

/// What sorting achieves, where every key is a number. Take a relation that
/// holds between entries whenever the first has the smaller key, and that
/// holds in the list between each entry and the later entries with an equal
/// key. In the sorted list it holds between each entry and every later one.
pub proof fn lemma_sorted_is_in_order<T>(
    list: Seq<(Scalar, T)>,
    rel: spec_fn((Scalar, T), (Scalar, T)) -> bool,
)
    requires
        keys_are_numbers(list),
        ties_hold(list, rel),
        follows_keys(list, rel),
    ensures
        in_order(sorted_by_key(list), rel),
    decreases list.len(),
{
    if list.len() > 1 {
        let pivot = pivot_of(list);
        let middle = list.len() as int / 2;
        assert(!list[middle].0.spec_is_nan());
        lemma_filter_drops(list, below::<T>(pivot), middle);
        lemma_filter_drops(list, above::<T>(pivot), middle);
        let less = list.filter(below(pivot));
        let equal = list.filter(beside(pivot));
        let more = list.filter(above(pivot));
        // every entry of the sorted list is an entry of the list, a number by
        // its key, and stands in the part that the pivot assigns to it
        let member = |entry: (Scalar, T)| list.contains(entry) && !entry.0.spec_is_nan();
        assert(holds_of_all(list, member));
        lemma_filter_keeps(list, below(pivot), member);
        lemma_filter_keeps(list, beside(pivot), member);
        lemma_filter_keeps(list, above(pivot), member);
        assert(keys_are_numbers(less));
        assert(keys_are_numbers(more));
        lemma_filter_keeps_ties(list, below(pivot), rel);
        lemma_filter_keeps_ties(list, beside(pivot), rel);
        lemma_filter_keeps_ties(list, above(pivot), rel);
        assert(follows_keys(less, rel) && follows_keys(more, rel)) by {
            assert forall|i: int, j: int|
                0 <= i < less.len() && 0 <= j < less.len() && (#[trigger] less[i]).0.spec_less_than(
                    (#[trigger] less[j]).0,
                ) implies rel(less[i], less[j]) by {
                lemma_member_follows(list, rel, less[i], less[j]);
            }
            assert forall|i: int, j: int|
                0 <= i < more.len() && 0 <= j < more.len() && (#[trigger] more[i]).0.spec_less_than(
                    (#[trigger] more[j]).0,
                ) implies rel(more[i], more[j]) by {
                lemma_member_follows(list, rel, more[i], more[j]);
            }
        }
        lemma_sorted_is_in_order(less, rel);
        lemma_sorted_is_in_order(more, rel);
        let in_low = |entry: (Scalar, T)| member(entry) && below::<T>(pivot)(entry);
        let in_high = |entry: (Scalar, T)| member(entry) && above::<T>(pivot)(entry);
        assert(holds_of_all(less, in_low)) by {
            assert forall|i: int| 0 <= i < less.len() implies in_low(#[trigger] less[i]) by {
                list.lemma_filter_pred(below(pivot), i);
            }
        }
        assert(holds_of_all(more, in_high)) by {
            assert forall|i: int| 0 <= i < more.len() implies in_high(#[trigger] more[i]) by {
                list.lemma_filter_pred(above(pivot), i);
            }
        }
        assert forall|i: int| 0 <= i < equal.len() implies beside::<T>(pivot)(
            #[trigger] equal[i],
        ) by {
            list.lemma_filter_pred(beside(pivot), i);
        }
        lemma_sorted_keeps(less, in_low);
        lemma_sorted_keeps(more, in_high);
        let low = sorted_by_key(less);
        let high = sorted_by_key(more);
        let all = sorted_by_key(list);
        assert(all == low + equal + high);
        assert forall|i: int, j: int| 0 <= i < j < all.len() implies rel(
            #[trigger] all[i],
            #[trigger] all[j],
        ) by {
            let a = all[i];
            let b = all[j];
            // where the two stand in different parts, the first has the
            // smaller key
            if i < low.len() {
                assert(a == low[i]);
                assert(in_low(low[i]));
            } else if i < low.len() + equal.len() {
                assert(a == equal[i - low.len()]);
                assert(member(equal[i - low.len()]));
            } else {
                assert(a == high[i - low.len() - equal.len()]);
                assert(in_high(high[i - low.len() - equal.len()]));
            }
            if j < low.len() {
                assert(b == low[j]);
                assert(in_low(low[j]));
            } else if j < low.len() + equal.len() {
                assert(b == equal[j - low.len()]);
                assert(member(equal[j - low.len()]));
            } else {
                assert(b == high[j - low.len() - equal.len()]);
                assert(in_high(high[j - low.len() - equal.len()]));
            }
            if a.0.spec_less_than(b.0) {
                lemma_member_follows(list, rel, a, b);
            }
        }
    }
}

/// A relation that follows the keys of a list holds between any two of its
/// entries of which the first has the smaller key.
proof fn lemma_member_follows<T>(
    list: Seq<(Scalar, T)>,
    rel: spec_fn((Scalar, T), (Scalar, T)) -> bool,
    a: (Scalar, T),
    b: (Scalar, T),
)
    requires
        follows_keys(list, rel),
        list.contains(a),
        list.contains(b),
        a.0.spec_less_than(b.0),
    ensures
        rel(a, b),
{
    let i = choose|i: int| 0 <= i < list.len() && list[i] == a;
    let j = choose|j: int| 0 <= j < list.len() && list[j] == b;
    assert(list[i].0.spec_less_than(list[j].0));
}

/// Where every key is a number, sorting is stable: what holds between each
/// entry and the later entries with an equal key holds in the sorted list too.
pub proof fn lemma_sorted_keeps_ties<T>(
    list: Seq<(Scalar, T)>,
    tie: spec_fn((Scalar, T), (Scalar, T)) -> bool,
)
    requires
        keys_are_numbers(list),
        ties_hold(list, tie),
    ensures
        ties_hold(sorted_by_key(list), tie),
{
    let tied = |first: (Scalar, T), second: (Scalar, T)|
        first.0.spec_equals(second.0) ==> tie(first, second);
    assert(ties_hold(list, tied));
    lemma_sorted_is_in_order(list, tied);
    let sorted = sorted_by_key(list);
    assert forall|i: int, j: int|
        0 <= i < j < sorted.len() && (#[trigger] sorted[i]).0.spec_equals(
            (#[trigger] sorted[j]).0,
        ) implies tie(sorted[i], sorted[j]) by {
        assert(tied(sorted[i], sorted[j]));
    }
}

/// Sorts the entries by their keys in ascending order. Entries with equal keys
/// keep their order.
pub fn quicksort<T>(list: Vec<(Scalar, T)>) -> (sorted: Vec<(Scalar, T)>)
    ensures
        sorted@ == sorted_by_key(list@),
        sorted@.to_multiset() == list@.to_multiset(),
        sorted@.len() == list@.len(),
        keys_are_numbers(list@) ==> ascending(sorted@),
        keys_are_numbers(list@) ==> forall|key: Scalar|
            sorted@.filter(#[trigger] keyed(key)) == list@.filter(keyed(key)),
    decreases list.len(),
{
    proof {
        lemma_sorted_is_permutation(list@);
        if keys_are_numbers(list@) {
            lemma_sorted_ascends(list@);
            assert forall|key: Scalar|
                sorted_by_key(list@).filter(#[trigger] keyed(key)) == list@.filter(
                    keyed(key),
                ) by {
                lemma_sorted_is_stable(list@, key);
            }
        }
    }
    if list.len() <= 1 {
        return list;
    }
    let ghost entries = list@;
    let pivot = list[list.len() / 2].0;
    let mut less: Vec<(Scalar, T)> = Vec::new();
    let mut equal: Vec<(Scalar, T)> = Vec::new();
    let mut more: Vec<(Scalar, T)> = Vec::new();
    for entry in it: list
        invariant
            it.seq() == entries,
            less@ == entries.take(it.index() as int).filter(below(pivot)),
            equal@ == entries.take(it.index() as int).filter(beside(pivot)),
            more@ == entries.take(it.index() as int).filter(above(pivot)),
    {
        proof {
            let done = entries.take(it.index() as int);
            assert(entries.take(it.index() + 1) =~= done.push(entry));
            done.lemma_filter_push(entry, below(pivot));
            done.lemma_filter_push(entry, beside(pivot));
            done.lemma_filter_push(entry, above(pivot));
        }
        if entry.0.less_than(pivot) {
            less.push(entry);
        } else if entry.0.greater_than(pivot) {
            more.push(entry);
        } else {
            equal.push(entry);
        }
    }
    proof {
        assert(entries.take(entries.len() as int) =~= entries);
        let middle = entries.len() as int / 2;
        lemma_filter_drops(entries, below::<T>(pivot), middle);
        lemma_filter_drops(entries, above::<T>(pivot), middle);
    }
    let mut sorted = quicksort(less);
    sorted.append(&mut equal);
    let mut rest = quicksort(more);
    sorted.append(&mut rest);
    sorted
}

} // verus!
