//! Stable ordering of records by a text key.

use vstd::prelude::*;

use crate::text::{text_less, text_precedes};

verus! {

/// A record ordered by a text key.
pub trait SortKey {
    /// The key the record is ordered by.
    spec fn sort_key(&self) -> Seq<char>;

    /// The key the record is ordered by.
    fn key_text(&self) -> (key: &str)
        ensures
            key@ == self.sort_key();
}

/// `sorted` with `item` placed after every record whose key is not greater.
pub open spec fn insort<T: SortKey>(item: T, sorted: Seq<T>) -> Seq<T>
    decreases sorted.len(),
{
    if sorted.len() == 0 {
        seq![item]
    } else if text_less(item.sort_key(), sorted.last().sort_key()) {
        insort(item, sorted.drop_last()).push(sorted.last())
    } else {
        sorted.push(item)
    }
}

/// The records in key order; records with equal keys keep their order.
pub open spec fn sorted_by_key<T: SortKey>(items: Seq<T>) -> Seq<T>
    decreases items.len(),
{
    if items.len() == 0 {
        items
    } else {
        insort(items.last(), sorted_by_key(items.drop_last()))
    }
}

/// `sorted` with `item` placed after every value whose key is not greater.
pub open spec fn insort_by<A>(item: A, sorted: Seq<A>, key: spec_fn(A) -> Seq<char>) -> Seq<A>
    decreases sorted.len(),
{
    if sorted.len() == 0 {
        seq![item]
    } else if text_less(key(item), key(sorted.last())) {
        insort_by(item, sorted.drop_last(), key).push(sorted.last())
    } else {
        sorted.push(item)
    }
}

/// The values in the order of their keys; values with equal keys keep their order.
pub open spec fn sorted_by<A>(items: Seq<A>, key: spec_fn(A) -> Seq<char>) -> Seq<A>
    decreases items.len(),
{
    if items.len() == 0 {
        items
    } else {
        insort_by(items.last(), sorted_by(items.drop_last(), key), key)
    }
}

proof fn lemma_insort_map<T: SortKey, A>(item: T, sorted: Seq<T>, f: spec_fn(T) -> A, key: spec_fn(A) -> Seq<char>)
    requires
        forall|t: T| #[trigger] key(f(t)) == t.sort_key(),
    ensures
        insort(item, sorted).map_values(f) == insort_by(f(item), sorted.map_values(f), key),
    decreases sorted.len(),
{
    let mapped = sorted.map_values(f);
    assert(key(f(item)) == item.sort_key());
    if sorted.len() > 0 {
        assert(mapped.last() == f(sorted.last()));
        assert(key(f(sorted.last())) == sorted.last().sort_key());
        assert(mapped.drop_last() =~= sorted.drop_last().map_values(f));
        if text_less(item.sort_key(), sorted.last().sort_key()) {
            lemma_insort_map(item, sorted.drop_last(), f, key);
            assert(insort(item, sorted).map_values(f) =~= insort_by(f(item), sorted.drop_last().map_values(f), key).push(f(sorted.last())));
        } else {
            assert(sorted.push(item).map_values(f) =~= mapped.push(f(item)));
        }
    } else {
        assert(seq![item].map_values(f) =~= seq![f(item)]);
    }
}

/// Sorting records by their key and then viewing each record gives the views
/// sorted by the same key.
pub proof fn lemma_sorted_by_key_map<T: SortKey, A>(items: Seq<T>, f: spec_fn(T) -> A, key: spec_fn(A) -> Seq<char>)
    requires
        forall|t: T| #[trigger] key(f(t)) == t.sort_key(),
    ensures
        sorted_by_key(items).map_values(f) == sorted_by(items.map_values(f), key),
    decreases items.len(),
{
    if items.len() > 0 {
        let rest = items.drop_last();
        lemma_sorted_by_key_map(rest, f, key);
        lemma_insort_map(items.last(), sorted_by_key(rest), f, key);
        assert(items.map_values(f).drop_last() =~= rest.map_values(f));
        assert(items.map_values(f).last() == f(items.last()));
    } else {
        assert(items.map_values(f) =~= Seq::<A>::empty());
    }
}

proof fn lemma_insort_elements<T: SortKey>(item: T, sorted: Seq<T>)
    ensures
        insort(item, sorted).len() == sorted.len() + 1,
        forall|j: int| 0 <= j < insort(item, sorted).len() ==> #[trigger] insort(item, sorted)[j] == item
            || exists|i: int| 0 <= i < sorted.len() && insort(item, sorted)[j] == sorted[i],
    decreases sorted.len(),
{
    if sorted.len() > 0 && text_less(item.sort_key(), sorted.last().sort_key()) {
        let rest = sorted.drop_last();
        lemma_insort_elements(item, rest);
        let result = insort(item, sorted);
        assert forall|j: int| 0 <= j < result.len() implies #[trigger] result[j] == item
            || exists|i: int| 0 <= i < sorted.len() && result[j] == sorted[i] by {
            if j == result.len() - 1 {
                assert(result[j] == sorted[sorted.len() - 1]);
            } else {
                assert(result[j] == insort(item, rest)[j]);
                if result[j] != item {
                    let i = choose|i: int| 0 <= i < rest.len() && insort(item, rest)[j] == rest[i];
                    assert(rest[i] == sorted[i]);
                }
            }
        }
    } else if sorted.len() > 0 {
        let result = insort(item, sorted);
        assert forall|j: int| 0 <= j < result.len() implies #[trigger] result[j] == item
            || exists|i: int| 0 <= i < sorted.len() && result[j] == sorted[i] by {
            if j < sorted.len() {
                assert(result[j] == sorted[j]);
            }
        }
    }
}

/// Sorting keeps exactly the records it was given: each sorted record is
/// one of them, and there are as many.
pub proof fn lemma_sorted_elements<T: SortKey>(items: Seq<T>)
    ensures
        sorted_by_key(items).len() == items.len(),
        forall|j: int| 0 <= j < items.len() ==> exists|i: int| 0 <= i < items.len() && #[trigger] sorted_by_key(items)[j] == items[i],
    decreases items.len(),
{
    if items.len() > 0 {
        let rest = items.drop_last();
        lemma_sorted_elements(rest);
        lemma_insort_elements(items.last(), sorted_by_key(rest));
        let result = sorted_by_key(items);
        assert forall|j: int| 0 <= j < items.len() implies exists|i: int| 0 <= i < items.len() && #[trigger] result[j] == items[i] by {
            if result[j] == items.last() {
                assert(result[j] == items[items.len() - 1]);
            } else {
                let k = choose|k: int| 0 <= k < sorted_by_key(rest).len() && result[j] == sorted_by_key(rest)[k];
                let i = choose|i: int| 0 <= i < rest.len() && sorted_by_key(rest)[k] == rest[i];
                assert(rest[i] == items[i]);
            }
        }
    }
}

proof fn lemma_insort_at<T: SortKey>(item: T, sorted: Seq<T>, position: int)
    requires
        0 <= position <= sorted.len(),
        forall|j: int| position <= j < sorted.len() ==> text_less(item.sort_key(), #[trigger] sorted[j].sort_key()),
        position == 0 || !text_less(item.sort_key(), sorted[position - 1].sort_key()),
    ensures
        insort(item, sorted) == sorted.subrange(0, position).push(item) + sorted.subrange(position, sorted.len() as int),
    decreases sorted.len(),
{
    if sorted.len() == 0 {
        assert(sorted.subrange(0, 0).push(item) + sorted.subrange(0, 0) =~= seq![item]);
    } else if position == sorted.len() {
        assert(sorted.subrange(0, position) =~= sorted);
        assert(sorted.subrange(0, position).push(item) + sorted.subrange(position, sorted.len() as int) =~= sorted.push(item));
    } else {
        let rest = sorted.drop_last();
        assert forall|j: int| position <= j < rest.len() implies text_less(item.sort_key(), #[trigger] rest[j].sort_key()) by {
            assert(rest[j] == sorted[j]);
        }
        if position > 0 {
            assert(rest[position - 1] == sorted[position - 1]);
        }
        lemma_insort_at(item, rest, position);
        assert(rest.subrange(0, position).push(item) + rest.subrange(position, rest.len() as int) + seq![sorted.last()]
            =~= sorted.subrange(0, position).push(item) + sorted.subrange(position, sorted.len() as int));
    }
}

/// Sorts records by key, keeping the order of records with equal keys.
pub fn sort_by_key<T: SortKey>(items: Vec<T>) -> (sorted: Vec<T>)
    ensures
        sorted@ == sorted_by_key(items@),
{
    let ghost all = items@;
    let mut remaining = items;
    let mut sorted: Vec<T> = Vec::new();
    let mut taken: usize = 0;
    let length = remaining.len();
    assert(all.subrange(0, 0) =~= Seq::<T>::empty());
    while remaining.len() > 0
        invariant
            length == all.len(),
            taken + remaining@.len() == length,
            remaining@ == all.subrange(taken as int, length as int),
            sorted@ == sorted_by_key(all.subrange(0, taken as int)),
        decreases remaining@.len(),
    {
        let item = remaining.remove(0);
        let mut position: usize = sorted.len();
        while position > 0 && text_precedes(item.key_text(), sorted[position - 1].key_text())
            invariant
                position <= sorted@.len(),
                forall|j: int| position <= j < sorted@.len() ==> text_less(item.sort_key(), #[trigger] sorted@[j].sort_key()),
            decreases position,
        {
            position -= 1;
        }
        proof {
            lemma_insort_at(item, sorted@, position as int);
            let next = all.subrange(0, taken + 1);
            assert(next.drop_last() =~= all.subrange(0, taken as int));
            assert(next.last() == item);
        }
        sorted.insert(position, item);
        taken += 1;
        proof {
            assert(remaining@ =~= all.subrange(taken as int, length as int));
        }
    }
    assert(all.subrange(0, length as int) =~= all);
    sorted
}

} // verus!
