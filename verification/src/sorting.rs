//! A stable sort by name.

use crate::text::at_most;
use vstd::prelude::*;

verus! {

/// Something that is listed under a name.
pub trait Named: Sized {
    /// The name it is listed under.
    spec fn name_of(self) -> Seq<char>;

    fn name_text(&self) -> (name: &str)
        ensures
            name@ == self.name_of(),
    ;
}

impl Named for String {
    open spec fn name_of(self) -> Seq<char> {
        self@
    }

    fn name_text(&self) -> (name: &str) {
        self.as_str()
    }
}

/// Whether the names ascend.
pub open spec fn sorted<T: Named>(items: Seq<T>) -> bool {
    forall|i: int, j: int|
        0 <= i <= j < items.len() ==> crate::text::text_le(
            (#[trigger] items[i]).name_of(),
            (#[trigger] items[j]).name_of(),
        )
}

/// The test for being listed under `name`.
pub open spec fn is_listed_under<T: Named>(name: Seq<char>) -> spec_fn(T) -> bool {
    |item: T| item.name_of() == name
}

/// Those items that are listed under `name`, in their order.
pub open spec fn listed_under<T: Named>(items: Seq<T>, name: Seq<char>) -> Seq<T> {
    items.filter(is_listed_under(name))
}

/// Whether `after` is `before` sorted by name, items of one name left in their order.
pub open spec fn stably_sorted<T: Named>(before: Seq<T>, after: Seq<T>) -> bool {
    &&& sorted(after)
    &&& after.to_multiset() == before.to_multiset()
    &&& forall|name: Seq<char>| #[trigger]
        listed_under(after, name) == listed_under(before, name)
}

proof fn listed_under_push<T: Named>(items: Seq<T>, item: T, name: Seq<char>)
    ensures
        listed_under(items.push(item), name) == if item.name_of() == name {
            listed_under(items, name).push(item)
        } else {
            listed_under(items, name)
        },
{
    reveal(Seq::filter);
    assert(items.push(item).drop_last() =~= items);
}

proof fn listed_under_insert<T: Named>(items: Seq<T>, at: int, item: T, name: Seq<char>)
    requires
        0 <= at <= items.len(),
        forall|k: int| at <= k < items.len() ==> (#[trigger] items[k]).name_of() != item.name_of(),
    ensures
        listed_under(items.insert(at, item), name) == if item.name_of() == name {
            listed_under(items, name).push(item)
        } else {
            listed_under(items, name)
        },
{
    let pred = is_listed_under::<T>(name);
    let head = items.take(at);
    let tail = items.skip(at);
    assert(items =~= head + tail);
    assert(items.insert(at, item) =~= head.push(item) + tail);
    Seq::filter_distributes_over_add(head, tail, pred);
    Seq::filter_distributes_over_add(head.push(item), tail, pred);
    listed_under_push(head, item, name);
    if item.name_of() == name {
        assert forall|k: int| 0 <= k < tail.len() implies !pred(#[trigger] tail[k]) by {
            assert(tail[k] == items[at + k]);
        }
        tail.lemma_all_neg_filter_empty(pred);
        assert(tail.filter(pred) =~= Seq::empty());
        assert(listed_under(items, name) =~= listed_under(head, name));
        assert(listed_under(items.insert(at, item), name) =~= listed_under(head, name).push(item));
    }
}

proof fn listed_under_first<T: Named>(items: Seq<T>, name: Seq<char>)
    requires
        items.len() > 0,
    ensures
        listed_under(items, name) == if items[0].name_of() == name {
            seq![items[0]] + listed_under(items.drop_first(), name)
        } else {
            listed_under(items.drop_first(), name)
        },
{
    let pred = is_listed_under::<T>(name);
    let first = seq![items[0]];
    assert(items =~= first + items.drop_first());
    Seq::filter_distributes_over_add(first, items.drop_first(), pred);
    assert(first =~= Seq::<T>::empty().push(items[0]));
    listed_under_push(Seq::<T>::empty(), items[0], name);
    reveal(Seq::filter);
    assert(listed_under(Seq::<T>::empty(), name) =~= Seq::<T>::empty());
    if items[0].name_of() != name {
        assert(listed_under(items, name) =~= listed_under(items.drop_first(), name));
    }
}

proof fn first_name_is_least<T: Named>(items: Seq<T>, other: Seq<T>)
    requires
        sorted(items),
        other.len() > 0,
        forall|name: Seq<char>| #[trigger]
            listed_under(items, name) == listed_under(other, name),
    ensures
        items.len() > 0,
        crate::text::text_le(items[0].name_of(), other[0].name_of()),
{
    let name = other[0].name_of();
    listed_under_first(other, name);
    assert(listed_under(items, name) == listed_under(other, name));
    let found = listed_under(items, name)[0];
    assert(listed_under(items, name).contains(found));
    items.lemma_filter_contains_rev(is_listed_under::<T>(name), found);
    let k = items.index_of(found);
    items.lemma_filter_pred(is_listed_under::<T>(name), 0);
    assert(items[k].name_of() == name);
}

proof fn sorted_listings_agree<T: Named>(a: Seq<T>, b: Seq<T>)
    requires
        sorted(a),
        sorted(b),
        forall|name: Seq<char>| #[trigger] listed_under(a, name) == listed_under(b, name),
    ensures
        a == b,
    decreases a.len(),
{
    if a.len() == 0 && b.len() == 0 {
        assert(a =~= b);
    } else {
        if a.len() > 0 {
            first_name_is_least(b, a);
        }
        if b.len() > 0 {
            first_name_is_least(a, b);
        }
        let name = a[0].name_of();
        crate::text::text_le_antisymmetric(name, b[0].name_of());
        listed_under_first(a, name);
        listed_under_first(b, name);
        assert(listed_under(a, name)[0] == a[0]);
        assert(listed_under(b, name)[0] == b[0]);
        let rest_a = a.drop_first();
        let rest_b = b.drop_first();
        assert forall|other: Seq<char>| #[trigger]
            listed_under(rest_a, other) == listed_under(rest_b, other) by {
            listed_under_first(a, other);
            listed_under_first(b, other);
            assert(listed_under(a, other) == listed_under(b, other));
            if other == name {
                assert(listed_under(rest_a, other) =~= listed_under(a, other).drop_first());
                assert(listed_under(rest_b, other) =~= listed_under(b, other).drop_first());
            }
        }
        assert(sorted(rest_a)) by {
            assert(forall|i: int| 0 <= i < rest_a.len() ==> #[trigger] rest_a[i] == a[i + 1]);
        }
        assert(sorted(rest_b)) by {
            assert(forall|i: int| 0 <= i < rest_b.len() ==> #[trigger] rest_b[i] == b[i + 1]);
        }
        sorted_listings_agree(rest_a, rest_b);
        assert(a =~= seq![a[0]] + rest_a);
        assert(b =~= seq![b[0]] + rest_b);
    }
}

/// Sorting stably by name has one outcome.
pub proof fn stable_sort_is_determined<T: Named>(before: Seq<T>, a: Seq<T>, b: Seq<T>)
    requires
        stably_sorted(before, a),
        stably_sorted(before, b),
    ensures
        a == b,
{
    assert forall|name: Seq<char>| #[trigger] listed_under(a, name) == listed_under(b, name) by {
        assert(listed_under(before, name) == listed_under(a, name));
    }
    sorted_listings_agree(a, b);
}

/// Whether `places` says where each item of `after` stood in `before`: every place once, the
/// names in ascending order, and the places of one name in ascending order.
pub open spec fn is_reordering<T: Named>(before: Seq<T>, after: Seq<T>, places: Seq<int>) -> bool {
    &&& places.len() == after.len()
    &&& after.len() == before.len()
    &&& forall|i: int|
        0 <= i < places.len() ==> 0 <= #[trigger] places[i] < before.len() && after[i]
            == before[places[i]]
    &&& forall|i: int, j: int|
        0 <= i < j < places.len() ==> #[trigger] places[i] != #[trigger] places[j] && (
        after[i].name_of() == after[j].name_of() ==> places[i] < places[j])
}

proof fn reordering_grows<T: Named>(
    before: Seq<T>,
    after: Seq<T>,
    places: Seq<int>,
    item: T,
    at: int,
)
    requires
        is_reordering(before, after, places),
        0 <= at <= after.len(),
        forall|k: int| at <= k < after.len() ==> (#[trigger] after[k]).name_of() != item.name_of(),
    ensures
        is_reordering(
            before.push(item),
            after.insert(at, item),
            places.insert(at, before.len() as int),
        ),
{
    let grown = places.insert(at, before.len() as int);
    let all = after.insert(at, item);
    assert forall|i: int| 0 <= i < grown.len() implies 0 <= #[trigger] grown[i] < before.push(
        item,
    ).len() && all[i] == before.push(item)[grown[i]] by {
        if i < at {
            assert(grown[i] == places[i]);
        } else if i > at {
            assert(grown[i] == places[i - 1]);
        }
    }
    assert forall|i: int, j: int| 0 <= i < j < grown.len() implies #[trigger] grown[i]
        != #[trigger] grown[j] && (all[i].name_of() == all[j].name_of() ==> grown[i] < grown[j]) by {
        let a = if i < at {
            i
        } else {
            i - 1
        };
        let b = if j < at {
            j
        } else {
            j - 1
        };
        if i != at {
            assert(grown[i] == places[a] && all[i] == after[a]);
        }
        if j != at {
            assert(grown[j] == places[b] && all[j] == after[b]);
        }
    }
}

/// Sorts by name; items of one name keep their order.
pub fn sort_by_name<T: Named>(items: Vec<T>) -> (after: Vec<T>)
    ensures
        stably_sorted(items@, after@),
        exists|places: Seq<int>| is_reordering(items@, after@, places),
{
    let ghost before = items@;
    let ghost mut places: Seq<int> = Seq::empty();
    let mut out: Vec<T> = Vec::new();
    assert(before.take(0) =~= out@);
    for item in it: items
        invariant
            it.seq() == before,
            stably_sorted(before.take(it.index() as int), out@),
            is_reordering(before.take(it.index() as int), out@, places),
    {
        let ghost taken = before.take(it.index() as int);
        let ghost done = out@;
        let ghost stood = places;
        let mut at: usize = out.len();
        while at > 0 && !at_most(out[at - 1].name_text(), item.name_text())
            invariant
                at <= out@.len(),
                out@ == done,
                forall|k: int|
                    at <= k < out@.len() ==> !crate::text::text_le(
                        (#[trigger] out@[k]).name_of(),
                        item.name_of(),
                    ),
            decreases at,
        {
            at = at - 1;
        }
        proof {
            crate::text::text_le_reflexive(item.name_of());
            assert forall|k: int| 0 <= k < at implies crate::text::text_le(
                (#[trigger] done[k]).name_of(),
                item.name_of(),
            ) by {
                crate::text::text_le_transitive(
                    done[k].name_of(),
                    done[at - 1].name_of(),
                    item.name_of(),
                );
            }
            assert forall|k: int| at <= k < done.len() implies crate::text::text_le(
                item.name_of(),
                (#[trigger] done[k]).name_of(),
            ) && done[k].name_of() != item.name_of() by {
                crate::text::text_le_total(item.name_of(), done[k].name_of());
            }
            assert(before.take(it.index() + 1) =~= taken.push(item));
            vstd::seq_lib::to_multiset_insert(done, at as int, item);
            vstd::seq_lib::to_multiset_build(taken, item);
            assert forall|name: Seq<char>| #[trigger]
                listed_under(done.insert(at as int, item), name) == listed_under(
                    taken.push(item),
                    name,
                ) by {
                listed_under_insert(done, at as int, item, name);
                listed_under_push(taken, item, name);
                assert(listed_under(done, name) == listed_under(taken, name));
            }
        }
        out.insert(at, item);
        proof {
            assert(out@ == done.insert(at as int, item));
            places = stood.insert(at as int, it.index() as int);
            reordering_grows(taken, done, stood, item, at as int);
            assert forall|i: int, j: int| 0 <= i <= j < out@.len() implies crate::text::text_le(
                (#[trigger] out@[i]).name_of(),
                (#[trigger] out@[j]).name_of(),
            ) by {
                let a = if i < at {
                    i
                } else {
                    i - 1
                };
                let b = if j < at {
                    j
                } else {
                    j - 1
                };
                if i == at {
                    assert(out@[i] == item);
                } else {
                    assert(out@[i] == done[a]);
                }
                if j == at {
                    assert(out@[j] == item);
                } else {
                    assert(out@[j] == done[b]);
                }
            }
        }
    }
    assert(before.take(before.len() as int) =~= before);
    assert(is_reordering(before, out@, places));
    out
}

} // verus!
