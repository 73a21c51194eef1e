//! Facts about sequences and about the deep view of a vector, as the loops
//! of this crate need them.

use vstd::prelude::*;

verus! {

/// The deep views of the items of a sequence.
pub open spec fn deep<T: DeepView>(items: Seq<T>) -> Seq<T::V> {
    Seq::new(items.len(), |i: int| items[i].deep_view())
}

/// One more item adds its deep view at the end.
pub proof fn lemma_deep_push<T: DeepView>(items: Seq<T>, item: T)
    ensures
        deep(items.push(item)) == deep(items).push(item.deep_view()),
{
    assert(deep(items.push(item)) =~= deep(items).push(item.deep_view()));
}

/// The deep view of a prefix is the prefix of the deep view.
pub proof fn lemma_deep_take<T: DeepView>(items: Seq<T>, n: int)
    requires
        0 <= n <= items.len(),
    ensures
        deep(items.take(n)) == deep(items).take(n),
        deep(items).take(items.len() as int) == deep(items),
{
    assert(deep(items.take(n)) =~= deep(items).take(n));
    assert(deep(items).take(items.len() as int) =~= deep(items));
}

/// The prefix that is one longer ends in the next item.
pub proof fn lemma_take_next<A>(items: Seq<A>, n: int)
    requires
        0 <= n < items.len(),
    ensures
        items.take(n + 1) == items.take(n).push(items[n]),
{
    assert(items.take(n + 1) =~= items.take(n).push(items[n]));
}

/// An item put in at a place puts its deep view in at that place.
pub proof fn lemma_deep_insert<T: DeepView>(items: Seq<T>, at: int, item: T)
    requires
        0 <= at <= items.len(),
    ensures
        deep(items.insert(at, item)) == deep(items).insert(at, item.deep_view()),
{
    assert(deep(items.insert(at, item)) =~= deep(items).insert(at, item.deep_view()));
}

/// What `each` makes of the items, one result after the other.
pub open spec fn flat_map<A, B>(items: Seq<A>, each: spec_fn(A) -> Seq<B>) -> Seq<B> {
    items.map_values(each).flatten()
}

/// Of no items nothing is made.
pub proof fn lemma_flat_map_none<A, B>(items: Seq<A>, each: spec_fn(A) -> Seq<B>)
    ensures
        flat_map(items.take(0), each) == Seq::<B>::empty(),
        flat_map(items.take(items.len() as int), each) == flat_map(items, each),
{
    assert(items.take(0).map_values(each) =~= Seq::empty());
    assert(items.take(items.len() as int) =~= items);
}

/// What is made of one more item comes behind what was made before.
pub proof fn lemma_flat_map_next<A, B>(items: Seq<A>, each: spec_fn(A) -> Seq<B>, n: int)
    requires
        0 <= n < items.len(),
    ensures
        flat_map(items.take(n + 1), each) == flat_map(items.take(n), each) + each(items[n]),
{
    assert(items.take(n + 1).map_values(each) =~= items.take(n).map_values(each).push(
        each(items[n]),
    ));
    items.take(n).map_values(each).lemma_flatten_push(each(items[n]));
}

} // verus!
