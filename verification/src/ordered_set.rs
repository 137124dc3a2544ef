//! Sequences used as insertion-ordered sets: an item is added only when it
//! is not there yet.
use vstd::prelude::*;

verus! {

/// `acc` followed by each item of `items` that is not already present, in
/// order of first appearance.
pub open spec fn append_new<T>(acc: Seq<T>, items: Seq<T>) -> Seq<T>
    decreases items.len(),
{
    if items.len() == 0 {
        acc
    } else {
        let prev = append_new(acc, items.drop_last());
        if prev.contains(items.last()) {
            prev
        } else {
            prev.push(items.last())
        }
    }
}

/// `acc` with `item` added when it is not present.
pub open spec fn push_new<T>(acc: Seq<T>, item: T) -> Seq<T> {
    if acc.contains(item) {
        acc
    } else {
        acc.push(item)
    }
}

/// Adding items one by one is adding them all.
pub proof fn lemma_append_new_push<T>(acc: Seq<T>, items: Seq<T>, item: T)
    ensures
        append_new(acc, items.push(item)) == push_new(append_new(acc, items), item),
{
    assert(items.push(item).drop_last() =~= items);
}

/// An item is in the result exactly when it was in `acc` or among `items`.
pub proof fn lemma_append_new_contains<T>(acc: Seq<T>, items: Seq<T>, x: T)
    ensures
        append_new(acc, items).contains(x) <==> (acc.contains(x) || items.contains(x)),
    decreases items.len(),
{
    if items.len() > 0 {
        let init = items.drop_last();
        lemma_append_new_contains(acc, init, x);
        let prev = append_new(acc, init);
        if items.contains(x) && !init.contains(x) {
            let k = choose|k: int| 0 <= k < items.len() && items[k] == x;
            if k < items.len() - 1 {
                assert(init[k] == x);
            }
            assert(items.last() == x);
            if !prev.contains(x) {
                assert(prev.push(x)[prev.len() as int] == x);
            }
        }
        if init.contains(x) {
            let k = choose|k: int| 0 <= k < init.len() && init[k] == x;
            assert(items[k] == x);
        }
        if prev.push(items.last()).contains(x) && !prev.contains(x) {
            let k = choose|k: int| 0 <= k < prev.len() + 1 && prev.push(items.last())[k] == x;
            assert(k == prev.len());
            assert(items[items.len() - 1] == x);
        }
        if prev.contains(x) {
            let k = choose|k: int| 0 <= k < prev.len() && prev[k] == x;
            assert(prev.push(items.last())[k] == x);
        }
    }
}

/// Nothing appears twice in the result when nothing appeared twice in `acc`.
pub proof fn lemma_append_new_no_duplicates<T>(acc: Seq<T>, items: Seq<T>)
    requires
        acc.no_duplicates(),
    ensures
        append_new(acc, items).no_duplicates(),
    decreases items.len(),
{
    if items.len() > 0 {
        lemma_append_new_no_duplicates(acc, items.drop_last());
    }
}

/// The result begins with `acc`.
pub proof fn lemma_append_new_prefix<T>(acc: Seq<T>, items: Seq<T>)
    ensures
        acc.is_prefix_of(append_new(acc, items)),
    decreases items.len(),
{
    if items.len() > 0 {
        lemma_append_new_prefix(acc, items.drop_last());
        let prev = append_new(acc, items.drop_last());
        assert(prev.push(items.last()).subrange(0, acc.len() as int) =~= prev.subrange(
            0,
            acc.len() as int,
        ));
    }
}

/// Items that are all distinct are taken over unchanged.
pub proof fn lemma_append_new_distinct<T>(items: Seq<T>)
    requires
        items.no_duplicates(),
    ensures
        append_new(Seq::empty(), items) == items,
    decreases items.len(),
{
    if items.len() > 0 {
        let init = items.drop_last();
        assert(init.no_duplicates());
        lemma_append_new_distinct(init);
        if init.contains(items.last()) {
            let k = choose|k: int| 0 <= k < init.len() && init[k] == items.last();
            assert(items[k] == items[items.len() - 1]);
        }
        assert(init.push(items.last()) =~= items);
    }
}

/// An item is in a concatenation exactly when it is in one of the parts.
pub proof fn lemma_concat_contains<T>(a: Seq<T>, b: Seq<T>, x: T)
    ensures
        (a + b).contains(x) <==> (a.contains(x) || b.contains(x)),
{
    if a.contains(x) {
        let k = choose|k: int| 0 <= k < a.len() && a[k] == x;
        assert((a + b)[k] == x);
    }
    if b.contains(x) {
        let k = choose|k: int| 0 <= k < b.len() && b[k] == x;
        assert((a + b)[a.len() + k] == x);
    }
    if (a + b).contains(x) {
        let k = choose|k: int| 0 <= k < (a + b).len() && (a + b)[k] == x;
        if k < a.len() {
            assert(a[k] == x);
        } else {
            assert(b[k - a.len()] == x);
        }
    }
}

} // verus!
