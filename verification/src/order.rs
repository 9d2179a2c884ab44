//! Sorted lists without repetition, over any strict total order.

use vstd::prelude::*;

verus! {

/// `less` is a strict total order.
pub open spec fn strict_total<T>(less: spec_fn(T, T) -> bool) -> bool {
    &&& forall|a: T| !#[trigger] less(a, a)
    &&& forall|a: T, b: T, c: T| #[trigger] less(a, b) && #[trigger] less(b, c) ==> less(a, c)
    &&& forall|a: T, b: T| a == b || #[trigger] less(a, b) || less(b, a)
}

/// Strictly ascending, so that nothing occurs twice.
pub open spec fn ascending<T>(list: Seq<T>, less: spec_fn(T, T) -> bool) -> bool {
    forall|i: int, j: int| 0 <= i < j < list.len() ==> less(#[trigger] list[i], #[trigger] list[j])
}

/// `t` put before the first greater element, or the list itself where `t` is
/// met first.
pub open spec fn inserted<T>(list: Seq<T>, t: T, less: spec_fn(T, T) -> bool) -> Seq<T>
    decreases list.len(),
{
    if list.len() == 0 {
        seq![t]
    } else if list[0] == t {
        list
    } else if less(t, list[0]) {
        seq![t] + list
    } else {
        seq![list[0]] + inserted(list.skip(1), t, less)
    }
}

/// The elements of `list` in ascending order, each once.
pub open spec fn sorted_unique<T>(list: Seq<T>, less: spec_fn(T, T) -> bool) -> Seq<T>
    decreases list.len(),
{
    if list.len() == 0 {
        Seq::empty()
    } else {
        inserted(sorted_unique(list.drop_last(), less), list.last(), less)
    }
}

proof fn lemma_inserted_elements<T>(list: Seq<T>, t: T, less: spec_fn(T, T) -> bool, x: T)
    ensures
        inserted(list, t, less).contains(x) <==> list.contains(x) || x == t,
    decreases list.len(),
{
    let out = inserted(list, t, less);
    if list.len() == 0 {
        assert(out[0] == t);
    } else if list[0] == t {
    } else if less(t, list[0]) {
        assert(out[0] == t);
        assert(forall|k: int| 0 <= k < list.len() ==> out[k + 1] == #[trigger] list[k]);
        if out.contains(x) {
            let k = choose|k: int| 0 <= k < out.len() && out[k] == x;
            if k > 0 {
                assert(list[k - 1] == x);
            }
        }
        if list.contains(x) {
            let k = choose|k: int| 0 <= k < list.len() && list[k] == x;
            assert(out[k + 1] == x);
        }
    } else {
        let rest = list.skip(1);
        let tail = inserted(rest, t, less);
        lemma_inserted_elements(rest, t, less, x);
        assert(out[0] == list[0]);
        if out.contains(x) {
            let k = choose|k: int| 0 <= k < out.len() && out[k] == x;
            if k > 0 {
                assert(tail[k - 1] == x);
                assert(tail.contains(x));
                if rest.contains(x) {
                    let m = choose|m: int| 0 <= m < rest.len() && rest[m] == x;
                    assert(list[m + 1] == x);
                }
            }
        }
        if list.contains(x) && list[0] != x {
            let k = choose|k: int| 0 <= k < list.len() && list[k] == x;
            assert(rest[k - 1] == x);
        }
        if tail.contains(x) {
            let m = choose|m: int| 0 <= m < tail.len() && tail[m] == x;
            assert(out[m + 1] == x);
        }
    }
}

proof fn lemma_inserted_ascending<T>(list: Seq<T>, t: T, less: spec_fn(T, T) -> bool)
    requires
        strict_total(less),
        ascending(list, less),
    ensures
        ascending(inserted(list, t, less), less),
    decreases list.len(),
{
    let out = inserted(list, t, less);
    if list.len() == 0 || list[0] == t {
    } else if less(t, list[0]) {
        assert forall|i: int, j: int| 0 <= i < j < out.len() implies less(
            #[trigger] out[i],
            #[trigger] out[j],
        ) by {
            assert(out[j] == list[j - 1]);
            if i == 0 {
                if j > 1 {
                    assert(less(list[0], list[j - 1]));
                }
            } else {
                assert(out[i] == list[i - 1]);
            }
        }
    } else {
        let rest = list.skip(1);
        let tail = inserted(rest, t, less);
        assert(less(list[0], t));
        lemma_inserted_ascending(rest, t, less);
        assert forall|i: int, j: int| 0 <= i < j < out.len() implies less(
            #[trigger] out[i],
            #[trigger] out[j],
        ) by {
            assert(out[j] == tail[j - 1]);
            if i == 0 {
                lemma_inserted_elements(rest, t, less, tail[j - 1]);
                assert(tail.contains(tail[j - 1]));
                if rest.contains(tail[j - 1]) {
                    let k = choose|k: int| 0 <= k < rest.len() && rest[k] == tail[j - 1];
                    assert(less(list[0], list[k + 1]));
                }
            } else {
                assert(out[i] == tail[i - 1]);
            }
        }
    }
}

/// The sorted list is strictly ascending and holds exactly the given elements.
pub proof fn lemma_sorted_unique<T>(list: Seq<T>, less: spec_fn(T, T) -> bool)
    requires
        strict_total(less),
    ensures
        ascending(sorted_unique(list, less), less),
        forall|x: T| #[trigger] sorted_unique(list, less).contains(x) <==> list.contains(x),
    decreases list.len(),
{
    if list.len() > 0 {
        let init = list.drop_last();
        lemma_sorted_unique(init, less);
        lemma_inserted_ascending(sorted_unique(init, less), list.last(), less);
        assert forall|x: T| #[trigger] sorted_unique(list, less).contains(x) <==> list.contains(x) by {
            lemma_inserted_elements(sorted_unique(init, less), list.last(), less, x);
            assert(list == init.push(list.last()));
            if list.contains(x) && x != list.last() {
                let k = choose|k: int| 0 <= k < list.len() && list[k] == x;
                assert(init[k] == x);
            }
            if init.contains(x) {
                let k = choose|k: int| 0 <= k < init.len() && init[k] == x;
                assert(list[k] == x);
            }
            if x == list.last() {
                assert(list[list.len() - 1] == x);
            }
        }
    }
}

} // verus!
