//! What the figures of a path promise.

use crate::measure::Millis;
use crate::probe::path;
use vstd::prelude::*;

verus! {

/// A probe that came back adds its time, a lost one adds nothing, and two runs of
/// probes add up.
pub proof fn law_probes_add_up(a: Seq<Option<Millis>>, b: Seq<Option<Millis>>, ms: Millis)
    ensures
        path::returned(seq![Some(ms)]) == seq![ms],
        path::returned(seq![None]) == Seq::<Millis>::empty(),
        path::returned(a + b) == path::returned(a) + path::returned(b),
    decreases b.len(),
{
    reveal_with_fuel(path::returned, 2);
    assert(seq![Some(ms)].drop_last() =~= Seq::<Option<Millis>>::empty());
    assert(seq![None::<Millis>].drop_last() =~= Seq::<Option<Millis>>::empty());
    assert(path::returned(seq![Some(ms)]) =~= seq![ms]);
    if b.len() > 0 {
        law_probes_add_up(a, b.drop_last(), ms);
        assert((a + b).drop_last() =~= a + b.drop_last());
        assert(path::returned(a + b) =~= path::returned(a) + path::returned(b));
    } else {
        assert(a + b =~= a);
        assert(path::returned(a + b) =~= path::returned(a) + path::returned(b));
    }
}

/// Where every probe came back nothing is lost, and where none did there are no times.
pub proof fn law_all_or_nothing(probes: Seq<Option<Millis>>)
    ensures
        path::returned(probes).len() == probes.len() <==> forall|i: int|
            0 <= i < probes.len() ==> #[trigger] probes[i] is Some,
        path::returned(probes).len() == 0 <==> forall|i: int|
            0 <= i < probes.len() ==> #[trigger] probes[i] is None,
    decreases probes.len(),
{
    if probes.len() > 0 {
        let front = probes.drop_last();
        law_all_or_nothing(front);
        path::lemma_returned_len(front);
        let n = probes.len() - 1;
        assert(forall|i: int| 0 <= i < n ==> #[trigger] front[i] == probes[i]);
        assert(probes.last() == probes[n]);
        if path::returned(probes).len() == probes.len() {
            assert forall|i: int| 0 <= i < probes.len() implies #[trigger] probes[i] is Some by {
                if i < n {
                    assert(front[i] is Some);
                }
            }
        }
        if path::returned(probes).len() == 0 {
            assert forall|i: int| 0 <= i < probes.len() implies #[trigger] probes[i] is None by {
                if i < n {
                    assert(front[i] is None);
                }
            }
        }
    }
}

} // verus!
