//! The first of a sequence of findings.

use vstd::prelude::*;

verus! {

/// The first finding of a sequence of optional findings, or `None` where
/// there is none.
pub open spec fn first_some<A>(items: Seq<Option<A>>) -> Option<A>
    decreases items.len(),
{
    if items.len() == 0 {
        None
    } else {
        match first_some(items.drop_last()) {
            Some(found) => Some(found),
            None => items.last(),
        }
    }
}

/// Where nothing is found at any place, nothing is found.
pub proof fn lemma_first_some_none<A>(items: Seq<Option<A>>)
    requires
        forall|k: int| 0 <= k < items.len() ==> items[k] is None,
    ensures
        first_some(items) is None,
    decreases items.len(),
{
    if items.len() > 0 {
        lemma_first_some_none(items.drop_last());
    }
}

/// Where nothing is found before a place, the first finding is that of the
/// place, if there is one.
pub proof fn lemma_first_some_at<A>(items: Seq<Option<A>>, at: int)
    requires
        0 <= at < items.len(),
        forall|k: int| 0 <= k < at ==> items[k] is None,
        items[at] is Some,
    ensures
        first_some(items) == items[at],
    decreases items.len(),
{
    if at == items.len() - 1 {
        lemma_first_some_none(items.drop_last());
    } else {
        lemma_first_some_at(items.drop_last(), at);
    }
}

/// The first finding is a finding of some place, with nothing found before
/// it; and where nothing is found first, nothing is found at any place.
pub proof fn lemma_first_some_place<A>(items: Seq<Option<A>>)
    ensures
        first_some(items) is None ==> forall|k: int| 0 <= k < items.len() ==> items[k] is None,
        first_some(items) is Some ==> exists|at: int|
            0 <= at < items.len() && items[at] == first_some(items) && forall|k: int|
                0 <= k < at ==> items[k] is None,
    decreases items.len(),
{
    if items.len() > 0 {
        let front = items.drop_last();
        lemma_first_some_place(front);
        if first_some(front) is Some {
            let at = choose|at: int|
                0 <= at < front.len() && front[at] == first_some(front) && forall|k: int|
                    0 <= k < at ==> front[k] is None;
            assert(items[at] == first_some(items));
            assert forall|k: int| 0 <= k < at implies items[k] is None by {
                assert(front[k] is None);
            }
        } else {
            assert forall|k: int| 0 <= k < items.len() - 1 implies items[k] is None by {
                assert(front[k] is None);
            }
            if items.last() is Some {
                let at = items.len() - 1;
                assert(items[at] == first_some(items));
            }
        }
    }
}

} // verus!
