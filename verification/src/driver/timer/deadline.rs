//! The arithmetic of deadlines, apart from the slots that hold them.
//!
//! Every slot counts the time that remains for it from now on. When the
//! countdown peripheral reports that some time has elapsed, that time is taken
//! off every occupied slot alike, and a slot with nothing left is freed.

use vstd::prelude::*;
use crate::time::Milliseconds;

verus! {

/// What is left of a slot's remaining time once `elapsed` has passed: `None`
/// if the slot was free or nothing is left, else the difference.
pub open spec fn advance(slot: Option<Milliseconds>, elapsed: Milliseconds) -> Option<
    Milliseconds,
> {
    match slot {
        Some(remaining) => if remaining.0 > elapsed.0 {
            Some(Milliseconds((remaining.0 - elapsed.0) as u32))
        } else {
            None
        },
        None => None,
    }
}

/// The sooner of a deadline and the remaining time of one more slot.
pub open spec fn sooner(deadline: Option<Milliseconds>, slot: Option<Milliseconds>) -> Option<
    Milliseconds,
> {
    match (deadline, slot) {
        (_, None) => deadline,
        (None, Some(_)) => slot,
        (Some(soonest), Some(remaining)) => if soonest.0 > remaining.0 {
            slot
        } else {
            deadline
        },
    }
}

/// `deadline` is the least remaining time among the occupied `slots`, or
/// `None` if no slot is occupied.
pub open spec fn is_soonest(slots: Seq<Option<Milliseconds>>, deadline: Option<Milliseconds>) -> bool {
    match deadline {
        None => forall|i: int| 0 <= i < slots.len() ==> slots[i] is None,
        Some(soonest) => {
            &&& exists|i: int| 0 <= i < slots.len() && slots[i] == Some(soonest)
            &&& forall|i: int|
                0 <= i < slots.len() && (#[trigger] slots[i]) is Some ==> soonest.0 <= (
                slots[i]->0).0
        },
    }
}

/// The soonest deadline of a set of slots is determined by the slots.
pub proof fn lemma_soonest_unique(
    slots: Seq<Option<Milliseconds>>,
    a: Option<Milliseconds>,
    b: Option<Milliseconds>,
)
    requires
        is_soonest(slots, a),
        is_soonest(slots, b),
    ensures
        a == b,
{
    if a is Some && b is Some {
        let i = choose|i: int| 0 <= i < slots.len() && slots[i] == a;
        let j = choose|j: int| 0 <= j < slots.len() && slots[j] == b;
        assert((a->0).0 <= (b->0).0);
        assert((b->0).0 <= (a->0).0);
    } else if a is Some {
        let i = choose|i: int| 0 <= i < slots.len() && slots[i] == a;
        assert(slots[i] is None);
    } else if b is Some {
        let j = choose|j: int| 0 <= j < slots.len() && slots[j] == b;
        assert(slots[j] is None);
    }
}

/// Looking at one more slot: if `deadline` is the soonest of the first `n`
/// slots of `before`, and `after` has the same first `n` slots, then the sooner
/// of `deadline` and slot `n` of `after` is the soonest of its first `n + 1`.
pub proof fn lemma_soonest_extend(
    before: Seq<Option<Milliseconds>>,
    after: Seq<Option<Milliseconds>>,
    n: int,
    deadline: Option<Milliseconds>,
)
    requires
        0 <= n < after.len(),
        n <= before.len(),
        forall|i: int| 0 <= i < n ==> before[i] == after[i],
        is_soonest(before.take(n), deadline),
    ensures
        is_soonest(after.take(n + 1), sooner(deadline, after[n])),
{
    let seen = before.take(n);
    let wider = after.take(n + 1);
    let next = sooner(deadline, after[n]);
    assert forall|i: int| 0 <= i < n implies wider[i] == seen[i] by {}
    assert(wider[n] == after[n]);
    match next {
        None => {
            assert forall|i: int| 0 <= i < wider.len() implies wider[i] is None by {
                if i < n {
                    assert(seen[i] is None);
                }
            }
        },
        Some(soonest) => {
            if next == after[n] {
                assert(wider[n] == Some(soonest));
            } else {
                let i = choose|i: int| 0 <= i < seen.len() && seen[i] == Some(soonest);
                assert(wider[i] == Some(soonest));
            }
            assert forall|i: int| 0 <= i < wider.len() && (#[trigger] wider[i]) is Some implies soonest.0
                <= (wider[i]->0).0 by {
                if i < n {
                    assert(wider[i] == seen[i]);
                    if deadline is None {
                        assert(seen[i] is None);
                    }
                }
            }
        },
    }
}

/// Filling a free slot: the soonest deadline afterwards is the sooner of the
/// old one and the new slot.
pub proof fn lemma_soonest_insert(
    slots: Seq<Option<Milliseconds>>,
    index: int,
    remaining: Milliseconds,
    deadline: Option<Milliseconds>,
)
    requires
        0 <= index < slots.len(),
        slots[index] is None,
        is_soonest(slots, deadline),
    ensures
        is_soonest(slots.update(index, Some(remaining)), sooner(deadline, Some(remaining))),
{
    let filled = slots.update(index, Some(remaining));
    let next = sooner(deadline, Some(remaining));
    if next == Some(remaining) {
        assert(filled[index] == Some(remaining));
    } else {
        let i = choose|i: int| 0 <= i < slots.len() && slots[i] == deadline;
        assert(filled[i] == deadline);
    }
    assert forall|i: int| 0 <= i < filled.len() && (#[trigger] filled[i]) is Some implies (next->0).0
        <= (filled[i]->0).0 by {
        if i != index {
            assert(filled[i] == slots[i]);
            if deadline is None {
                assert(slots[i] is None);
            }
        }
    }
}

/// The remaining time of a slot after a series of reconciliations, each with
/// its own elapsed time, oldest first.
pub open spec fn advance_all(slot: Option<Milliseconds>, elapsed: Seq<Milliseconds>) -> Option<
    Milliseconds,
>
    decreases elapsed.len(),
{
    if elapsed.len() == 0 {
        slot
    } else {
        advance(advance_all(slot, elapsed.drop_last()), elapsed.last())
    }
}

/// The time that a series of reconciliations has accounted for.
pub open spec fn total(elapsed: Seq<Milliseconds>) -> nat
    decreases elapsed.len(),
{
    if elapsed.len() == 0 {
        0
    } else {
        total(elapsed.drop_last()) + elapsed.last().0 as nat
    }
}

/// A delay does not resolve early: a slot that was filled with `duration` is
/// still occupied for as long as the reconciled time is short of `duration`,
/// and then holds exactly the difference; once it is free, at least
/// `duration` has been reconciled.
pub proof fn lemma_delay_not_early(duration: Milliseconds, elapsed: Seq<Milliseconds>)
    ensures
        match advance_all(Some(duration), elapsed) {
            Some(remaining) => remaining.0 + total(elapsed) == duration.0,
            None => total(elapsed) >= duration.0,
        },
    decreases elapsed.len(),
{
    if elapsed.len() > 0 {
        lemma_delay_not_early(duration, elapsed.drop_last());
    }
}

/// A slot that is not overrun resolves on time: if the latest reconciliation
/// found the slot occupied and accounted for no more than the slot had left,
/// which is so whenever the time accounted for is the soonest deadline, and
/// the slot is free now, then the reconciled time equals `duration`.
pub proof fn lemma_delay_on_time(duration: Milliseconds, elapsed: Seq<Milliseconds>)
    requires
        elapsed.len() > 0,
        advance_all(Some(duration), elapsed.drop_last()) is Some,
        elapsed.last().0 <= (advance_all(Some(duration), elapsed.drop_last())->0).0,
        advance_all(Some(duration), elapsed) is None,
    ensures
        total(elapsed) == duration.0,
{
    lemma_delay_not_early(duration, elapsed.drop_last());
}

} // verus!
