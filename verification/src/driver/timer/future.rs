//! The awaitable that a delay request is answered with.

use vstd::prelude::*;
use core::task::Waker;
use crate::hal::timer::Timer as HalTimer;
use crate::time::Milliseconds;
use super::{delay_remaining, Schedulable, Timer, CAPACITY};

verus! {

/// Whether a waiter can go on.
#[derive(Clone, Copy, Debug, PartialEq, Eq, Structural)]
pub enum Poll {
    Ready,
    Pending,
}

/// A delay under way, bound to the slot that counts it down.
///
/// The delay is over once its slot has been freed. The awaitable remembers
/// that it has seen its slot free, since the slot may be taken again by a
/// later request.
pub struct DelayFuture {
    index: usize,
    expired: bool,
}

impl DelayFuture {
    /// The slot that counts the delay down.
    pub closed spec fn index(&self) -> usize {
        self.index
    }

    /// Whether the awaitable has seen its delay over.
    pub closed spec fn resolved(&self) -> bool {
        self.expired
    }

    /// An awaitable for the delay in slot `index`.
    pub fn new(index: usize) -> (future: Self)
        ensures
            future.index() == index,
            !future.resolved(),
    {
        DelayFuture { index, expired: false }
    }

    /// The slot that counts the delay down.
    pub fn slot(&self) -> (index: usize)
        ensures
            index == self.index(),
    {
        self.index
    }

    /// Whether the awaitable has seen its delay over.
    pub fn is_resolved(&self) -> (resolved: bool)
        ensures
            resolved == self.resolved(),
    {
        self.expired
    }

    /// Whether the delay is over: it was seen over before, or its slot in
    /// `timer` is free now.
    pub fn has_expired<T: HalTimer, S: Schedulable>(&mut self, timer: &Timer<T, S>) -> (expired:
        bool)
        requires
            old(self).index() < CAPACITY,
        ensures
            expired == (old(self).resolved() || timer.delay_slot(old(self).index() as int) is None),
            final(self).resolved() == expired,
            final(self).index() == old(self).index(),
    {
        if !self.expired {
            self.expired = timer.has_expired(self.index);
        }
        self.expired
    }

    /// Leaves `waker` with the delay's slot in `timer`.
    pub fn register_waker<T: HalTimer, S: Schedulable>(
        &self,
        timer: &mut Timer<T, S>,
        waker: Waker,
    )
        requires
            self.index() < CAPACITY,
            old(timer).delay_slot(self.index() as int) is Some,
        ensures
            final(timer).waits(*old(timer), self.index() as int, waker),
    {
        timer.register_waker(self.index, waker);
    }

    /// Looks whether the delay is over. If it is not, `waker` is left with
    /// the slot, so that the waiter is resumed when the slot expires.
    pub fn poll<T: HalTimer, S: Schedulable>(&mut self, timer: &mut Timer<T, S>, waker: Waker) -> (poll:
        Poll)
        requires
            old(self).index() < CAPACITY,
        ensures
            final(self).index() == old(self).index(),
            final(self).resolved() == (old(self).resolved() || old(timer).delay_slot(
                old(self).index() as int,
            ) is None),
            poll == if final(self).resolved() {
                Poll::Ready
            } else {
                Poll::Pending
            },
            if final(self).resolved() {
                *final(timer) == *old(timer)
            } else {
                final(timer).waits(*old(timer), old(self).index() as int, waker)
            },
    {
        if self.has_expired(timer) {
            Poll::Ready
        } else {
            self.register_waker(timer, waker);
            Poll::Pending
        }
    }
}

/// One step in the life of an awaitable and the timer that counts it down.
///
/// The awaitable stays bound to its slot, and sees its delay over only if it
/// has seen so before or finds its slot free. The timer either reconciles a
/// countdown of `elapsed`, or does something else, `elapsed` being `None`:
/// then the slot, if it is occupied, keeps the time it has left. That is so of
/// a poll, of a resumer left with any slot, and of a request or a schedule,
/// which fill free slots only.
pub open spec fn follows<T: HalTimer, S: Schedulable>(
    timer: Timer<T, S>,
    future: DelayFuture,
    elapsed: Option<Milliseconds>,
    next_timer: Timer<T, S>,
    next_future: DelayFuture,
) -> bool {
    let index = future.index() as int;
    &&& next_future.index() == future.index()
    &&& next_future.resolved() ==> future.resolved() || timer.delay_slot(index) is None
    &&& match elapsed {
        Some(countdown) => timer.deadline() == Some(countdown) && next_timer.reconciles(timer),
        None => timer.delay_slot(index) is Some ==> delay_remaining(next_timer.delay_slot(index))
            == delay_remaining(timer.delay_slot(index)),
    }
}

/// The time that the reconciliations among `steps` have accounted for.
pub open spec fn reconciled_time(steps: Seq<Option<Milliseconds>>) -> nat
    decreases steps.len(),
{
    if steps.len() == 0 {
        0
    } else {
        reconciled_time(steps.drop_last()) + match steps.last() {
            Some(countdown) => countdown.0 as nat,
            None => 0,
        }
    }
}

/// `timers` and `futures` are the states that a timer and an awaitable go
/// through by `steps`, from the moment at which the awaitable was handed out
/// for a delay of `duration`.
pub open spec fn is_run<T: HalTimer, S: Schedulable>(
    timers: Seq<Timer<T, S>>,
    futures: Seq<DelayFuture>,
    steps: Seq<Option<Milliseconds>>,
    duration: Milliseconds,
) -> bool {
    &&& timers.len() == steps.len() + 1
    &&& futures.len() == steps.len() + 1
    &&& futures[0].index() < CAPACITY
    &&& !futures[0].resolved()
    &&& delay_remaining(timers[0].delay_slot(futures[0].index() as int)) == Some(duration)
    &&& forall|k: int|
        0 <= k < steps.len() ==> #[trigger] follows(
            timers[k],
            futures[k],
            steps[k],
            timers[k + 1],
            futures[k + 1],
        )
}

/// What holds at the end of every run: the awaitable is bound to the slot it
/// was bound to, and either its slot still counts the delay down, with what
/// is left of `duration` after the reconciled time, or at least `duration`
/// has been reconciled; the latter if the awaitable has seen its delay over.
proof fn lemma_run<T: HalTimer, S: Schedulable>(
    timers: Seq<Timer<T, S>>,
    futures: Seq<DelayFuture>,
    steps: Seq<Option<Milliseconds>>,
    duration: Milliseconds,
)
    requires
        is_run(timers, futures, steps, duration),
    ensures
        futures.last().index() == futures[0].index(),
        futures.last().resolved() ==> reconciled_time(steps) >= duration.0,
        reconciled_time(steps) < duration.0 ==> {
            let left = delay_remaining(timers.last().delay_slot(futures[0].index() as int));
            left is Some && (left->0).0 + reconciled_time(steps) == duration.0
        },
    decreases steps.len(),
{
    if steps.len() > 0 {
        let n = steps.len() - 1;
        let index = futures[0].index() as int;
        let earlier_timers = timers.drop_last();
        let earlier_futures = futures.drop_last();
        let earlier = steps.drop_last();
        assert forall|k: int| 0 <= k < earlier.len() implies #[trigger] follows(
            earlier_timers[k],
            earlier_futures[k],
            earlier[k],
            earlier_timers[k + 1],
            earlier_futures[k + 1],
        ) by {
            assert(follows(timers[k], futures[k], steps[k], timers[k + 1], futures[k + 1]));
        }
        lemma_run(earlier_timers, earlier_futures, earlier, duration);
        assert(follows(timers[n], futures[n], steps[n], timers[n + 1], futures[n + 1]));
        assert(earlier_timers.last() == timers[n]);
        assert(earlier_futures.last() == futures[n]);
        assert(timers[n].remaining()[index] == delay_remaining(timers[n].delay_slot(index)));
        assert(timers[n + 1].remaining()[index] == delay_remaining(
            timers[n + 1].delay_slot(index),
        ));
    }
}

/// A delay is not awaited for too short a time: at the end of every run of
/// an awaitable that was handed out for `duration`, the next poll answers
/// `Ready`, which it does if the awaitable has seen its delay over or finds
/// its slot free, only if at least `duration` has been reconciled since; as
/// long as less has been reconciled, it answers `Pending`.
pub proof fn lemma_poll_not_early<T: HalTimer, S: Schedulable>(
    timers: Seq<Timer<T, S>>,
    futures: Seq<DelayFuture>,
    steps: Seq<Option<Milliseconds>>,
    duration: Milliseconds,
)
    requires
        is_run(timers, futures, steps, duration),
    ensures
        futures.last().resolved() || timers.last().delay_slot(futures.last().index() as int)
            is None ==> reconciled_time(steps) >= duration.0,
{
    lemma_run(timers, futures, steps, duration);
}

} // verus!
