//! One countdown peripheral shared by many deadlines.
//!
//! The driver keeps two pools of slots: delays, whose waiters are resumed when
//! their time is up, and schedules, whose notifications are released when
//! their time is up. The peripheral is always armed for the soonest deadline of
//! all occupied slots; when it fires, the elapsed time is reconciled against
//! every slot.

pub mod deadline;
pub mod future;
pub mod waker;

use vstd::prelude::*;
use core::task::Waker;
use crate::address::{Address, Notification, Request};
use crate::hal::timer::{Command, Timer as HalTimer};
use crate::handler::{
    Actor, Completion, Lifecycle, NotificationHandler, RequestHandler, Response,
};
use crate::time::Milliseconds;
use self::deadline::{advance, is_soonest, lemma_soonest_extend, lemma_soonest_insert, sooner};
use self::future::DelayFuture;
use self::waker::wake;

verus! {

/// The number of slots in each pool.
pub const CAPACITY: usize = 16;

/// The answer to a request that found every slot of its pool occupied.
#[derive(Clone, Copy, Debug, PartialEq, Eq, Structural)]
pub struct NoCapacity;

/// The request to be resumed once the given time has passed.
#[derive(Clone, Copy, Debug)]
pub struct Delay(pub Milliseconds);

/// A deadline that the timer can hold in a schedule slot.
pub trait Schedulable: Sized {
    /// What is released when the deadline expires.
    type Notice;

    /// The time that remains.
    spec fn expiration(&self) -> Milliseconds;

    /// What `run` releases.
    spec fn notice(&self) -> Self::Notice;

    /// Gives up the deadline for what it was set to release.
    fn run(self) -> (notice: Self::Notice)
        ensures
            notice == self.notice(),
    ;

    fn get_expiration(&self) -> (expiration: Milliseconds)
        ensures
            expiration == self.expiration(),
    ;

    fn set_expiration(&mut self, expiration: Milliseconds)
        ensures
            final(self).expiration() == expiration,
            final(self).notice() == old(self).notice(),
    ;
}

/// The request to notify the actor at `address` of `event` after `delay`.
pub struct Schedule<A, E> {
    pub delay: Milliseconds,
    pub event: E,
    pub address: Address<A>,
}

impl<A, E> Schedule<A, E> {
    pub fn new(delay: Milliseconds, event: E, address: Address<A>) -> (schedule: Self)
        ensures
            schedule == (Schedule { delay, event, address }),
    {
        Schedule { delay, event, address }
    }
}

/// An occupied delay slot: the time that remains, and the resumer of the
/// waiter, once it has left one.
pub struct DelayDeadline {
    pub expiration: Milliseconds,
    pub waker: Option<Waker>,
}

impl DelayDeadline {
    pub fn new(expiration: Milliseconds) -> (deadline: Self)
        ensures
            deadline == (DelayDeadline { expiration, waker: None }),
    {
        DelayDeadline { expiration, waker: None }
    }
}

/// A notification that a schedule has released, for the actor whose context
/// has the identity `destination`.
pub struct Due<E> {
    pub destination: usize,
    pub event: E,
}

/// An occupied schedule slot: the time that remains of a [`Schedule`], the
/// identity of the actor to notify, and the event to notify it of. The slot
/// does not record the type of the actor, so that one timer can serve actors
/// of every type.
pub struct ScheduleDeadline<E> {
    pub expiration: Milliseconds,
    pub destination: usize,
    pub event: E,
}

impl<E> ScheduleDeadline<E> {
    pub fn new<A>(expiration: Milliseconds, schedule: Schedule<A, E>) -> (deadline: Self)
        ensures
            deadline == (ScheduleDeadline {
                expiration,
                destination: schedule.address.context(),
                event: schedule.event,
            }),
    {
        ScheduleDeadline {
            expiration,
            destination: schedule.address.identity(),
            event: schedule.event,
        }
    }
}

impl<E> Schedulable for ScheduleDeadline<E> {
    type Notice = Due<E>;

    open spec fn expiration(&self) -> Milliseconds {
        self.expiration
    }

    open spec fn notice(&self) -> Due<E> {
        Due { destination: self.destination, event: self.event }
    }

    /// Releases the event for the actor that the schedule named.
    fn run(self) -> (notice: Due<E>) {
        Due { destination: self.destination, event: self.event }
    }

    fn get_expiration(&self) -> (expiration: Milliseconds) {
        self.expiration
    }

    fn set_expiration(&mut self, expiration: Milliseconds) {
        self.expiration = expiration;
    }
}

/// A delay slot after `elapsed` has been reconciled: freed if no time is left,
/// else shortened, with its resumer kept.
pub open spec fn advance_delay(slot: Option<DelayDeadline>, elapsed: Milliseconds) -> Option<
    DelayDeadline,
> {
    match slot {
        Some(deadline) => if deadline.expiration.0 > elapsed.0 {
            Some(
                DelayDeadline {
                    expiration: Milliseconds((deadline.expiration.0 - elapsed.0) as u32),
                    waker: deadline.waker,
                },
            )
        } else {
            None
        },
        None => None,
    }
}

/// `after` is the schedule slot `before` once `elapsed` has been reconciled:
/// freed if no time is left, else shortened, with its notice kept.
pub open spec fn schedule_advanced<S: Schedulable>(
    before: Option<S>,
    after: Option<S>,
    elapsed: Milliseconds,
) -> bool {
    match before {
        Some(deadline) => if deadline.expiration().0 > elapsed.0 {
            &&& after is Some
            &&& after->0.expiration().0 == deadline.expiration().0 - elapsed.0
            &&& after->0.notice() == deadline.notice()
        } else {
            after is None
        },
        None => after is None,
    }
}

/// The notice that a schedule slot releases when `elapsed` is reconciled:
/// that of its deadline if the slot is occupied and no time is left, else none.
pub open spec fn due_notice<S: Schedulable>(slot: Option<S>, elapsed: Milliseconds) -> Option<
    S::Notice,
> {
    match slot {
        Some(deadline) => if deadline.expiration().0 > elapsed.0 {
            None
        } else {
            Some(deadline.notice())
        },
        None => None,
    }
}

/// The resumer that a delay slot releases when `elapsed` is reconciled: the
/// one left in it if the slot is occupied and no time is left, else none.
pub open spec fn due_waker(slot: Option<DelayDeadline>, elapsed: Milliseconds) -> Option<Waker> {
    match slot {
        Some(deadline) => if deadline.expiration.0 > elapsed.0 {
            None
        } else {
            deadline.waker
        },
        None => None,
    }
}

/// What a reconciliation releases, each at the index of the slot that held it:
/// the resumers of the delays that are over, to be woken, and the notices of
/// the schedules that are over, to be delivered.
pub struct Expired<N> {
    pub resumers: [Option<Waker>; CAPACITY],
    pub notices: [Option<N>; CAPACITY],
}

/// The time that remains in a delay slot.
pub open spec fn delay_remaining(slot: Option<DelayDeadline>) -> Option<Milliseconds> {
    match slot {
        Some(deadline) => Some(deadline.expiration),
        None => None,
    }
}

/// The time that remains in a schedule slot.
pub open spec fn schedule_remaining<S: Schedulable>(slot: Option<S>) -> Option<Milliseconds> {
    match slot {
        Some(deadline) => Some(deadline.expiration()),
        None => None,
    }
}

/// The driver of one countdown peripheral `T`, with schedule slots of type `S`.
pub struct Timer<T: HalTimer, S: Schedulable> {
    timer: T,
    current_deadline: Option<Milliseconds>,
    delay_deadlines: [Option<DelayDeadline>; CAPACITY],
    schedule_deadlines: [Option<S>; CAPACITY],
}

impl<T: HalTimer, S: Schedulable> Timer<T, S> {
    /// The time for which the peripheral is armed, if any slot is occupied.
    pub closed spec fn deadline(&self) -> Option<Milliseconds> {
        self.current_deadline
    }

    /// The delay slot at `index`, `None` if it is free.
    pub closed spec fn delay_slot(&self, index: int) -> Option<DelayDeadline> {
        self.delay_deadlines[index]
    }

    /// The schedule slot at `index`, `None` if it is free.
    pub closed spec fn schedule_slot(&self, index: int) -> Option<S> {
        self.schedule_deadlines[index]
    }

    /// The peripheral that the driver owns.
    pub closed spec fn hardware(&self) -> T {
        self.timer
    }

    /// Every command that the peripheral was given, oldest first.
    pub open spec fn commands(&self) -> Seq<Command> {
        self.hardware().commands()
    }

    /// The time that remains in every slot: the delay slots in order, then the
    /// schedule slots in order.
    pub open spec fn remaining(&self) -> Seq<Option<Milliseconds>> {
        Seq::new(
            (2 * CAPACITY) as nat,
            |i: int|
                if i < CAPACITY {
                    delay_remaining(self.delay_slot(i))
                } else {
                    schedule_remaining(self.schedule_slot(i - CAPACITY))
                },
        )
    }

    /// The peripheral is armed for the soonest deadline of all occupied
    /// slots, and for none if no slot is occupied.
    pub open spec fn wf(&self) -> bool {
        is_soonest(self.remaining(), self.deadline())
    }

    /// A driver of `timer` with all slots free.
    pub fn new(timer: T) -> (driver: Self)
        ensures
            driver.hardware() == timer,
            driver.deadline() is None,
            forall|i: int| 0 <= i < CAPACITY ==> driver.delay_slot(i) is None,
            forall|i: int| 0 <= i < CAPACITY ==> driver.schedule_slot(i) is None,
            driver.wf(),
    {
        Timer {
            timer,
            current_deadline: None,
            delay_deadlines: [
                None, None, None, None, None, None, None, None,
                None, None, None, None, None, None, None, None,
            ],
            schedule_deadlines: [
                None, None, None, None, None, None, None, None,
                None, None, None, None, None, None, None, None,
            ],
        }
    }

    /// The time for which the peripheral is armed, if any slot is occupied.
    pub fn current_deadline(&self) -> (deadline: Option<Milliseconds>)
        ensures
            deadline == self.deadline(),
    {
        self.current_deadline
    }

    /// The time that remains in the delay slot `index`, `None` if it is free.
    pub fn delay_time_left(&self, index: usize) -> (left: Option<Milliseconds>)
        requires
            index < CAPACITY,
        ensures
            left == delay_remaining(self.delay_slot(index as int)),
    {
        match &self.delay_deadlines[index] {
            Some(deadline) => Some(deadline.expiration),
            None => None,
        }
    }

    /// The time that remains in the schedule slot `index`, `None` if it is free.
    pub fn schedule_time_left(&self, index: usize) -> (left: Option<Milliseconds>)
        requires
            index < CAPACITY,
        ensures
            left == schedule_remaining(self.schedule_slot(index as int)),
    {
        match &self.schedule_deadlines[index] {
            Some(deadline) => Some(deadline.get_expiration()),
            None => None,
        }
    }

    /// The peripheral that the driver owns.
    pub fn peripheral(&self) -> (timer: &T)
        ensures
            *timer == self.hardware(),
    {
        &self.timer
    }

    /// `self` is `before` with `waker` left in the occupied delay slot
    /// `index`, in place of the resumer that was there, and nothing else
    /// changed.
    pub open spec fn waits(&self, before: Self, index: int, waker: Waker) -> bool {
        &&& before.delay_slot(index) is Some
        &&& self.delay_slot(index) == Some(
            DelayDeadline {
                expiration: before.delay_slot(index)->0.expiration,
                waker: Some(waker),
            },
        )
        &&& forall|i: int|
            0 <= i < CAPACITY && i != index ==> self.delay_slot(i) == before.delay_slot(i)
        &&& forall|i: int| 0 <= i < CAPACITY ==> self.schedule_slot(i) == before.schedule_slot(i)
        &&& self.deadline() == before.deadline()
        &&& self.hardware() == before.hardware()
        &&& self.remaining() == before.remaining()
    }

    /// Whether the delay in slot `index` is over: the slot has been freed.
    pub fn has_expired(&self, index: usize) -> (expired: bool)
        requires
            index < CAPACITY,
        ensures
            expired == (self.delay_slot(index as int) is None),
    {
        self.delay_deadlines[index].is_none()
    }

    /// Leaves `waker` with the delay in slot `index`, in place of the one
    /// that was left before.
    pub fn register_waker(&mut self, index: usize, waker: Waker)
        requires
            index < CAPACITY,
            old(self).delay_slot(index as int) is Some,
        ensures
            final(self).waits(*old(self), index as int, waker),
    {
        match self.delay_deadlines[index].take() {
            Some(deadline) => {
                self.delay_deadlines[index] = Some(
                    DelayDeadline { expiration: deadline.expiration, waker: Some(waker) },
                );
            },
            None => {},
        }
        proof {
            assert(self.remaining() == old(self).remaining());
        }
    }

    /// The deadline and the peripheral of `self` are those of `before` after
    /// a slot was filled with `remaining`: if no deadline was set, or
    /// `remaining` is strictly sooner, the peripheral was started for
    /// `remaining` and that is the deadline; otherwise neither has changed.
    pub open spec fn rearmed(&self, before: Self, remaining: Milliseconds) -> bool {
        if before.deadline() is None || remaining.0 < (before.deadline()->0).0 {
            &&& self.deadline() == Some(remaining)
            &&& self.commands() == before.commands().push(
                Command::Start(remaining),
            )
        } else {
            &&& self.deadline() == before.deadline()
            &&& self.hardware() == before.hardware()
        }
    }

    /// A slot filled by a request keeps the peripheral armed for the soonest
    /// deadline.
    pub proof fn lemma_request_keeps_wf(
        self,
        after: Self,
        index: int,
        remaining: Milliseconds,
    )
        requires
            self.wf(),
            0 <= index < 2 * CAPACITY,
            self.remaining()[index] is None,
            after.remaining() == self.remaining().update(index, Some(remaining)),
            after.rearmed(self, remaining),
        ensures
            after.wf(),
    {
        lemma_soonest_insert(self.remaining(), index, remaining, self.deadline());
    }

    /// The time that a reconciliation accounts for overruns no slot: while the
    /// peripheral is armed for the soonest deadline, every occupied slot has
    /// at least that much time left.
    pub proof fn lemma_deadline_overruns_no_slot(self, index: int)
        requires
            self.wf(),
            0 <= index < 2 * CAPACITY,
            self.remaining()[index] is Some,
        ensures
            self.deadline() is Some,
            (self.deadline()->0).0 <= (self.remaining()[index]->0).0,
    {
    }

    /// A schedule that is taken while no slot is occupied is due after exactly
    /// its delay: the peripheral is started for the delay, the next
    /// reconciliation accounts for that much and releases the notice of the
    /// schedule and nothing else, and no slot is occupied afterwards.
    pub proof fn lemma_lone_schedule(self, deadline: S, armed: Self, after: Self)
        requires
            self.wf(),
            self.deadline() is None,
            self.scheduled(deadline, armed, Ok(())),
            after.reconciles(armed),
        ensures
            armed.deadline() == Some(deadline.expiration()),
            armed.commands() == self.commands().push(Command::Start(deadline.expiration())),
            due_notice(armed.schedule_slot(0), armed.deadline()->0) == Some(deadline.notice()),
            forall|i: int|
                1 <= i < CAPACITY ==> due_notice(armed.schedule_slot(i), armed.deadline()->0)
                    is None,
            forall|i: int|
                0 <= i < CAPACITY ==> due_waker(armed.delay_slot(i), armed.deadline()->0) is None,
            after.wf(),
            after.deadline() is None,
    {
        assert forall|i: int| 0 <= i < CAPACITY implies self.delay_slot(i) is None
            && self.schedule_slot(i) is None by {
            assert(self.remaining()[i] is None);
            assert(self.remaining()[CAPACITY + i] is None);
        }
        let index = choose|index: int|
            {
                &&& 0 <= index < CAPACITY
                &&& (#[trigger] self.schedule_slot(index)) is None
                &&& forall|i: int| 0 <= i < index ==> self.schedule_slot(i) is Some
                &&& armed.schedule_slot(index) == Some(deadline)
                &&& forall|i: int|
                    0 <= i < CAPACITY && i != index ==> armed.schedule_slot(i)
                        == self.schedule_slot(i)
                &&& forall|i: int| 0 <= i < CAPACITY ==> armed.delay_slot(i) == self.delay_slot(i)
                &&& armed.rearmed(self, deadline.expiration())
                &&& armed.remaining() == self.remaining().update(
                    CAPACITY + index,
                    Some(deadline.expiration()),
                )
            };
        if index > 0 {
            assert(self.schedule_slot(0) is Some);
        }
        assert(index == 0);
        assert forall|i: int| 0 <= i < 2 * CAPACITY implies after.remaining()[i] is None by {
            assert(after.remaining()[i] == advance(armed.remaining()[i], armed.deadline()->0));
            if i != CAPACITY as int {
                assert(armed.remaining()[i] == self.remaining()[i]);
                assert(self.remaining()[i] is None);
            }
        }
        if after.deadline() is Some {
            let i = choose|i: int|
                0 <= i < after.remaining().len() && after.remaining()[i] == after.deadline();
            assert(after.remaining()[i] is None);
        }
    }

    /// `after` and `outcome` are what a request to wait for `duration` makes
    /// of `self`. With every delay slot occupied the request is refused and
    /// nothing changes. Otherwise the first free delay slot is filled with
    /// `duration` and no resumer, the awaitable in `outcome` is bound to that
    /// slot, and the peripheral is rearmed if `duration` is the soonest
    /// deadline now.
    pub open spec fn delay_requested(
        &self,
        duration: Milliseconds,
        after: Self,
        outcome: Result<DelayFuture, NoCapacity>,
    ) -> bool {
        match outcome {
            Err(_) => {
                &&& forall|i: int| 0 <= i < CAPACITY ==> self.delay_slot(i) is Some
                &&& after == *self
            },
            Ok(future) => {
                let index = future.index() as int;
                &&& !future.resolved()
                &&& 0 <= index < CAPACITY
                &&& self.delay_slot(index) is None
                &&& forall|i: int| 0 <= i < index ==> self.delay_slot(i) is Some
                &&& after.delay_slot(index) == Some(
                    DelayDeadline { expiration: duration, waker: None },
                )
                &&& forall|i: int|
                    0 <= i < CAPACITY && i != index ==> after.delay_slot(i) == self.delay_slot(i)
                &&& forall|i: int|
                    0 <= i < CAPACITY ==> after.schedule_slot(i) == self.schedule_slot(i)
                &&& after.rearmed(*self, duration)
                &&& after.remaining() == self.remaining().update(index, Some(duration))
            },
        }
    }

    /// `after` and `outcome` are what the request to hold `deadline` in a
    /// schedule slot makes of `self`. With every schedule slot occupied the
    /// request is refused and nothing changes. Otherwise the first free
    /// schedule slot is filled with `deadline`, and the peripheral is rearmed
    /// if `deadline` is the soonest now.
    pub open spec fn scheduled(
        &self,
        deadline: S,
        after: Self,
        outcome: Result<(), NoCapacity>,
    ) -> bool {
        match outcome {
            Err(_) => {
                &&& forall|i: int| 0 <= i < CAPACITY ==> self.schedule_slot(i) is Some
                &&& after == *self
            },
            Ok(_) => exists|index: int|
                {
                    &&& 0 <= index < CAPACITY
                    &&& (#[trigger] self.schedule_slot(index)) is None
                    &&& forall|i: int| 0 <= i < index ==> self.schedule_slot(i) is Some
                    &&& after.schedule_slot(index) == Some(deadline)
                    &&& forall|i: int|
                        0 <= i < CAPACITY && i != index ==> after.schedule_slot(i)
                            == self.schedule_slot(i)
                    &&& forall|i: int|
                        0 <= i < CAPACITY ==> after.delay_slot(i) == self.delay_slot(i)
                    &&& after.rearmed(*self, deadline.expiration())
                        &&& after.remaining() == self.remaining().update(
                        CAPACITY + index,
                        Some(deadline.expiration()),
                    )
                },
        }
    }

    fn free_delay_slot(&self) -> (free: Option<usize>)
        ensures
            match free {
                Some(index) => {
                    &&& index < CAPACITY
                    &&& self.delay_deadlines[index as int] is None
                    &&& forall|i: int| 0 <= i < index ==> self.delay_deadlines[i] is Some
                },
                None => forall|i: int| 0 <= i < CAPACITY ==> self.delay_deadlines[i] is Some,
            },
    {
        let mut index: usize = 0;
        while index < CAPACITY
            invariant
                index <= CAPACITY,
                forall|i: int| 0 <= i < index ==> self.delay_deadlines[i] is Some,
            decreases CAPACITY - index,
        {
            if self.delay_deadlines[index].is_none() {
                return Some(index);
            }
            index += 1;
        }
        None
    }

    fn free_schedule_slot(&self) -> (free: Option<usize>)
        ensures
            match free {
                Some(index) => {
                    &&& index < CAPACITY
                    &&& self.schedule_deadlines[index as int] is None
                    &&& forall|i: int| 0 <= i < index ==> self.schedule_deadlines[i] is Some
                },
                None => forall|i: int| 0 <= i < CAPACITY ==> self.schedule_deadlines[i] is Some,
            },
    {
        let mut index: usize = 0;
        while index < CAPACITY
            invariant
                index <= CAPACITY,
                forall|i: int| 0 <= i < index ==> self.schedule_deadlines[i] is Some,
            decreases CAPACITY - index,
        {
            if self.schedule_deadlines[index].is_none() {
                return Some(index);
            }
            index += 1;
        }
        None
    }

    fn arm(&mut self, remaining: Milliseconds)
        ensures
            final(self).rearmed(*old(self), remaining),
            final(self).delay_deadlines == old(self).delay_deadlines,
            final(self).schedule_deadlines == old(self).schedule_deadlines,
    {
        match self.current_deadline {
            Some(current_deadline) => {
                if current_deadline.0 > remaining.0 {
                    self.current_deadline = Some(remaining);
                    self.timer.start(remaining);
                }
            },
            None => {
                self.current_deadline = Some(remaining);
                self.timer.start(remaining);
            },
        }
    }

    /// `self` is `before` after the countdown it was armed for has been
    /// reconciled: the interrupt is acknowledged, the elapsed time is taken off
    /// every occupied slot, a slot with no time left is free, and the
    /// peripheral is started, once, for the soonest deadline that remains, or
    /// left stopped if no slot is occupied.
    pub open spec fn reconciles(&self, before: Self) -> bool {
        &&& before.deadline() is Some
        &&& forall|i: int|
            0 <= i < CAPACITY ==> self.delay_slot(i) == advance_delay(
                before.delay_slot(i),
                before.deadline()->0,
            )
        &&& forall|i: int|
            0 <= i < CAPACITY ==> schedule_advanced(
                before.schedule_slot(i),
                self.schedule_slot(i),
                before.deadline()->0,
            )
        &&& forall|i: int|
            0 <= i < 2 * CAPACITY ==> self.remaining()[i] == advance(
                before.remaining()[i],
                before.deadline()->0,
            )
        &&& self.wf()
        &&& self.commands() == match self.deadline() {
            Some(next) => before.commands().push(Command::ClearUpdateInterruptFlag).push(
                Command::Start(next),
            ),
            None => before.commands().push(Command::ClearUpdateInterruptFlag),
        }
    }

    /// Reconciles all slots with the countdown that has just elapsed, and
    /// hands out what the slots that are over held.
    ///
    /// The elapsed time is the deadline that the peripheral was armed for. It
    /// is taken off every occupied slot. A slot with no time left is freed:
    /// the resumer of a delay, if one was left, and the notice of a schedule
    /// are returned at the index of their slot. The peripheral is then armed
    /// for the soonest deadline that remains, or left stopped if no slot is
    /// occupied.
    pub fn reconcile(&mut self) -> (expired: Expired<S::Notice>)
        requires
            old(self).deadline() is Some,
        ensures
            final(self).reconciles(*old(self)),
            forall|i: int|
                0 <= i < CAPACITY ==> expired.resumers[i] == due_waker(
                    old(self).delay_slot(i),
                    old(self).deadline()->0,
                ),
            forall|i: int|
                0 <= i < CAPACITY ==> expired.notices[i] == due_notice(
                    old(self).schedule_slot(i),
                    old(self).deadline()->0,
                ),
    {
        self.timer.clear_update_interrupt_flag();
        let expired = self.current_deadline.unwrap();

        let mut resumers: [Option<Waker>; CAPACITY] = [
            None, None, None, None, None, None, None, None,
            None, None, None, None, None, None, None, None,
        ];
        let mut next_deadline: Option<Milliseconds> = None;
        let mut i: usize = 0;
        while i < CAPACITY
            invariant
                i <= CAPACITY,
                self.timer.commands() == old(self).timer.commands().push(
                    Command::ClearUpdateInterruptFlag,
                ),
                self.current_deadline == old(self).current_deadline,
                self.schedule_deadlines == old(self).schedule_deadlines,
                forall|j: int|
                    0 <= j < i ==> self.delay_deadlines[j] == advance_delay(
                        old(self).delay_deadlines[j],
                        expired,
                    ),
                forall|j: int| i <= j < CAPACITY ==> self.delay_deadlines[j] == old(self).delay_deadlines[j],
                forall|j: int|
                    0 <= j < i ==> resumers[j] == due_waker(old(self).delay_deadlines[j], expired),
                forall|j: int| i <= j < CAPACITY ==> resumers[j] is None,
                is_soonest(self.remaining().take(i as int), next_deadline),
            decreases CAPACITY - i,
        {
            let ghost seen = self.remaining();
            let ghost soonest = next_deadline;
            match self.delay_deadlines[i].take() {
                Some(deadline) => {
                    if deadline.expiration.0 > expired.0 {
                        let remaining = Milliseconds(deadline.expiration.0 - expired.0);
                        next_deadline = nearer(next_deadline, remaining);
                        self.delay_deadlines[i] = Some(
                            DelayDeadline { expiration: remaining, waker: deadline.waker },
                        );
                    } else {
                        resumers[i] = deadline.waker;
                    }
                },
                None => {},
            }
            proof {
                lemma_soonest_extend(seen, self.remaining(), i as int, soonest);
            }
            i += 1;
        }

        let mut notices: [Option<S::Notice>; CAPACITY] = [
            None, None, None, None, None, None, None, None,
            None, None, None, None, None, None, None, None,
        ];
        let mut i: usize = 0;
        while i < CAPACITY
            invariant
                i <= CAPACITY,
                self.timer.commands() == old(self).timer.commands().push(
                    Command::ClearUpdateInterruptFlag,
                ),
                self.current_deadline == old(self).current_deadline,
                forall|j: int|
                    0 <= j < CAPACITY ==> self.delay_deadlines[j] == advance_delay(
                        old(self).delay_deadlines[j],
                        expired,
                    ),
                forall|j: int|
                    0 <= j < i ==> schedule_advanced(
                        old(self).schedule_deadlines[j],
                        self.schedule_deadlines[j],
                        expired,
                    ),
                forall|j: int|
                    i <= j < CAPACITY ==> self.schedule_deadlines[j] == old(self).schedule_deadlines[j],
                forall|j: int|
                    0 <= j < i ==> notices[j] == due_notice(old(self).schedule_deadlines[j], expired),
                forall|j: int| i <= j < CAPACITY ==> notices[j] is None,
                is_soonest(self.remaining().take(CAPACITY + i), next_deadline),
            decreases CAPACITY - i,
        {
            let ghost seen = self.remaining();
            let ghost soonest = next_deadline;
            match self.schedule_deadlines[i].take() {
                Some(mut deadline) => {
                    let expiration = deadline.get_expiration();
                    if expiration.0 > expired.0 {
                        let remaining = Milliseconds(expiration.0 - expired.0);
                        deadline.set_expiration(remaining);
                        next_deadline = nearer(next_deadline, remaining);
                        self.schedule_deadlines[i] = Some(deadline);
                    } else {
                        notices[i] = Some(deadline.run());
                    }
                },
                None => {},
            }
            proof {
                lemma_soonest_extend(seen, self.remaining(), CAPACITY + i, soonest);
            }
            i += 1;
        }
        proof {
            assert(self.remaining().take(2 * CAPACITY) == self.remaining());
        }

        let ghost reconciled = self.remaining();
        match next_deadline {
            Some(next) => {
                self.current_deadline = Some(next);
                self.timer.start(next);
            },
            None => {
                self.current_deadline = None;
            },
        }
        proof {
            assert(self.remaining() == reconciled);
        }
        Expired { resumers, notices }
    }

    /// The handler of the peripheral's interrupt: reconciles all slots with
    /// the countdown that has just elapsed, wakes the resumers of the delays
    /// that are over, and returns the notices of the schedules that are over
    /// for delivery, each at the index of its slot.
    pub fn on_interrupt(&mut self) -> (fired: [Option<S::Notice>; CAPACITY])
        requires
            old(self).deadline() is Some,
        ensures
            final(self).reconciles(*old(self)),
            forall|i: int|
                0 <= i < CAPACITY ==> fired[i] == due_notice(
                    old(self).schedule_slot(i),
                    old(self).deadline()->0,
                ),
    {
        let Expired { resumers, notices } = self.reconcile();
        let mut resumers = resumers;
        let mut i: usize = 0;
        while i < CAPACITY
            invariant
                i <= CAPACITY,
            decreases CAPACITY - i,
        {
            match resumers[i].take() {
                Some(waker) => wake(waker),
                None => {},
            }
            i += 1;
        }
        notices
    }
}

/// The sooner of `deadline` and `remaining`.
fn nearer(deadline: Option<Milliseconds>, remaining: Milliseconds) -> (next: Option<Milliseconds>)
    ensures
        next == sooner(deadline, Some(remaining)),
{
    match deadline {
        None => Some(remaining),
        Some(soonest) => if soonest.0 > remaining.0 {
            Some(remaining)
        } else {
            Some(soonest)
        },
    }
}

impl<T: HalTimer, S: Schedulable> Actor for Timer<T, S> {
    type Configuration = ();

    type Startup = ();

    /// The timer has no collaborators: mounting leaves it as it is.
    fn on_mount(self, address: Address<Self>, config: ()) -> (mounted: Self)
        ensures
            mounted == self,
    {
        self
    }

    /// The timer has nothing to do before its first request.
    fn on_start(self) -> (started: (Completion<Self>, ()))
        ensures
            started.0 == Completion::Immediate(self),
    {
        (Completion::immediate(self), ())
    }
}

impl<T: HalTimer, S: Schedulable> NotificationHandler<Lifecycle> for Timer<T, S> {
    type Outbox = ();

    /// The timer goes through its life without anything to do.
    fn on_notification(self, message: Lifecycle) -> (handled: (Completion<Self>, ()))
        ensures
            handled.0 == Completion::Immediate(self),
    {
        (Completion::immediate(self), ())
    }
}

impl<T: HalTimer, S: Schedulable> RequestHandler<Delay> for Timer<T, S> {
    type Response = Result<DelayFuture, NoCapacity>;

    open spec fn accepts_request(&self, message: &Delay) -> bool {
        true
    }

    /// Takes the first free delay slot for the requested time and answers
    /// with the awaitable bound to it, or with `NoCapacity` if no slot is
    /// free.
    fn on_request(self, message: Delay) -> (response: Response<Self, Result<DelayFuture, NoCapacity>>)
        ensures
            response.completion is Immediate,
            self.delay_requested(message.0, response.completion.actor(), response.value),
            self.wf() ==> response.completion.actor().wf(),
    {
        let mut timer = self;
        let ms = message.0;
        match timer.free_delay_slot() {
            Some(index) => {
                timer.delay_deadlines[index] = Some(DelayDeadline::new(ms));
                timer.arm(ms);
                proof {
                    assert(timer.remaining() == self.remaining().update(index as int, Some(ms)));
                    if self.wf() {
                        self.lemma_request_keeps_wf(timer, index as int, ms);
                    }
                }
                Response::immediate(timer, Ok(DelayFuture::new(index)))
            },
            None => Response::immediate(timer, Err(NoCapacity)),
        }
    }
}

impl<T: HalTimer, A, E> NotificationHandler<Schedule<A, E>> for Timer<T, ScheduleDeadline<E>> {
    type Outbox = Result<(), NoCapacity>;

    open spec fn accepts_notification(&self, message: &Schedule<A, E>) -> bool {
        true
    }

    /// Takes the first free schedule slot for the schedule, or reports
    /// `NoCapacity` if no slot is free.
    fn on_notification(self, message: Schedule<A, E>) -> (handled: (
        Completion<Self>,
        Result<(), NoCapacity>,
    ))
        ensures
            handled.0 is Immediate,
            self.scheduled(
                ScheduleDeadline {
                    expiration: message.delay,
                    destination: message.address.context(),
                    event: message.event,
                },
                handled.0.actor(),
                handled.1,
            ),
            self.wf() ==> handled.0.actor().wf(),
    {
        let mut timer = self;
        let ms = message.delay;
        match timer.free_schedule_slot() {
            Some(index) => {
                timer.schedule_deadlines[index] = Some(ScheduleDeadline::new(ms, message));
                timer.arm(ms);
                proof {
                    assert(timer.remaining() == self.remaining().update(
                        CAPACITY + index,
                        Some(ms),
                    ));
                    assert(self.schedule_slot(index as int) is None);
                    if self.wf() {
                        self.lemma_request_keeps_wf(timer, CAPACITY + index, ms);
                    }
                }
                (Completion::immediate(timer), Ok(()))
            },
            None => (Completion::immediate(timer), Err(NoCapacity)),
        }
    }
}

impl<T: HalTimer, S: Schedulable> Address<Timer<T, S>> {
    /// The request to the timer to be resumed after `duration`.
    pub fn delay(&self, duration: Milliseconds) -> (request: Request<Timer<T, S>, Delay>)
        ensures
            request == (Request { destination: *self, message: Delay(duration) }),
    {
        self.request(Delay(duration))
    }
}

impl<T: HalTimer, E> Address<Timer<T, ScheduleDeadline<E>>> {
    /// The notification to the timer to notify the actor at `address` of
    /// `event` after `delay`.
    pub fn schedule<A>(&self, delay: Milliseconds, event: E, address: Address<A>) -> (notification:
        Notification<Timer<T, ScheduleDeadline<E>>, Schedule<A, E>>) where A: NotificationHandler<E>
        ensures
            notification == (Notification {
                destination: *self,
                message: Schedule { delay, event, address },
            }),
    {
        self.notify(Schedule::new(delay, event, address))
    }
}

} // verus!
