//! An actor that blinks a light.
//!
//! The blinker owns neither the light nor the timer. It asks the timer to be
//! notified after its delay; when the notification arrives it switches the
//! light and asks again, for the opposite state.

use vstd::prelude::*;
use crate::address::{Address, Notification};
use crate::driver::led::Switch;
use crate::driver::timer::Schedule;
use crate::handler::{Actor, Completion, NotificationHandler};
use crate::time::Milliseconds;

verus! {

/// The state that the light is to take next.
#[derive(Copy, Clone, Debug, PartialEq, Eq, Structural)]
pub enum State {
    On,
    Off,
}

impl State {
    /// The state after this one.
    pub open spec fn opposite(self) -> State {
        match self {
            State::On => State::Off,
            State::Off => State::On,
        }
    }

    /// What the light is told to take this state.
    pub open spec fn switch(self) -> Switch {
        match self {
            State::On => Switch::On,
            State::Off => Switch::Off,
        }
    }
}

/// The state that the `k`-th notification of a started blinker is of,
/// counted from one: on first, then off and on in turn.
pub open spec fn nth_state(k: nat) -> State {
    if k % 2 == 1 {
        State::On
    } else {
        State::Off
    }
}

/// Blinks the light of the actor `S` by the schedules of the timer actor `T`.
pub struct Blinker<S, T> {
    led: Option<Address<S>>,
    timer: Option<Address<T>>,
    delay: Milliseconds,
    address: Option<Address<Blinker<S, T>>>,
}

/// The notification by which the blinker asks its timer for its next event.
pub type Wakeup<S, T> = Notification<T, Schedule<Blinker<S, T>, State>>;

/// What the blinker sends when it is notified of a state: the light is
/// switched, and the timer is asked for the next notification.
pub struct Blink<S, T> {
    pub led: Notification<S, Switch>,
    pub timer: Wakeup<S, T>,
}

/// The request to blink at another pace.
pub struct AdjustDelay(pub Milliseconds);

impl<S, T> Blinker<S, T> where
    S: NotificationHandler<Switch>,
    T: NotificationHandler<Schedule<Blinker<S, T>, State>>,
{
    /// The time between two changes of the light.
    pub closed spec fn delay(&self) -> Milliseconds {
        self.delay
    }

    /// The light, once the blinker is mounted.
    pub closed spec fn led(&self) -> Option<Address<S>> {
        self.led
    }

    /// The timer, once the blinker is mounted.
    pub closed spec fn timer(&self) -> Option<Address<T>> {
        self.timer
    }

    /// The blinker's own address, once it is mounted.
    pub closed spec fn address(&self) -> Option<Address<Blinker<S, T>>> {
        self.address
    }

    /// The blinker knows its light, its timer and itself.
    pub open spec fn mounted(&self) -> bool {
        self.led() is Some && self.timer() is Some && self.address() is Some
    }

    /// The notification that asks the timer to notify the blinker of `next`
    /// after its delay.
    pub open spec fn wakeup(&self, next: State) -> Wakeup<S, T>
        recommends
            self.mounted(),
    {
        Notification {
            destination: self.timer()->0,
            message: Schedule { delay: self.delay(), event: next, address: self.address()->0 },
        }
    }

    /// What the blinker sends when it is notified of `message`: the light is
    /// told to take that state, and the timer is asked to notify the blinker
    /// of the opposite state after its delay.
    pub open spec fn blink(&self, message: State) -> Blink<S, T>
        recommends
            self.mounted(),
    {
        Blink {
            led: Notification { destination: self.led()->0, message: message.switch() },
            timer: self.wakeup(message.opposite()),
        }
    }

    /// The wakeup that the blinker has asked for once it has started and `k`
    /// notifications have come back to it: the one asked for at the start,
    /// then the one asked for on the notification that the wakeup before
    /// has led to.
    pub open spec fn wakeup_after(&self, k: nat) -> Wakeup<S, T>
        recommends
            self.mounted(),
        decreases k,
    {
        if k == 0 {
            self.wakeup(State::On)
        } else {
            self.blink(self.wakeup_after((k - 1) as nat).message.event).timer
        }
    }

    /// The stream of a started blinker neither ends nor multiplies, and it
    /// alternates: the `k`-th notification, which the wakeup before it has
    /// asked for, is of the state on for odd `k` and off for even `k`, comes
    /// by the blinker's timer after the blinker's delay, and is addressed to
    /// the blinker. Handling it tells the light to take that state and asks
    /// for one wakeup more, that of the `k + 1`-th notification.
    pub proof fn lemma_alternating_stream(self, k: nat)
        requires
            self.mounted(),
            k >= 1,
        ensures
            self.wakeup_after((k - 1) as nat) == self.wakeup(nth_state(k)),
            self.blink(nth_state(k)).led == (Notification {
                destination: self.led()->0,
                message: nth_state(k).switch(),
            }),
            self.blink(nth_state(k)).timer == self.wakeup_after(k),
            self.wakeup_after(k) == self.wakeup(nth_state(k + 1)),
        decreases k,
    {
        let before = (k - 1) as nat;
        if k > 1 {
            self.lemma_alternating_stream(before);
        } else {
            assert(self.wakeup_after(before) == self.wakeup(State::On));
        }
        assert(self.wakeup_after(k) == self.blink(self.wakeup_after(before).message.event).timer);
    }

    /// A blinker that changes the light every `delay`, not mounted yet.
    pub fn new(delay: Milliseconds) -> (blinker: Self)
        ensures
            blinker.delay() == delay,
            blinker.led() is None,
            blinker.timer() is None,
            blinker.address() is None,
    {
        Blinker { led: None, timer: None, delay, address: None }
    }

    /// Whether the blinker knows its light, its timer and itself.
    pub fn is_mounted(&self) -> (mounted: bool)
        ensures
            mounted == self.mounted(),
    {
        self.led.is_some() && self.timer.is_some() && self.address.is_some()
    }

    /// The time between two changes of the light.
    pub fn period(&self) -> (delay: Milliseconds)
        ensures
            delay == self.delay(),
    {
        self.delay
    }
}

impl<S, T> Actor for Blinker<S, T> where
    S: NotificationHandler<Switch>,
    T: NotificationHandler<Schedule<Blinker<S, T>, State>>,
{
    type Configuration = (Address<S>, Address<T>);

    type Startup = Wakeup<S, T>;

    open spec fn startable(&self) -> bool {
        self.mounted()
    }

    /// Tells the blinker its own address, and those of its light and timer.
    fn on_mount(self, address: Address<Self>, config: (Address<S>, Address<T>)) -> (mounted: Self)
        ensures
            mounted.address() == Some(address),
            mounted.led() == Some(config.0),
            mounted.timer() == Some(config.1),
            mounted.delay() == self.delay(),
    {
        let mut blinker = self;
        blinker.address = Some(address);
        blinker.led = Some(config.0);
        blinker.timer = Some(config.1);
        blinker
    }

    /// Starts blinking: asks the timer for the first notification, to switch
    /// the light on.
    fn on_start(self) -> (started: (Completion<Self>, Wakeup<S, T>))
        ensures
            started.0 == Completion::Immediate(self),
            started.1 == self.wakeup_after(0),
    {
        let wakeup = self.timer.unwrap().notify(
            Schedule::new(self.delay, State::On, self.address.unwrap()),
        );
        (Completion::immediate(self), wakeup)
    }
}

impl<S, T> NotificationHandler<State> for Blinker<S, T> where
    S: NotificationHandler<Switch>,
    T: NotificationHandler<Schedule<Blinker<S, T>, State>>,
{
    type Outbox = Blink<S, T>;

    open spec fn accepts_notification(&self, message: &State) -> bool {
        self.mounted()
    }

    /// Switches the light to the state in `message`, and asks the timer for
    /// the notification of the opposite state.
    fn on_notification(self, message: State) -> (handled: (Completion<Self>, Blink<S, T>))
        ensures
            handled.0 == Completion::Immediate(self),
            handled.1 == self.blink(message),
    {
        let blink = match message {
            State::On => Blink {
                led: self.led.unwrap().turn_on(),
                timer: self.timer.unwrap().notify(
                    Schedule::new(self.delay, State::Off, self.address.unwrap()),
                ),
            },
            State::Off => Blink {
                led: self.led.unwrap().turn_off(),
                timer: self.timer.unwrap().notify(
                    Schedule::new(self.delay, State::On, self.address.unwrap()),
                ),
            },
        };
        (Completion::immediate(self), blink)
    }
}

impl<S, T> NotificationHandler<AdjustDelay> for Blinker<S, T> where
    S: NotificationHandler<Switch>,
    T: NotificationHandler<Schedule<Blinker<S, T>, State>>,
{
    type Outbox = ();

    open spec fn accepts_notification(&self, message: &AdjustDelay) -> bool {
        true
    }

    /// Takes the delay in `message` as the time between two changes, from
    /// the next schedule on.
    fn on_notification(self, message: AdjustDelay) -> (handled: (Completion<Self>, ()))
        ensures
            handled.0 is Immediate,
            handled.0.actor().delay() == message.0,
            handled.0.actor().led() == self.led(),
            handled.0.actor().timer() == self.timer(),
            handled.0.actor().address() == self.address(),
    {
        let mut blinker = self;
        blinker.delay = message.0;
        (Completion::immediate(blinker), ())
    }
}

impl<S, T> Address<Blinker<S, T>> where
    S: NotificationHandler<Switch>,
    T: NotificationHandler<Schedule<Blinker<S, T>, State>>,
{
    /// The notification to the blinker to blink at the pace of `delay`.
    pub fn adjust_delay(&self, delay: Milliseconds) -> (notification: Notification<
        Blinker<S, T>,
        AdjustDelay,
    >)
        ensures
            notification == (Notification { destination: *self, message: AdjustDelay(delay) }),
    {
        self.notify(AdjustDelay(delay))
    }
}

} // verus!
