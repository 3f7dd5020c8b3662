//! Actors around a light that can be switched.

pub mod blinker;

use vstd::prelude::*;
use crate::address::{Address, Notification};
use crate::handler::NotificationHandler;

verus! {

/// What a switchable actor is told.
#[derive(Debug, Copy, Clone, PartialEq, Eq, Structural)]
pub enum Switch {
    On,
    Off,
}

impl<S: NotificationHandler<Switch>> Address<S> {
    /// The notification to the actor to switch on.
    pub fn turn_on(&self) -> (notification: Notification<S, Switch>)
        ensures
            notification == (Notification { destination: *self, message: Switch::On }),
    {
        self.notify(Switch::On)
    }

    /// The notification to the actor to switch off.
    pub fn turn_off(&self) -> (notification: Notification<S, Switch>)
        ensures
            notification == (Notification { destination: *self, message: Switch::Off }),
    {
        self.notify(Switch::Off)
    }
}

} // verus!
