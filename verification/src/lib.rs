//! A cooperative actor runtime for single-core microcontrollers.
//!
//! Actors own their state and talk to each other through typed messages that
//! are stamped with the [`address::Address`] of their destination. Handlers
//! consume the actor and hand it back, so holding the actor value is what
//! grants access to it. Messages that a handler wants to send on are returned
//! to whoever dispatched the message, which routes them to their contexts.

pub mod actor;
pub mod arbitrator;
pub mod address;
pub mod handler;
pub mod time;
pub mod hal;
pub mod driver;
