//! Contracts between the drivers and the peripherals they own.

pub mod timer;
