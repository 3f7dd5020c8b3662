//! Actors that drive peripherals.

pub mod led;
pub mod sensor;
pub mod spi;
pub mod timer;
