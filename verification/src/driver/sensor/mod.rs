//! Sensor drivers.

pub mod hts221;
