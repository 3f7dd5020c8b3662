//! The registers of the sensor.

pub mod ctrl3;
