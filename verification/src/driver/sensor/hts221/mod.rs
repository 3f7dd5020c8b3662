//! The HTS221 humidity and temperature sensor.

pub mod register;
