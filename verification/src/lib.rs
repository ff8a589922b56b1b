//! # embassy_bmp280
//!
//! Driver logic for the Bosch BMP280 pressure/temperature sensor: the
//! factory calibration and Bosch's integer compensation formulas, the
//! register bytes that configure the sensor, and the start-up sequence as a
//! state machine.  Every function here is verified; the bus transfers
//! (I2C, delays) are made by the caller, which feeds the results back.
//!
//! Temperatures are in °C × 100 (`2315` = 23.15 °C), pressures in
//! Pa × 256 (Q24.8).
pub mod arith;
pub mod calibration;
pub mod config;
pub mod driver;
pub mod error;
pub mod init;

pub use calibration::CalibrationData;
pub use config::{Bmp280Address, Bmp280Config, OversamplingPress, OversamplingTemp, PowerMode};
pub use driver::{Bmp280, Bmp280Data};
pub use error::Bmp280Error;
