//! Error type of the BMP280 driver.
use vstd::prelude::*;

verus! {

/// What can go wrong with the driver.
#[derive(Debug, Clone, Copy, PartialEq, Eq)]
pub enum Bmp280Error<E> {
    /// The underlying I2C communication failed.
    I2c(E),
    /// The chip ID that was read is not a BMP280's (0x58) nor a BME280's (0x60);
    /// holds the ID that was received.
    InvalidChipId(u8),
    /// The calibration data read is invalid (e.g. `dig_T1 == 0`).
    InvalidCalibration,
}

impl<E> From<E> for Bmp280Error<E> {
    fn from(e: E) -> (r: Self) {
        Bmp280Error::I2c(e)
    }
}

impl<E> vstd::std_specs::convert::FromSpecImpl<E> for Bmp280Error<E> {
    open spec fn obeys_from_spec() -> bool {
        true
    }

    open spec fn from_spec(e: E) -> Self {
        Bmp280Error::I2c(e)
    }
}

} // verus!
