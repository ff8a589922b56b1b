//! The driver's state and what it computes from the bytes it reads.
//!
//! The bus transfers themselves are made around this module: it decides
//! what to write and turns what was read into values.
use vstd::prelude::*;
use crate::calibration::{
    centidegrees, datasheet_calibration, lemma_datasheet_pressure_in_range,
    lemma_datasheet_temperature_in_range, CalibrationData,
};
use crate::config::Bmp280Address;

verus! {

/// A compensated measurement from the BMP280.
#[derive(Debug, Clone, Copy, Default, PartialEq, Eq, Structural)]
pub struct Bmp280Data {
    /// Temperature in hundredths of a degree Celsius (e.g. `2315` = 23.15 °C).
    pub temperature_cdeg: i32,
    /// Pressure in Pa × 256 (Q24.8); divide by 256 for pascals.
    pub pressure_pa256: u32,
}

/// The 20-bit ADC value held in a `msb`, `lsb`, `xlsb` register triple
/// (the low nibble of `xlsb` is unused).
pub open spec fn adc20(msb: u8, lsb: u8, xlsb: u8) -> u32 {
    (msb * 4096 + lsb * 16 + xlsb / 16) as u32
}

fn adc_value(msb: u8, lsb: u8, xlsb: u8) -> (r: u32)
    ensures
        r == adc20(msb, lsb, xlsb),
{
    let r: u32 = ((msb as u32) << 12u32) | ((lsb as u32) << 4u32) | ((xlsb as u32) >> 4u32);
    assert(r == msb * 4096 + lsb * 16 + xlsb / 16) by (bit_vector)
        requires
            r == ((msb as u32) << 12u32) | ((lsb as u32) << 4u32) | ((xlsb as u32) >> 4u32),
    ;
    r
}

/// The raw pressure word of a 6-byte burst read from `REG_PRESS_MSB`.
pub open spec fn burst_pressure(raw: [u8; 6]) -> u32 {
    adc20(raw[0], raw[1], raw[2])
}

/// The raw temperature word of a 6-byte burst read from `REG_PRESS_MSB`.
pub open spec fn burst_temperature(raw: [u8; 6]) -> u32 {
    adc20(raw[3], raw[4], raw[5])
}

/// Both compensations can run without overflow on these raw words.
pub open spec fn measurement_computable(calib: CalibrationData, raw_p: u32, raw_t: u32) -> bool {
    &&& calib.temperature_computable(raw_t)
    &&& calib.pressure_computable(raw_p, calib.t_fine(raw_t))
}

/// The measurement that the raw words give: the compensated temperature,
/// and the compensated pressure or 0 when the pressure formula has no result.
pub open spec fn measurement(calib: CalibrationData, raw_p: u32, raw_t: u32) -> Bmp280Data {
    Bmp280Data {
        temperature_cdeg: centidegrees(calib.t_fine(raw_t)) as i32,
        pressure_pa256: match calib.compensated_pressure(raw_p, calib.t_fine(raw_t)) {
            Some(p) => p,
            None => 0,
        },
    }
}

/// With a real sensor's calibration, every 6-byte burst is measured: the
/// overflow that `measure` refuses never occurs for any pair of 20-bit raw
/// words, and the pressure formula always has a divisor.
pub proof fn lemma_datasheet_measures_every_burst(raw: [u8; 6])
    ensures
        burst_pressure(raw) < 0x10_0000,
        burst_temperature(raw) < 0x10_0000,
        measurement_computable(datasheet_calibration(), burst_pressure(raw), burst_temperature(raw)),
        datasheet_calibration().compensated_pressure(
            burst_pressure(raw),
            datasheet_calibration().t_fine(burst_temperature(raw)),
        ) is Some,
{
    let raw_p = burst_pressure(raw);
    let raw_t = burst_temperature(raw);
    lemma_datasheet_temperature_in_range(raw_t);
    lemma_datasheet_pressure_in_range(raw_p, datasheet_calibration().t_fine(raw_t));
}

/// The BMP280 driver: the bus, the device's address and its calibration.
///
/// A driver only ever holds a calibration that passed the start-up check
/// (`dig_T1 != 0`), and no operation replaces it.
pub struct Bmp280<I2C> {
    i2c: I2C,
    device: Device,
}

/// What the driver knows of the device: its address and its calibration.
struct Device {
    addr: u8,
    calib: CalibrationData,
}

impl Device {
    /// The calibration held is one the start-up would accept.
    #[verifier::type_invariant]
    spec fn calibration_accepted(self) -> bool {
        self.calib.dig_t1 != 0
    }
}

impl<I2C> Bmp280<I2C> {
    /// The bus address the driver talks to.
    pub closed spec fn bus_address(&self) -> u8 {
        self.device.addr
    }

    /// The calibration the driver compensates with.
    pub closed spec fn calibration_data(&self) -> CalibrationData {
        self.device.calib
    }

    /// The bus the driver owns.
    pub closed spec fn bus(&self) -> I2C {
        self.i2c
    }

    /// A driver over `i2c` for the device at `addr` with calibration `calib`,
    /// which must be one the start-up accepts (`dig_T1 != 0`).
    pub fn from_parts(i2c: I2C, addr: Bmp280Address, calib: CalibrationData) -> (r: Self)
        requires
            calib.dig_t1 != 0,
        ensures
            r.bus() == i2c,
            r.bus_address() == addr.bus_address(),
            r.calibration_data() == calib,
    {
        Bmp280 { i2c, device: Device { addr: addr.into(), calib } }
    }

    /// The bus address the driver talks to.
    pub fn address(&self) -> (r: u8)
        ensures
            r == self.bus_address(),
    {
        self.device.addr
    }

    /// The calibration the driver compensates with.
    pub fn calibration(&self) -> (r: CalibrationData)
        ensures
            r == self.calibration_data(),
            r.dig_t1 != 0,
    {
        proof {
            use_type_invariant(&self.device);
        }
        self.device.calib
    }

    /// The bus, for a transfer.
    pub fn bus_mut(&mut self) -> (r: &mut I2C)
        ensures
            *r == old(self).bus(),
            final(self).bus() == *final(r),
            final(self).bus_address() == old(self).bus_address(),
            final(self).calibration_data() == old(self).calibration_data(),
    {
        &mut self.i2c
    }

    /// Changes the I2C address dynamically (e.g. after a new detection).
    pub fn set_address(&mut self, addr: Bmp280Address)
        ensures
            final(self).bus_address() == addr.bus_address(),
            final(self).bus() == old(self).bus(),
            final(self).calibration_data() == old(self).calibration_data(),
    {
        proof {
            use_type_invariant(&self.device);
        }
        self.device.addr = addr.into();
    }

    /// The measurement in a 6-byte burst read from `REG_PRESS_MSB`
    /// (pressure bytes, then temperature bytes, as the datasheet orders
    /// them), compensated with the driver's calibration.  The pressure is 0
    /// when its formula has no result.  `None` exactly where the
    /// compensation's arithmetic would overflow.
    pub fn measure(&self, raw: &[u8; 6]) -> (r: Option<Bmp280Data>)
        ensures
            r is Some <==> measurement_computable(
                self.calibration_data(),
                burst_pressure(*raw),
                burst_temperature(*raw),
            ),
            self.calibration_data().dig_t1 != 0,
            r is Some ==> r->0 == measurement(
                self.calibration_data(),
                burst_pressure(*raw),
                burst_temperature(*raw),
            ),
    {
        proof {
            use_type_invariant(&self.device);
        }
        let raw_p: u32 = adc_value(raw[0], raw[1], raw[2]);
        let raw_t: u32 = adc_value(raw[3], raw[4], raw[5]);
        if !self.device.calib.can_compensate_temperature(raw_t) {
            return None;
        }
        let (temperature_cdeg, t_fine) = self.device.calib.compensate_temperature(raw_t);
        if !self.device.calib.can_compensate_pressure(raw_p, t_fine) {
            return None;
        }
        let pressure_pa256: u32 = match self.device.calib.compensate_pressure(raw_p, t_fine) {
            Some(p) => p,
            None => 0,
        };
        Some(Bmp280Data { temperature_cdeg, pressure_pa256 })
    }
}

} // verus!
