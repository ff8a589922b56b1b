//! Register map, bus address, oversampling, power mode and the `ctrl_meas`
//! register byte that encodes them.
use vstd::prelude::*;

verus! {

/// First calibration register (0x88..0x9F hold the 24 calibration bytes).
pub const REG_CALIB_START: u8 = 0x88;
/// Chip identification register.
pub const REG_CHIP_ID: u8 = 0xD0;
/// Soft reset register.
pub const REG_RESET: u8 = 0xE0;
/// Measurement control register: `[7:5] osrs_t | [4:2] osrs_p | [1:0] mode`.
pub const REG_CTRL_MEAS: u8 = 0xF4;
/// Configuration register (standby time, IIR filter).
pub const REG_CONFIG: u8 = 0xF5;
/// First data register: pressure then temperature, three bytes each.
pub const REG_PRESS_MSB: u8 = 0xF7;
/// Chip ID of a BMP280.
pub const CHIP_ID_BMP280: u8 = 0x58;
/// Chip ID of a BME280, a compatible variant.
pub const CHIP_ID_BME280: u8 = 0x60;
/// Word that triggers a soft reset when written to `REG_RESET`.
pub const RESET_WORD: u8 = 0xB6;

/// I2C address of the BMP280.
#[derive(Debug, Clone, Copy, PartialEq, Eq, Structural)]
pub enum Bmp280Address {
    /// SDO tied to GND: 0x76 (factory default).
    Default,
    /// SDO tied to VCC: 0x77.
    Secondary,
    /// Any other address.
    Custom(u8),
}

impl Bmp280Address {
    /// The 7-bit bus address this choice stands for.
    pub open spec fn bus_address(self) -> u8 {
        match self {
            Bmp280Address::Default => 0x76,
            Bmp280Address::Secondary => 0x77,
            Bmp280Address::Custom(v) => v,
        }
    }
}

impl From<Bmp280Address> for u8 {
    fn from(a: Bmp280Address) -> (r: u8) {
        match a {
            Bmp280Address::Default => 0x76,
            Bmp280Address::Secondary => 0x77,
            Bmp280Address::Custom(v) => v,
        }
    }
}

impl vstd::std_specs::convert::FromSpecImpl<Bmp280Address> for u8 {
    open spec fn obeys_from_spec() -> bool {
        true
    }

    open spec fn from_spec(a: Bmp280Address) -> u8 {
        a.bus_address()
    }
}

/// Temperature oversampling.
#[derive(Debug, Clone, Copy, PartialEq, Eq, Structural)]
pub enum OversamplingTemp {
    Skip,
    X1,
    X2,
    X4,
    X8,
    X16,
}

impl OversamplingTemp {
    /// The `osrs_t` field value: 0b000 (skipped) to 0b101 (×16).
    pub open spec fn code(self) -> u8 {
        match self {
            OversamplingTemp::Skip => 0,
            OversamplingTemp::X1 => 1,
            OversamplingTemp::X2 => 2,
            OversamplingTemp::X4 => 3,
            OversamplingTemp::X8 => 4,
            OversamplingTemp::X16 => 5,
        }
    }

    /// The `osrs_t` field value of this setting.
    pub fn bits(self) -> (r: u8)
        ensures
            r == self.code(),
    {
        match self {
            OversamplingTemp::Skip => 0,
            OversamplingTemp::X1 => 1,
            OversamplingTemp::X2 => 2,
            OversamplingTemp::X4 => 3,
            OversamplingTemp::X8 => 4,
            OversamplingTemp::X16 => 5,
        }
    }
}

/// Pressure oversampling.
#[derive(Debug, Clone, Copy, PartialEq, Eq, Structural)]
pub enum OversamplingPress {
    Skip,
    X1,
    X2,
    X4,
    X8,
    X16,
}

impl OversamplingPress {
    /// The `osrs_p` field value: 0b000 (skipped) to 0b101 (×16).
    pub open spec fn code(self) -> u8 {
        match self {
            OversamplingPress::Skip => 0,
            OversamplingPress::X1 => 1,
            OversamplingPress::X2 => 2,
            OversamplingPress::X4 => 3,
            OversamplingPress::X8 => 4,
            OversamplingPress::X16 => 5,
        }
    }

    /// The `osrs_p` field value of this setting.
    pub fn bits(self) -> (r: u8)
        ensures
            r == self.code(),
    {
        match self {
            OversamplingPress::Skip => 0,
            OversamplingPress::X1 => 1,
            OversamplingPress::X2 => 2,
            OversamplingPress::X4 => 3,
            OversamplingPress::X8 => 4,
            OversamplingPress::X16 => 5,
        }
    }
}

/// Operating mode.
#[derive(Debug, Clone, Copy, PartialEq, Eq, Structural)]
pub enum PowerMode {
    /// No measurement; saves power.
    Sleep,
    /// One measurement, then back to sleep.
    Forced,
    /// Continuous measurements.
    Normal,
}

impl PowerMode {
    /// The `mode` field value: 0b00, 0b01 or 0b11.
    pub open spec fn code(self) -> u8 {
        match self {
            PowerMode::Sleep => 0,
            PowerMode::Forced => 1,
            PowerMode::Normal => 3,
        }
    }

    /// The `mode` field value of this mode.
    pub fn bits(self) -> (r: u8)
        ensures
            r == self.code(),
    {
        match self {
            PowerMode::Sleep => 0,
            PowerMode::Forced => 1,
            PowerMode::Normal => 3,
        }
    }
}

/// Full sensor configuration.
#[derive(Debug, Clone, Copy)]
pub struct Bmp280Config {
    pub temp_os: OversamplingTemp,
    pub press_os: OversamplingPress,
    pub mode: PowerMode,
}

impl Default for Bmp280Config {
    /// Balance between performance and consumption: oversampling ×1, normal mode.
    fn default() -> (r: Self)
        ensures
            r == (Bmp280Config {
                temp_os: OversamplingTemp::X1,
                press_os: OversamplingPress::X1,
                mode: PowerMode::Normal,
            }),
    {
        Bmp280Config {
            temp_os: OversamplingTemp::X1,
            press_os: OversamplingPress::X1,
            mode: PowerMode::Normal,
        }
    }
}

/// The `ctrl_meas` byte with its mode field replaced by `mode` and its
/// oversampling fields (bits 7..2) kept.
pub open spec fn ctrl_with_mode(ctrl: int, mode: PowerMode) -> int {
    ctrl - ctrl % 4 + mode.code()
}

impl Bmp280Config {
    /// The `ctrl_meas` byte of this configuration:
    /// `osrs_t` in bits 7..5, `osrs_p` in bits 4..2, `mode` in bits 1..0.
    pub open spec fn ctrl_meas_value(self) -> int {
        self.temp_os.code() * 32 + self.press_os.code() * 4 + self.mode.code()
    }

    /// The byte written to `ctrl_meas` to apply this configuration.
    pub fn ctrl_meas(&self) -> (r: u8)
        ensures
            r == self.ctrl_meas_value(),
            r / 32 == self.temp_os.code(),
            r / 4 % 8 == self.press_os.code(),
            r % 4 == self.mode.code(),
    {
        let t: u8 = self.temp_os.bits();
        let p: u8 = self.press_os.bits();
        let m: u8 = self.mode.bits();
        let r: u8 = (t << 5u8) | (p << 2u8) | m;
        assert(r == t * 32 + p * 4 + m) by (bit_vector)
            requires
                t <= 5,
                p <= 5,
                m <= 3,
                r == (t << 5u8) | (p << 2u8) | m,
        ;
        r
    }
}

/// The `ctrl_meas` byte after a change of mode alone: the oversampling bits
/// of `current` are kept and the two mode bits replaced.
pub fn ctrl_meas_with_mode(current: u8, mode: PowerMode) -> (r: u8)
    ensures
        r == ctrl_with_mode(current as int, mode),
        r / 4 == current / 4,
        r % 4 == mode.code(),
{
    let m: u8 = mode.bits();
    let r: u8 = (current & 0b1111_1100u8) | m;
    assert(r == current - current % 4 + m) by (bit_vector)
        requires
            m <= 3,
            r == (current & 0b1111_1100u8) | m,
    ;
    r
}

/// The fields of the `ctrl_meas` byte carry the datasheet's codes, for
/// every setting: `osrs_t` (bits 7..5) and `osrs_p` (bits 4..2) are
/// 0b000 skipped, 0b001 ×1, 0b010 ×2, 0b011 ×4, 0b100 ×8, 0b101 ×16;
/// `mode` (bits 1..0) is 0b00 sleep, 0b01 forced, 0b11 normal.
pub proof fn lemma_ctrl_meas_datasheet_codes(config: Bmp280Config)
    ensures
        ({
            let osrs_t = config.ctrl_meas_value() / 32;
            &&& config.temp_os == OversamplingTemp::Skip ==> osrs_t == 0
            &&& config.temp_os == OversamplingTemp::X1 ==> osrs_t == 1
            &&& config.temp_os == OversamplingTemp::X2 ==> osrs_t == 2
            &&& config.temp_os == OversamplingTemp::X4 ==> osrs_t == 3
            &&& config.temp_os == OversamplingTemp::X8 ==> osrs_t == 4
            &&& config.temp_os == OversamplingTemp::X16 ==> osrs_t == 5
        }),
        ({
            let osrs_p = config.ctrl_meas_value() / 4 % 8;
            &&& config.press_os == OversamplingPress::Skip ==> osrs_p == 0
            &&& config.press_os == OversamplingPress::X1 ==> osrs_p == 1
            &&& config.press_os == OversamplingPress::X2 ==> osrs_p == 2
            &&& config.press_os == OversamplingPress::X4 ==> osrs_p == 3
            &&& config.press_os == OversamplingPress::X8 ==> osrs_p == 4
            &&& config.press_os == OversamplingPress::X16 ==> osrs_p == 5
        }),
        ({
            let mode = config.ctrl_meas_value() % 4;
            &&& config.mode == PowerMode::Sleep ==> mode == 0
            &&& config.mode == PowerMode::Forced ==> mode == 1
            &&& config.mode == PowerMode::Normal ==> mode == 3
        }),
{
}

/// Changing the mode of the byte that a configuration writes gives the byte
/// of the same configuration with that mode: `set_mode` leaves the
/// oversampling chosen at start-up untouched.
pub proof fn lemma_mode_change_keeps_oversampling(config: Bmp280Config, mode: PowerMode)
    ensures
        ctrl_with_mode(config.ctrl_meas_value(), mode) == (Bmp280Config {
            mode: mode,
            ..config
        }).ctrl_meas_value(),
{
}

/// Only the last of two mode changes counts.
pub proof fn lemma_mode_change_last_wins(ctrl: u8, first: PowerMode, second: PowerMode)
    ensures
        ctrl_with_mode(ctrl_with_mode(ctrl as int, first), second) == ctrl_with_mode(
            ctrl as int,
            second,
        ),
{
}

/// Two configurations that write the same `ctrl_meas` byte are the same
/// configuration: the byte determines every field.
pub proof fn lemma_ctrl_meas_injective(a: Bmp280Config, b: Bmp280Config)
    requires
        a.ctrl_meas_value() == b.ctrl_meas_value(),
    ensures
        a == b,
{
}

} // verus!
