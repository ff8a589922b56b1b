use embassy_bmp280::calibration::CalibrationData;
use embassy_bmp280::driver::Bmp280Data;
use embassy_bmp280::{Bmp280, Bmp280Address};

/// Calibration of the worked example in the BMP280 datasheet.
fn datasheet_calibration() -> CalibrationData {
    CalibrationData {
        dig_t1: 27504,
        dig_t2: 26435,
        dig_t3: -1000,
        dig_p1: 36477,
        dig_p2: -10685,
        dig_p3: 3024,
        dig_p4: 2855,
        dig_p5: 140,
        dig_p6: -7,
        dig_p7: 15500,
        dig_p8: -14600,
        dig_p9: 6000,
    }
}

/// The same calibration as the 24 bytes of registers 0x88..0x9F.
const DATASHEET_RAW: [u8; 24] = [
    112, 107, 67, 103, 24, 252, 125, 142, 67, 214, 208, 11, 39, 11, 140, 0, 249, 255, 140, 60, 248,
    198, 112, 23,
];

#[test]
fn from_raw_decodes_little_endian_words() {
    let c = CalibrationData::from_raw(&DATASHEET_RAW);
    let d = datasheet_calibration();
    assert_eq!(c.dig_t1, d.dig_t1);
    assert_eq!(c.dig_t2, d.dig_t2);
    assert_eq!(c.dig_t3, d.dig_t3);
    assert_eq!(c.dig_p1, d.dig_p1);
    assert_eq!(c.dig_p2, d.dig_p2);
    assert_eq!(c.dig_p3, d.dig_p3);
    assert_eq!(c.dig_p4, d.dig_p4);
    assert_eq!(c.dig_p5, d.dig_p5);
    assert_eq!(c.dig_p6, d.dig_p6);
    assert_eq!(c.dig_p7, d.dig_p7);
    assert_eq!(c.dig_p8, d.dig_p8);
    assert_eq!(c.dig_p9, d.dig_p9);
}

#[test]
fn from_raw_unsigned_and_signed_extremes() {
    let mut raw = [0u8; 24];
    raw[0] = 0xFF;
    raw[1] = 0xFF;
    raw[2] = 0xFF;
    raw[3] = 0xFF;
    raw[4] = 0x00;
    raw[5] = 0x80;
    raw[6] = 0x34;
    raw[7] = 0x12;
    let c = CalibrationData::from_raw(&raw);
    assert_eq!(c.dig_t1, 65535);
    assert_eq!(c.dig_t2, -1);
    assert_eq!(c.dig_t3, -32768);
    assert_eq!(c.dig_p1, 0x1234);
    assert_eq!(c.dig_p9, 0);
}

#[test]
fn temperature_of_datasheet_example() {
    let c = datasheet_calibration();
    assert!(c.can_compensate_temperature(519888));
    assert_eq!(c.compensate_temperature(519888), (2508, 128422));
}

#[test]
fn temperature_is_t_fine_times_5_plus_128_over_256() {
    let c = datasheet_calibration();
    for raw_t in [0u32, 1 << 19, 400_000, 519_888, (1 << 20) - 1] {
        assert!(c.can_compensate_temperature(raw_t));
        let (t, t_fine) = c.compensate_temperature(raw_t);
        assert_eq!(t, (t_fine * 5 + 128) >> 8);
    }
}

#[test]
fn temperature_overflow_is_detected() {
    let mut c = datasheet_calibration();
    c.dig_t1 = 65535;
    c.dig_t2 = 32767;
    // (0 >> 3) - (65535 << 1) = -131070; times 32767 leaves i32.
    assert!(!c.can_compensate_temperature(0));
}

#[test]
fn temperature_of_word_above_i32_max() {
    // A raw word read as a negative i32.
    let c = CalibrationData { dig_t1: 1, dig_t2: 1, dig_t3: 0, ..datasheet_calibration() };
    assert!(c.can_compensate_temperature(0xFFFF_FFF0));
    // adc = -16: (-16 >> 3) - 2 = -4; (-4 * 1) >> 11 = -1; t_fine = -1.
    assert_eq!(c.compensate_temperature(0xFFFF_FFF0), ((-5 + 128) >> 8, -1));
}

#[test]
fn pressure_of_datasheet_example() {
    let c = datasheet_calibration();
    assert!(c.can_compensate_pressure(415148, 128422));
    let p = c.compensate_pressure(415148, 128422);
    assert_eq!(p, Some(25767233));
    // 100653.25 Pa
    assert_eq!(p.unwrap() / 256, 100653);
}

#[test]
fn pressure_is_none_when_divisor_is_zero() {
    let mut c = datasheet_calibration();
    c.dig_p1 = 0;
    assert!(c.can_compensate_pressure(415148, 128422));
    assert_eq!(c.compensate_pressure(415148, 128422), None);
}

#[test]
fn pressure_overflow_is_detected() {
    let mut c = datasheet_calibration();
    c.dig_p6 = 32767;
    // (t_fine - 128000)^2 * 32767 leaves i64.
    assert!(!c.can_compensate_pressure(415148, i32::MAX));
}

fn datasheet_burst() -> [u8; 6] {
    // raw_p = 415148 = 0x655AC, raw_t = 519888 = 0x7EED0, 20 bits each.
    [0x65, 0x5A, 0xC0, 0x7E, 0xED, 0x00]
}

#[test]
fn measure_decodes_burst_and_compensates() {
    let bmp = Bmp280::from_parts((), Bmp280Address::Default, datasheet_calibration());
    let data = bmp.measure(&datasheet_burst()).unwrap();
    assert_eq!(
        data,
        Bmp280Data { temperature_cdeg: 2508, pressure_pa256: 25767233 }
    );
}

#[test]
fn measure_ignores_low_nibble_of_xlsb() {
    let bmp = Bmp280::from_parts((), Bmp280Address::Default, datasheet_calibration());
    let mut burst = datasheet_burst();
    burst[2] |= 0x0F;
    burst[5] |= 0x0F;
    assert_eq!(bmp.measure(&burst), bmp.measure(&datasheet_burst()));
}

#[test]
fn measure_reports_zero_pressure_without_divisor() {
    let mut c = datasheet_calibration();
    c.dig_p1 = 0;
    let bmp = Bmp280::from_parts((), Bmp280Address::Default, c);
    let data = bmp.measure(&datasheet_burst()).unwrap();
    assert_eq!(data.temperature_cdeg, 2508);
    assert_eq!(data.pressure_pa256, 0);
}

#[test]
fn measure_is_none_on_overflow() {
    let mut c = datasheet_calibration();
    c.dig_t1 = 65535;
    c.dig_t2 = 32767;
    let bmp = Bmp280::from_parts((), Bmp280Address::Default, c);
    assert_eq!(bmp.measure(&[0, 0, 0, 0, 0, 0]), None);
}
