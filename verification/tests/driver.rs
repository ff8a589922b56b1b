use embassy_bmp280::config::{ctrl_meas_with_mode, REG_CTRL_MEAS};
use embassy_bmp280::init::{
    calibration_from_registers, check_chip_id, InitAction, InitEvent, InitPhase, Initializer,
};
use embassy_bmp280::{
    Bmp280, Bmp280Address, Bmp280Config, Bmp280Error, CalibrationData, OversamplingPress,
    OversamplingTemp, PowerMode,
};

#[test]
fn address_values() {
    assert_eq!(u8::from(Bmp280Address::Default), 0x76);
    assert_eq!(u8::from(Bmp280Address::Secondary), 0x77);
    assert_eq!(u8::from(Bmp280Address::Custom(0x42)), 0x42);
}

#[test]
fn set_address_changes_only_the_address() {
    let calib = CalibrationData { dig_t1: 7, ..CalibrationData::default() };
    let mut bmp = Bmp280::from_parts(5u8, Bmp280Address::Default, calib);
    assert_eq!(bmp.address(), 0x76);
    bmp.set_address(Bmp280Address::Custom(0x77));
    assert_eq!(bmp.address(), 0x77);
    bmp.set_address(Bmp280Address::Secondary);
    assert_eq!(bmp.address(), 0x77);
    assert_eq!(*bmp.bus_mut(), 5);
    assert_eq!(bmp.calibration().dig_t1, 7);
}

#[test]
fn bus_mut_writes_through() {
    let calib = CalibrationData { dig_t1: 1, ..CalibrationData::default() };
    let mut bmp = Bmp280::from_parts(1u8, Bmp280Address::Default, calib);
    *bmp.bus_mut() = 9;
    assert_eq!(*bmp.bus_mut(), 9);
}

#[test]
fn error_from_bus_error() {
    let e: Bmp280Error<u32> = Bmp280Error::from(17u32);
    assert_eq!(e, Bmp280Error::I2c(17));
}

#[test]
fn default_config() {
    let c = Bmp280Config::default();
    assert_eq!(c.temp_os, OversamplingTemp::X1);
    assert_eq!(c.press_os, OversamplingPress::X1);
    assert_eq!(c.mode, PowerMode::Normal);
    assert_eq!(c.ctrl_meas(), 0b001_001_11);
}

#[test]
fn ctrl_meas_layout() {
    let c = Bmp280Config {
        temp_os: OversamplingTemp::X16,
        press_os: OversamplingPress::X4,
        mode: PowerMode::Forced,
    };
    assert_eq!(c.ctrl_meas(), 0b101_011_01);
    let s = Bmp280Config {
        temp_os: OversamplingTemp::Skip,
        press_os: OversamplingPress::Skip,
        mode: PowerMode::Sleep,
    };
    assert_eq!(s.ctrl_meas(), 0);
}

#[test]
fn set_mode_keeps_oversampling() {
    assert_eq!(ctrl_meas_with_mode(0b001_001_11, PowerMode::Sleep), 0b001_001_00);
    assert_eq!(ctrl_meas_with_mode(0xFF, PowerMode::Forced), 0xFD);
    let temps = [
        OversamplingTemp::Skip,
        OversamplingTemp::X1,
        OversamplingTemp::X2,
        OversamplingTemp::X4,
        OversamplingTemp::X8,
        OversamplingTemp::X16,
    ];
    let modes = [PowerMode::Sleep, PowerMode::Forced, PowerMode::Normal];
    for t in temps {
        for m1 in modes {
            for m2 in modes {
                let cfg = Bmp280Config { temp_os: t, press_os: OversamplingPress::X8, mode: m1 };
                let changed = Bmp280Config { mode: m2, ..cfg };
                assert_eq!(ctrl_meas_with_mode(cfg.ctrl_meas(), m2), changed.ctrl_meas());
                assert_eq!(
                    ctrl_meas_with_mode(ctrl_meas_with_mode(cfg.ctrl_meas(), m1), m2),
                    ctrl_meas_with_mode(cfg.ctrl_meas(), m2)
                );
            }
        }
    }
}

#[test]
fn chip_ids() {
    assert_eq!(check_chip_id::<()>(0x58), Ok(()));
    assert_eq!(check_chip_id::<()>(0x60), Ok(()));
    assert_eq!(check_chip_id::<()>(0x55), Err(Bmp280Error::InvalidChipId(0x55)));
    assert_eq!(check_chip_id::<()>(0x00), Err(Bmp280Error::InvalidChipId(0x00)));
}

#[test]
fn blank_calibration_is_refused() {
    let raw = [0u8; 24];
    assert!(matches!(
        calibration_from_registers::<()>(&raw),
        Err(Bmp280Error::InvalidCalibration)
    ));
    let mut ok = [0u8; 24];
    ok[1] = 1;
    match calibration_from_registers::<()>(&ok) {
        Ok(c) => assert_eq!(c.dig_t1, 256),
        Err(_) => panic!("calibration with dig_T1 = 256 refused"),
    }
}

const RAW: [u8; 24] = [
    112, 107, 67, 103, 24, 252, 125, 142, 67, 214, 208, 11, 39, 11, 140, 0, 249, 255, 140, 60, 248,
    198, 112, 23,
];

#[test]
fn init_sequence_on_good_sensor() {
    let cfg = Bmp280Config::default();
    let mut m = Initializer::new(cfg);
    let events = [
        InitEvent::Begin,
        InitEvent::Completed,
        InitEvent::Completed,
        InitEvent::RegisterRead(0x58),
        InitEvent::CalibrationRead(RAW),
        InitEvent::Completed,
        InitEvent::Completed,
    ];
    let mut actions = Vec::new();
    for e in events {
        let (next, action) = m.step::<()>(e);
        m = next;
        actions.push(action);
    }
    assert!(matches!(actions[0], InitAction::WriteRegister { reg: 0xE0, value: 0xB6 }));
    assert!(matches!(actions[1], InitAction::DelayMs(3)));
    assert!(matches!(actions[2], InitAction::ReadRegister(0xD0)));
    assert!(matches!(actions[3], InitAction::ReadCalibration(0x88)));
    assert!(matches!(actions[4], InitAction::WriteRegister { reg: REG_CTRL_MEAS, value: 0x27 }));
    assert!(matches!(actions[5], InitAction::WriteRegister { reg: 0xF5, value: 0x00 }));
    match actions[6] {
        InitAction::Finish(c) => {
            assert_eq!(c.dig_t1, 27504);
            assert_eq!(c.dig_p9, 6000);
        }
        _ => panic!("start-up did not finish"),
    }
    assert!(matches!(m.phase, InitPhase::Ready(_)));
    let (after, action) = m.step::<()>(InitEvent::Completed);
    assert!(matches!(action, InitAction::Wait));
    assert!(matches!(after.phase, InitPhase::Ready(_)));
}

#[test]
fn init_refuses_unknown_chip() {
    let mut m = Initializer::new(Bmp280Config::default());
    let mut last = InitAction::<()>::Wait;
    for e in [
        InitEvent::Begin,
        InitEvent::Completed,
        InitEvent::Completed,
        InitEvent::RegisterRead(0x61),
    ] {
        let (next, action) = m.step::<()>(e);
        m = next;
        last = action;
    }
    assert!(matches!(last, InitAction::Fail(Bmp280Error::InvalidChipId(0x61))));
    assert!(matches!(m.phase, InitPhase::Failed));
    let (_, action) = m.step::<()>(InitEvent::CalibrationRead(RAW));
    assert!(matches!(action, InitAction::Wait));
}

#[test]
fn init_refuses_blank_calibration() {
    let mut m = Initializer::new(Bmp280Config::default());
    let mut last = InitAction::<()>::Wait;
    for e in [
        InitEvent::Begin,
        InitEvent::Completed,
        InitEvent::Completed,
        InitEvent::RegisterRead(0x60),
        InitEvent::CalibrationRead([0u8; 24]),
    ] {
        let (next, action) = m.step::<()>(e);
        m = next;
        last = action;
    }
    assert!(matches!(last, InitAction::Fail(Bmp280Error::InvalidCalibration)));
    assert!(matches!(m.phase, InitPhase::Failed));
}

#[test]
fn init_ignores_unexpected_event() {
    let m = Initializer::new(Bmp280Config::default());
    let (next, action) = m.step::<()>(InitEvent::Completed);
    assert!(matches!(action, InitAction::Wait));
    assert!(matches!(next.phase, InitPhase::Start));
}

#[test]
fn driver_measures_with_calibration_from_start_up() {
    let mut m = Initializer::new(Bmp280Config::default());
    let mut finished = None;
    for e in [
        InitEvent::Begin,
        InitEvent::Completed,
        InitEvent::Completed,
        InitEvent::RegisterRead(0x58),
        InitEvent::CalibrationRead(RAW),
        InitEvent::Completed,
        InitEvent::Completed,
    ] {
        let (next, action) = m.step::<()>(e);
        m = next;
        if let InitAction::Finish(c) = action {
            finished = Some(c);
        }
    }
    let calib = finished.unwrap();
    let mut bmp = Bmp280::from_parts(0u8, Bmp280Address::Default, calib);
    bmp.set_address(Bmp280Address::Secondary);
    *bmp.bus_mut() = 3;
    assert_eq!(bmp.calibration().dig_t1, 27504);
    let data = bmp.measure(&[0x65, 0x5A, 0xC0, 0x7E, 0xED, 0x00]).unwrap();
    assert_eq!(data.temperature_cdeg, 2508);
    assert_eq!(data.pressure_pa256, 25767233);
}
