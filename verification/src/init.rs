//! Start-up of the sensor, as a state machine.
//!
//! Bringing the sensor up takes, in order: a soft reset, a pause while the
//! chip restarts, a check of the chip ID, reading the 24 calibration bytes
//! (rejected when `dig_T1` is 0) and writing the configuration.  The
//! machine below makes every decision of that sequence; whoever owns the
//! bus performs each action it asks for and feeds back what came of it.
use vstd::prelude::*;
use crate::calibration::CalibrationData;
use crate::config::{
    Bmp280Config, CHIP_ID_BME280, CHIP_ID_BMP280, REG_CALIB_START, REG_CHIP_ID, REG_CONFIG,
    REG_CTRL_MEAS, REG_RESET, RESET_WORD,
};
use crate::error::Bmp280Error;

verus! {

/// Pause after a soft reset, in milliseconds (the chip needs about 2 ms).
pub const RESET_DELAY_MS: u64 = 3;

/// Value written to the config register: IIR filter off, 0.5 ms standby.
pub const CONFIG_VALUE: u8 = 0x00;

/// The chip IDs the driver accepts: a BMP280's (0x58) or a BME280's (0x60).
pub open spec fn supported_chip_id(id: u8) -> bool {
    id == CHIP_ID_BMP280 || id == CHIP_ID_BME280
}

/// Accepts the chip ID read from `REG_CHIP_ID` if it is a supported one.
pub fn check_chip_id<E>(id: u8) -> (r: Result<(), Bmp280Error<E>>)
    ensures
        supported_chip_id(id) ==> r is Ok,
        !supported_chip_id(id) ==> r == Err::<(), Bmp280Error<E>>(Bmp280Error::InvalidChipId(id)),
{
    if id != CHIP_ID_BMP280 && id != CHIP_ID_BME280 {
        return Err(Bmp280Error::InvalidChipId(id));
    }
    Ok(())
}

/// Parses the calibration bytes and rejects them when `dig_T1` is 0, which
/// no working sensor has.
pub fn calibration_from_registers<E>(raw: &[u8; 24]) -> (r: Result<CalibrationData, Bmp280Error<E>>)
    ensures
        CalibrationData::decoded(*raw).dig_t1 == 0 ==> r == Err::<CalibrationData, Bmp280Error<E>>(
            Bmp280Error::InvalidCalibration,
        ),
        CalibrationData::decoded(*raw).dig_t1 != 0 ==> r == Ok::<CalibrationData, Bmp280Error<E>>(
            CalibrationData::decoded(*raw),
        ),
{
    let calib = CalibrationData::from_raw(raw);
    if calib.dig_t1 == 0 {
        return Err(Bmp280Error::InvalidCalibration);
    }
    Ok(calib)
}

/// Where the start-up stands.
#[derive(Debug, Clone, Copy)]
pub enum InitPhase {
    /// Nothing done yet.
    Start,
    /// The reset word is being written.
    Resetting,
    /// Waiting for the chip to restart.
    Settling,
    /// The chip ID is being read.
    Identifying,
    /// The calibration bytes are being read.
    Calibrating,
    /// The measurement control byte is being written.
    Configuring(CalibrationData),
    /// The config register is being written.
    Finishing(CalibrationData),
    /// The sensor is ready, with this calibration.
    Ready(CalibrationData),
    /// The start-up was abandoned.
    Failed,
}

/// What came of the last action.
#[derive(Debug, Clone, Copy)]
pub enum InitEvent {
    /// Start the sequence.
    Begin,
    /// The write or the pause asked for is done.
    Completed,
    /// The register asked for holds this byte.
    RegisterRead(u8),
    /// The calibration registers hold these bytes.
    CalibrationRead([u8; 24]),
}

/// What the bus owner is to do next.
#[derive(Debug, Clone, Copy)]
pub enum InitAction<E> {
    /// Write `value` to register `reg`.
    WriteRegister { reg: u8, value: u8 },
    /// Pause for this many milliseconds.
    DelayMs(u64),
    /// Read one byte from this register.
    ReadRegister(u8),
    /// Read the 24 calibration bytes starting at this register.
    ReadCalibration(u8),
    /// The sensor is ready: use this calibration.
    Finish(CalibrationData),
    /// Give up with this error.
    Fail(Bmp280Error<E>),
    /// The event was not one this phase waits for: nothing to do.
    Wait,
}

/// The start-up sequence for one configuration.
#[derive(Debug, Clone, Copy)]
pub struct Initializer {
    pub config: Bmp280Config,
    pub phase: InitPhase,
}

impl Initializer {
    /// Every calibration the machine holds passed the start-up check
    /// (`dig_T1 != 0`).
    pub open spec fn holds_accepted_calibration(self) -> bool {
        match self.phase {
            InitPhase::Configuring(calib) => calib.dig_t1 != 0,
            InitPhase::Finishing(calib) => calib.dig_t1 != 0,
            InitPhase::Ready(calib) => calib.dig_t1 != 0,
            _ => true,
        }
    }
}

/// One transition: the next machine and the action to perform.
pub open spec fn init_next<E>(m: Initializer, event: InitEvent) -> (Initializer, InitAction<E>) {
    let goto = |phase: InitPhase| Initializer { phase, ..m };
    match (m.phase, event) {
        (InitPhase::Start, InitEvent::Begin) => (
            goto(InitPhase::Resetting),
            InitAction::WriteRegister { reg: REG_RESET, value: RESET_WORD },
        ),
        (InitPhase::Resetting, InitEvent::Completed) => (
            goto(InitPhase::Settling),
            InitAction::DelayMs(RESET_DELAY_MS),
        ),
        (InitPhase::Settling, InitEvent::Completed) => (
            goto(InitPhase::Identifying),
            InitAction::ReadRegister(REG_CHIP_ID),
        ),
        (InitPhase::Identifying, InitEvent::RegisterRead(id)) => if supported_chip_id(id) {
            (goto(InitPhase::Calibrating), InitAction::ReadCalibration(REG_CALIB_START))
        } else {
            (goto(InitPhase::Failed), InitAction::Fail(Bmp280Error::InvalidChipId(id)))
        },
        (InitPhase::Calibrating, InitEvent::CalibrationRead(raw)) => {
            let calib = CalibrationData::decoded(raw);
            if calib.dig_t1 == 0 {
                (goto(InitPhase::Failed), InitAction::Fail(Bmp280Error::InvalidCalibration))
            } else {
                (
                    goto(InitPhase::Configuring(calib)),
                    InitAction::WriteRegister {
                        reg: REG_CTRL_MEAS,
                        value: m.config.ctrl_meas_value() as u8,
                    },
                )
            }
        },
        (InitPhase::Configuring(calib), InitEvent::Completed) => (
            goto(InitPhase::Finishing(calib)),
            InitAction::WriteRegister { reg: REG_CONFIG, value: CONFIG_VALUE },
        ),
        (InitPhase::Finishing(calib), InitEvent::Completed) => (
            goto(InitPhase::Ready(calib)),
            InitAction::Finish(calib),
        ),
        _ => (m, InitAction::Wait),
    }
}

/// The machine after a sequence of events, and the actions it asked for.
pub open spec fn init_run<E>(m: Initializer, events: Seq<InitEvent>) -> (Initializer, Seq<InitAction<E>>)
    decreases events.len(),
{
    if events.len() == 0 {
        (m, Seq::empty())
    } else {
        let (next, action) = init_next::<E>(m, events[0]);
        let (last, rest) = init_run::<E>(next, events.drop_first());
        (last, seq![action] + rest)
    }
}

/// A start-up on a supported chip with usable calibration performs exactly:
/// the soft reset, the pause, the chip ID read, the calibration read, the
/// `ctrl_meas` write of the configuration, the config write, and then
/// reports the decoded calibration; the machine ends ready.
pub proof fn lemma_init_sequence<E>(config: Bmp280Config, id: u8, raw: [u8; 24])
    requires
        supported_chip_id(id),
        CalibrationData::decoded(raw).dig_t1 != 0,
    ensures
        ({
            let (last, actions) = init_run::<E>(
                Initializer { config, phase: InitPhase::Start },
                seq![
                    InitEvent::Begin,
                    InitEvent::Completed,
                    InitEvent::Completed,
                    InitEvent::RegisterRead(id),
                    InitEvent::CalibrationRead(raw),
                    InitEvent::Completed,
                    InitEvent::Completed,
                ],
            );
            &&& actions == seq![
                InitAction::<E>::WriteRegister { reg: REG_RESET, value: RESET_WORD },
                InitAction::<E>::DelayMs(RESET_DELAY_MS),
                InitAction::<E>::ReadRegister(REG_CHIP_ID),
                InitAction::<E>::ReadCalibration(REG_CALIB_START),
                InitAction::<E>::WriteRegister {
                    reg: REG_CTRL_MEAS,
                    value: config.ctrl_meas_value() as u8,
                },
                InitAction::<E>::WriteRegister { reg: REG_CONFIG, value: CONFIG_VALUE },
                InitAction::<E>::Finish(CalibrationData::decoded(raw)),
            ]
            &&& last == (Initializer { config, phase: InitPhase::Ready(CalibrationData::decoded(raw)) })
        }),
{
    let events = seq![
        InitEvent::Begin,
        InitEvent::Completed,
        InitEvent::Completed,
        InitEvent::RegisterRead(id),
        InitEvent::CalibrationRead(raw),
        InitEvent::Completed,
        InitEvent::Completed,
    ];
    reveal_with_fuel(init_run, 8);
    assert(events.drop_first() =~= events.subrange(1, 7));
    assert(events.subrange(1, 7).drop_first() =~= events.subrange(2, 7));
    assert(events.subrange(2, 7).drop_first() =~= events.subrange(3, 7));
    assert(events.subrange(3, 7).drop_first() =~= events.subrange(4, 7));
    assert(events.subrange(4, 7).drop_first() =~= events.subrange(5, 7));
    assert(events.subrange(5, 7).drop_first() =~= events.subrange(6, 7));
    assert(events.subrange(6, 7).drop_first() =~= Seq::<InitEvent>::empty());
    let (_, actions) = init_run::<E>(Initializer { config, phase: InitPhase::Start }, events);
    assert(actions =~= seq![
        InitAction::<E>::WriteRegister { reg: REG_RESET, value: RESET_WORD },
        InitAction::<E>::DelayMs(RESET_DELAY_MS),
        InitAction::<E>::ReadRegister(REG_CHIP_ID),
        InitAction::<E>::ReadCalibration(REG_CALIB_START),
        InitAction::<E>::WriteRegister { reg: REG_CTRL_MEAS, value: config.ctrl_meas_value() as u8 },
        InitAction::<E>::WriteRegister { reg: REG_CONFIG, value: CONFIG_VALUE },
        InitAction::<E>::Finish(CalibrationData::decoded(raw)),
    ]);
}

/// A chip whose ID is not supported is refused right after its ID is read:
/// the only write made is the soft reset, the error carries the ID read,
/// and the machine ends failed.
pub proof fn lemma_init_rejects_unknown_chip<E>(config: Bmp280Config, id: u8)
    requires
        !supported_chip_id(id),
    ensures
        ({
            let (last, actions) = init_run::<E>(
                Initializer { config, phase: InitPhase::Start },
                seq![
                    InitEvent::Begin,
                    InitEvent::Completed,
                    InitEvent::Completed,
                    InitEvent::RegisterRead(id),
                ],
            );
            &&& actions == seq![
                InitAction::<E>::WriteRegister { reg: REG_RESET, value: RESET_WORD },
                InitAction::<E>::DelayMs(RESET_DELAY_MS),
                InitAction::<E>::ReadRegister(REG_CHIP_ID),
                InitAction::<E>::Fail(Bmp280Error::InvalidChipId(id)),
            ]
            &&& last == (Initializer { config, phase: InitPhase::Failed })
        }),
{
    let events = seq![
        InitEvent::Begin,
        InitEvent::Completed,
        InitEvent::Completed,
        InitEvent::RegisterRead(id),
    ];
    reveal_with_fuel(init_run, 5);
    assert(events.drop_first() =~= events.subrange(1, 4));
    assert(events.subrange(1, 4).drop_first() =~= events.subrange(2, 4));
    assert(events.subrange(2, 4).drop_first() =~= events.subrange(3, 4));
    assert(events.subrange(3, 4).drop_first() =~= Seq::<InitEvent>::empty());
    let (_, actions) = init_run::<E>(Initializer { config, phase: InitPhase::Start }, events);
    assert(actions =~= seq![
        InitAction::<E>::WriteRegister { reg: REG_RESET, value: RESET_WORD },
        InitAction::<E>::DelayMs(RESET_DELAY_MS),
        InitAction::<E>::ReadRegister(REG_CHIP_ID),
        InitAction::<E>::Fail(Bmp280Error::InvalidChipId(id)),
    ]);
}

/// Calibration with `dig_T1 == 0` is refused before the configuration is
/// written, and the machine ends failed.
pub proof fn lemma_init_rejects_blank_calibration<E>(config: Bmp280Config, id: u8, raw: [u8; 24])
    requires
        supported_chip_id(id),
        CalibrationData::decoded(raw).dig_t1 == 0,
    ensures
        ({
            let (last, actions) = init_run::<E>(
                Initializer { config, phase: InitPhase::Start },
                seq![
                    InitEvent::Begin,
                    InitEvent::Completed,
                    InitEvent::Completed,
                    InitEvent::RegisterRead(id),
                    InitEvent::CalibrationRead(raw),
                ],
            );
            &&& actions == seq![
                InitAction::<E>::WriteRegister { reg: REG_RESET, value: RESET_WORD },
                InitAction::<E>::DelayMs(RESET_DELAY_MS),
                InitAction::<E>::ReadRegister(REG_CHIP_ID),
                InitAction::<E>::ReadCalibration(REG_CALIB_START),
                InitAction::<E>::Fail(Bmp280Error::InvalidCalibration),
            ]
            &&& last == (Initializer { config, phase: InitPhase::Failed })
        }),
{
    let events = seq![
        InitEvent::Begin,
        InitEvent::Completed,
        InitEvent::Completed,
        InitEvent::RegisterRead(id),
        InitEvent::CalibrationRead(raw),
    ];
    reveal_with_fuel(init_run, 6);
    assert(events.drop_first() =~= events.subrange(1, 5));
    assert(events.subrange(1, 5).drop_first() =~= events.subrange(2, 5));
    assert(events.subrange(2, 5).drop_first() =~= events.subrange(3, 5));
    assert(events.subrange(3, 5).drop_first() =~= events.subrange(4, 5));
    assert(events.subrange(4, 5).drop_first() =~= Seq::<InitEvent>::empty());
    let (_, actions) = init_run::<E>(Initializer { config, phase: InitPhase::Start }, events);
    assert(actions =~= seq![
        InitAction::<E>::WriteRegister { reg: REG_RESET, value: RESET_WORD },
        InitAction::<E>::DelayMs(RESET_DELAY_MS),
        InitAction::<E>::ReadRegister(REG_CHIP_ID),
        InitAction::<E>::ReadCalibration(REG_CALIB_START),
        InitAction::<E>::Fail(Bmp280Error::InvalidCalibration),
    ]);
}

/// Once ready or failed, the machine stays as it is and asks for nothing,
/// whatever it is told.
pub proof fn lemma_init_end_is_final<E>(m: Initializer, event: InitEvent)
    requires
        m.phase is Ready || m.phase is Failed,
    ensures
        init_next::<E>(m, event) == (m, InitAction::<E>::Wait),
{
}

/// Every step keeps the calibration held by the machine an accepted one, so
/// the calibration that a start-up hands over has `dig_T1 != 0`.
pub proof fn lemma_init_keeps_calibration_accepted<E>(m: Initializer, event: InitEvent)
    requires
        m.holds_accepted_calibration(),
    ensures
        init_next::<E>(m, event).0.holds_accepted_calibration(),
        init_next::<E>(m, event).1 is Finish ==> init_next::<E>(m, event).1->Finish_0.dig_t1 != 0,
{
}

impl Initializer {
    /// A start-up sequence that will apply `config`.
    pub fn new(config: Bmp280Config) -> (r: Self)
        ensures
            r == (Initializer { config, phase: InitPhase::Start }),
            r.holds_accepted_calibration(),
    {
        Initializer { config, phase: InitPhase::Start }
    }

    /// Takes what came of the last action and says what to do next.
    pub fn step<E>(self, event: InitEvent) -> (r: (Initializer, InitAction<E>))
        ensures
            r == init_next::<E>(self, event),
    {
        let config = self.config;
        match (self.phase, event) {
            (InitPhase::Start, InitEvent::Begin) => (
                Initializer { config, phase: InitPhase::Resetting },
                InitAction::WriteRegister { reg: REG_RESET, value: RESET_WORD },
            ),
            (InitPhase::Resetting, InitEvent::Completed) => (
                Initializer { config, phase: InitPhase::Settling },
                InitAction::DelayMs(RESET_DELAY_MS),
            ),
            (InitPhase::Settling, InitEvent::Completed) => (
                Initializer { config, phase: InitPhase::Identifying },
                InitAction::ReadRegister(REG_CHIP_ID),
            ),
            (InitPhase::Identifying, InitEvent::RegisterRead(id)) => match check_chip_id::<E>(id) {
                Ok(()) => (
                    Initializer { config, phase: InitPhase::Calibrating },
                    InitAction::ReadCalibration(REG_CALIB_START),
                ),
                Err(e) => (Initializer { config, phase: InitPhase::Failed }, InitAction::Fail(e)),
            },
            (InitPhase::Calibrating, InitEvent::CalibrationRead(raw)) => {
                match calibration_from_registers::<E>(&raw) {
                    Ok(calib) => (
                        Initializer { config, phase: InitPhase::Configuring(calib) },
                        InitAction::WriteRegister { reg: REG_CTRL_MEAS, value: config.ctrl_meas() },
                    ),
                    Err(e) => (Initializer { config, phase: InitPhase::Failed }, InitAction::Fail(e)),
                }
            },
            (InitPhase::Configuring(calib), InitEvent::Completed) => (
                Initializer { config, phase: InitPhase::Finishing(calib) },
                InitAction::WriteRegister { reg: REG_CONFIG, value: CONFIG_VALUE },
            ),
            (InitPhase::Finishing(calib), InitEvent::Completed) => (
                Initializer { config, phase: InitPhase::Ready(calib) },
                InitAction::Finish(calib),
            ),
            _ => (self, InitAction::Wait),
        }
    }
}

} // verus!
