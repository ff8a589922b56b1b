# embassy_bmp280

Driver for the Bosch BMP280 pressure/temperature sensor, with its logic
verified by Verus.

- `src/` — the verified library:
  - `calibration.rs`: the factory calibration (parsed from registers
    0x88..0x9F) and Bosch's integer compensation formulas, with an exact
    model of the fixed-width arithmetic, including where it would overflow;
  - `config.rs`: register map, bus address, oversampling and power mode, and
    the `ctrl_meas` byte they encode (and how a mode change rewrites it);
  - `driver.rs`: the driver state and the decoding of a 6-byte measurement
    burst into a compensated `Bmp280Data`;
  - `init.rs`: the start-up sequence (reset, pause, chip ID check,
    calibration, configuration) as a state machine, with its traces proved;
  - `error.rs`: `Bmp280Error`;
  - `arith.rs`: integer models of shifts, wrapping and truncating division.
- `app/` — the asynchronous front end over `embedded-hal-async` and
  `embassy-time` that performs the bus transfers and delays the library asks
  for, the `embassy-sync` signal for sharing measurements, and the `f32`
  conversions.
- `tests/` — tests of the library on the datasheet's worked example and on
  edge cases.
