# test_bno080_ehal

Firmware that exercises the BNO080 IMU driver on several MCU families, split
into a verified library and a thin runner.

- `src/cadence.rs`: the IMU reporting rate, the reporting interval derived
  from it, and the main loop's byte-sized pause.
- `src/board.rs`: each board's set-up as plain values: clock sources and
  frequencies, the user LED, the I2C port (instance, pins, line mode and
  bias), the IMU's SPI port (instance, rate, mode, pins, control lines) and
  the level each output starts at; with the law that no board gives a pin
  two roles.
- `src/controller.rs`: the main routine as a state machine. `Controller::step`
  takes how the last action went and hands out the next action: initialise
  the IMU, enable rotation-vector reports, print the pause, drive the LED low,
  then poll forever (handle messages, report a non-zero count, toggle the
  LED, pause). A failed start-up step halts it.
- `src/runs.rs`: whole runs of the controller and the laws about them
  (start-up order, halting on failure, one and many passes of the polling
  loop, LED parity).
- `app/`: the `#![no_std]` firmware entry point, which performs the actions
  on the hardware, and the board set-up for STM32F3, STM32F4, STM32H7 and
  nRF52832 boards. Each set-up takes the clock frequencies, bus rates, SPI
  mode, over-read byte and starting levels from `board_config`, and checks
  at start-up that the configuration names the pins it wires. The board is
  chosen by naming its module in `app/main.rs`; the STM32F3 board is the one
  named.
