use test_bno080_ehal::board::{
    board_config, Board, Drive, I2cLineMode, Level, OutputConfig, PinId, Port, Pull, SpiMode,
};

fn pin(port: Port, index: u8) -> PinId {
    PinId { port, index }
}

#[test]
fn every_board_runs_i2c_at_400_khz() {
    for board in [Board::Nrf52832, Board::Stm32f3x, Board::Stm32f4x, Board::Stm32h7x] {
        assert_eq!(board_config(board).i2c.hz, 400_000);
    }
}

#[test]
fn stm32f3_configuration() {
    let cfg = board_config(Board::Stm32f3x);
    assert_eq!(cfg.clocks.hse_hz, Some(8_000_000));
    assert_eq!(cfg.clocks.sysclk_hz, Some(72_000_000));
    assert_eq!(cfg.clocks.pclk1_hz, Some(24_000_000));
    assert_eq!(cfg.clocks.pclk2_hz, None);
    assert_eq!(cfg.led.pin, pin(Port::C, 13));
    assert_eq!(cfg.led.initial, Some(Level::High));
    assert_eq!((cfg.i2c.scl, cfg.i2c.sda), (pin(Port::B, 8), pin(Port::B, 9)));
    let spi = cfg.spi.unwrap();
    assert_eq!(spi.hz, 3_000_000);
    assert_eq!(spi.mode, SpiMode::Mode0);
    assert_eq!((spi.sck, spi.miso, spi.mosi), (pin(Port::A, 5), Some(pin(Port::A, 6)), pin(Port::A, 7)));
    assert_eq!(
        spi.csn,
        OutputConfig { pin: pin(Port::A, 15), drive: Drive::OpenDrain, initial: None }
    );
    assert_eq!((spi.hintn, spi.hintn_pull), (pin(Port::B, 0), Pull::PullUp));
    assert_eq!(spi.wake, None);
    assert_eq!(spi.reset.pin, pin(Port::B, 10));
}

#[test]
fn stm32f4_configuration() {
    let cfg = board_config(Board::Stm32f4x);
    assert_eq!(cfg.clocks.hse_hz, Some(25_000_000));
    assert_eq!(cfg.clocks.sysclk_hz, Some(72_000_000));
    assert_eq!(cfg.clocks.pclk1_hz, Some(48_000_000));
    assert_eq!(cfg.clocks.pclk2_hz, Some(48_000_000));
    assert_eq!(cfg.led.initial, None);
    let spi = cfg.spi.unwrap();
    assert_eq!((spi.hz, spi.mode), (3_000_000, SpiMode::Mode3));
    assert_eq!(spi.csn.pin, pin(Port::B, 0));
    assert_eq!(spi.csn.initial, Some(Level::High));
    assert_eq!(spi.hintn, pin(Port::B, 1));
    assert_eq!(spi.reset.initial, Some(Level::High));
}

#[test]
fn nrf52832_configuration() {
    let cfg = board_config(Board::Nrf52832);
    assert!(cfg.clocks.external_hf_osc);
    assert!(cfg.clocks.start_lf_clock);
    assert_eq!(cfg.clocks.hse_hz, None);
    assert_eq!(cfg.led.pin, pin(Port::P0, 17));
    assert_eq!(cfg.led.initial, Some(Level::High));
    assert_eq!((cfg.i2c.scl, cfg.i2c.sda), (pin(Port::P0, 7), pin(Port::P0, 6)));
    let spi = cfg.spi.unwrap();
    assert_eq!((spi.hz, spi.mode, spi.over_read), (8_000_000, SpiMode::Mode3, Some(122)));
    assert_eq!(spi.miso, None);
    assert_eq!(spi.data_initial, Some(Level::Low));
    assert_eq!(spi.hintn_pull, Pull::Floating);
    let wake = spi.wake.unwrap();
    assert_eq!((wake.pin, wake.initial), (pin(Port::P0, 18), Some(Level::High)));
    assert_eq!((spi.reset.pin, spi.reset.initial), (pin(Port::P0, 26), Some(Level::High)));
}

#[test]
fn stm32h7_configuration() {
    let cfg = board_config(Board::Stm32h7x);
    assert!(!cfg.clocks.external_hf_osc);
    assert_eq!(cfg.clocks.sysclk_hz, None);
    assert_eq!(cfg.led.pin, pin(Port::B, 0));
    let spi = cfg.spi.unwrap();
    assert_eq!((spi.instance, spi.hz, spi.mode), (1, 3_000_000, SpiMode::Mode3));
    assert_eq!(spi.csn, OutputConfig { pin: pin(Port::A, 15), drive: Drive::OpenDrain, initial: None });
    assert_eq!(spi.hintn, pin(Port::B, 11));
    assert_ne!(spi.hintn, cfg.led.pin);
    assert_eq!(spi.wake.unwrap().pin, pin(Port::B, 1));
    assert_eq!(spi.reset.drive, Drive::OpenDrain);
}

#[test]
fn i2c_lines_and_instances() {
    for board in [Board::Stm32f3x, Board::Stm32f4x, Board::Stm32h7x] {
        let cfg = board_config(board);
        assert_eq!(cfg.i2c.instance, 1);
        assert_eq!(cfg.i2c.line_mode, I2cLineMode::OpenDrainAlternate);
        assert_eq!(cfg.i2c.line_pull, Pull::Floating);
        assert_eq!(cfg.i2c.alternate, Some(4));
        assert_eq!(cfg.spi.unwrap().alternate, Some(5));
    }
    let nrf = board_config(Board::Nrf52832);
    assert_eq!((nrf.i2c.instance, nrf.i2c.line_mode), (1, I2cLineMode::FloatingInput));
    assert_eq!(nrf.spi.unwrap().instance, 0);
}

#[test]
fn no_board_gives_a_pin_two_roles() {
    for board in [Board::Nrf52832, Board::Stm32f3x, Board::Stm32f4x, Board::Stm32h7x] {
        let cfg = board_config(board);
        let spi = cfg.spi.unwrap();
        let mut pins = vec![cfg.led.pin, cfg.i2c.scl, cfg.i2c.sda, spi.sck, spi.mosi, spi.csn.pin, spi.hintn, spi.reset.pin];
        pins.extend(spi.miso);
        pins.extend(spi.wake.map(|w| w.pin));
        for i in 0..pins.len() {
            for j in i + 1..pins.len() {
                assert_ne!(pins[i], pins[j]);
            }
        }
    }
}
