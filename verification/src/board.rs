//! What each supported board is set up with: clock sources and frequencies,
//! the user LED, the I2C port and the SPI wiring of the IMU, with the level
//! each output is driven to when it is set up. The runner hands these values
//! to the board's HAL.
use vstd::prelude::*;

verus! {

/// The boards the firmware runs on.
#[derive(Clone, Copy, Debug, PartialEq, Eq, Structural)]
pub enum Board {
    /// nRF52832 (PineTime wiring).
    Nrf52832,
    /// STM32F303 (robodyn board).
    Stm32f3x,
    /// STM32F401 (black pill).
    Stm32f4x,
    /// STM32H743 (discovery board).
    Stm32h7x,
}

/// A GPIO port.
#[derive(Clone, Copy, Debug, PartialEq, Eq, Structural)]
pub enum Port {
    /// nRF port 0.
    P0,
    /// STM32 port A.
    A,
    /// STM32 port B.
    B,
    /// STM32 port C.
    C,
}

/// One GPIO pin: its port and its number in the port.
#[derive(Clone, Copy, Debug, PartialEq, Eq, Structural)]
pub struct PinId {
    pub port: Port,
    pub index: u8,
}

/// A logic level.
#[derive(Clone, Copy, Debug, PartialEq, Eq, Structural)]
pub enum Level {
    Low,
    High,
}

/// How an output pin drives its line.
#[derive(Clone, Copy, Debug, PartialEq, Eq, Structural)]
pub enum Drive {
    PushPull,
    OpenDrain,
}

/// How an input pin is biased.
#[derive(Clone, Copy, Debug, PartialEq, Eq, Structural)]
pub enum Pull {
    Floating,
    PullUp,
}

/// SPI clock polarity and phase, numbered as usual (mode 0 to mode 3).
#[derive(Clone, Copy, Debug, PartialEq, Eq, Structural)]
pub enum SpiMode {
    Mode0,
    Mode1,
    Mode2,
    Mode3,
}

/// An output pin, how it drives, and the level it is driven to when set up
/// (`None`: left as the HAL sets it up).
#[derive(Clone, Copy, Debug, PartialEq, Eq, Structural)]
pub struct OutputConfig {
    pub pin: PinId,
    pub drive: Drive,
    pub initial: Option<Level>,
}

/// Clock set-up. The frequencies are in hertz; `None` keeps the HAL's default.
#[derive(Clone, Copy, Debug, PartialEq, Eq, Structural)]
pub struct ClockConfig {
    /// Frequency of the external crystal that clocks the system.
    pub hse_hz: Option<u32>,
    pub sysclk_hz: Option<u32>,
    pub pclk1_hz: Option<u32>,
    pub pclk2_hz: Option<u32>,
    /// The external high-frequency oscillator is enabled.
    pub external_hf_osc: bool,
    /// The low-frequency clock is started.
    pub start_lf_clock: bool,
}

/// How the I2C lines are set up.
#[derive(Clone, Copy, Debug, PartialEq, Eq, Structural)]
pub enum I2cLineMode {
    /// Open-drain, handed to the I2C peripheral as an alternate function.
    OpenDrainAlternate,
    /// Floating inputs, taken over by the I2C peripheral.
    FloatingInput,
}

/// The I2C port offered for the IMU.
#[derive(Clone, Copy, Debug, PartialEq, Eq, Structural)]
pub struct I2cConfig {
    /// Number of the I2C peripheral used (I2C1, TWIM1, ...).
    pub instance: u8,
    pub hz: u32,
    pub scl: PinId,
    pub sda: PinId,
    pub line_mode: I2cLineMode,
    /// Internal bias of SCL and SDA (`Floating`: the board supplies the pull-ups).
    pub line_pull: Pull,
    /// Alternate-function number of SCL and SDA, where the chip has them.
    pub alternate: Option<u8>,
}

/// The SPI port and control lines of the IMU.
#[derive(Clone, Copy, Debug, PartialEq, Eq, Structural)]
pub struct SpiConfig {
    /// Number of the SPI peripheral used (SPI1, SPIM0, ...).
    pub instance: u8,
    pub hz: u32,
    pub mode: SpiMode,
    /// Byte clocked out when the SPI master reads more than it writes.
    pub over_read: Option<u8>,
    pub sck: PinId,
    pub miso: Option<PinId>,
    pub mosi: PinId,
    /// Alternate-function number of the clock and data pins, where the chip has them.
    pub alternate: Option<u8>,
    /// Level of the clock and data outputs when they are set up.
    pub data_initial: Option<Level>,
    /// Chip select.
    pub csn: OutputConfig,
    /// The IMU's interrupt line, and its bias.
    pub hintn: PinId,
    pub hintn_pull: Pull,
    /// The IMU's wake / PS0 line, where the board wires one.
    pub wake: Option<OutputConfig>,
    /// The IMU's reset line.
    pub reset: OutputConfig,
}

/// Everything a board is set up with.
#[derive(Clone, Copy, Debug, PartialEq, Eq, Structural)]
pub struct BoardConfig {
    pub clocks: ClockConfig,
    pub led: OutputConfig,
    pub i2c: I2cConfig,
    /// `None` where the board has no SPI wiring for the IMU.
    pub spi: Option<SpiConfig>,
}

/// The pin `index` of `port`.
pub open spec fn pin(port: Port, index: u8) -> PinId {
    PinId { port: port, index: index }
}

/// A push-pull output on `p`, driven to `initial` when set up.
pub open spec fn push_pull(p: PinId, initial: Option<Level>) -> OutputConfig {
    OutputConfig { pin: p, drive: Drive::PushPull, initial: initial }
}

/// An open-drain output on `p`, left as the HAL sets it up.
pub open spec fn open_drain(p: PinId) -> OutputConfig {
    OutputConfig { pin: p, drive: Drive::OpenDrain, initial: None }
}

/// I2C1 on PB8 (SCL) and PB9 (SDA) at 400 kHz, open-drain in alternate
/// function 4, internal pull-ups off: the STM32 boards' I2C port.
pub open spec fn stm32_i2c1() -> I2cConfig {
    I2cConfig {
        instance: 1,
        hz: 400_000,
        scl: pin(Port::B, 8),
        sda: pin(Port::B, 9),
        line_mode: I2cLineMode::OpenDrainAlternate,
        line_pull: Pull::Floating,
        alternate: Some(4),
    }
}

/// SPI1 on PA5 (SCK), PA6 (MISO) and PA7 (MOSI) in alternate function 5 at
/// 3 MHz in `mode`, with the given control lines: the STM32 boards' SPI port.
pub open spec fn stm32_spi1(
    mode: SpiMode,
    csn: OutputConfig,
    hintn: PinId,
    wake: Option<OutputConfig>,
    reset: OutputConfig,
) -> SpiConfig {
    SpiConfig {
        instance: 1,
        hz: 3_000_000,
        mode: mode,
        over_read: None,
        sck: pin(Port::A, 5),
        miso: Some(pin(Port::A, 6)),
        mosi: pin(Port::A, 7),
        alternate: Some(5),
        data_initial: None,
        csn: csn,
        hintn: hintn,
        hintn_pull: Pull::PullUp,
        wake: wake,
        reset: reset,
    }
}

/// The set-up of each board.
pub open spec fn board_setup(board: Board) -> BoardConfig {
    match board {
        Board::Nrf52832 => BoardConfig {
            clocks: ClockConfig {
                hse_hz: None,
                sysclk_hz: None,
                pclk1_hz: None,
                pclk2_hz: None,
                external_hf_osc: true,
                start_lf_clock: true,
            },
            led: push_pull(pin(Port::P0, 17), Some(Level::High)),
            i2c: I2cConfig {
                instance: 1,
                hz: 400_000,
                scl: pin(Port::P0, 7),
                sda: pin(Port::P0, 6),
                line_mode: I2cLineMode::FloatingInput,
                line_pull: Pull::Floating,
                alternate: None,
            },
            spi: Some(
                SpiConfig {
                    instance: 0,
                    hz: 8_000_000,
                    mode: SpiMode::Mode3,
                    over_read: Some(122),
                    sck: pin(Port::P0, 2),
                    miso: None,
                    mosi: pin(Port::P0, 3),
                    alternate: None,
                    data_initial: Some(Level::Low),
                    csn: push_pull(pin(Port::P0, 25), Some(Level::High)),
                    hintn: pin(Port::P0, 13),
                    hintn_pull: Pull::Floating,
                    wake: Some(push_pull(pin(Port::P0, 18), Some(Level::High))),
                    reset: push_pull(pin(Port::P0, 26), Some(Level::High)),
                },
            ),
        },
        Board::Stm32f3x => BoardConfig {
            clocks: ClockConfig {
                hse_hz: Some(8_000_000),
                sysclk_hz: Some(72_000_000),
                pclk1_hz: Some(24_000_000),
                pclk2_hz: None,
                external_hf_osc: true,
                start_lf_clock: false,
            },
            led: push_pull(pin(Port::C, 13), Some(Level::High)),
            i2c: stm32_i2c1(),
            spi: Some(
                stm32_spi1(
                    SpiMode::Mode0,
                    open_drain(pin(Port::A, 15)),
                    pin(Port::B, 0),
                    None,
                    push_pull(pin(Port::B, 10), None),
                ),
            ),
        },
        Board::Stm32f4x => BoardConfig {
            clocks: ClockConfig {
                hse_hz: Some(25_000_000),
                sysclk_hz: Some(72_000_000),
                pclk1_hz: Some(48_000_000),
                pclk2_hz: Some(48_000_000),
                external_hf_osc: true,
                start_lf_clock: false,
            },
            led: push_pull(pin(Port::C, 13), None),
            i2c: stm32_i2c1(),
            spi: Some(
                stm32_spi1(
                    SpiMode::Mode3,
                    push_pull(pin(Port::B, 0), Some(Level::High)),
                    pin(Port::B, 1),
                    None,
                    push_pull(pin(Port::B, 10), Some(Level::High)),
                ),
            ),
        },
        Board::Stm32h7x => BoardConfig {
            clocks: ClockConfig {
                hse_hz: None,
                sysclk_hz: None,
                pclk1_hz: None,
                pclk2_hz: None,
                external_hf_osc: false,
                start_lf_clock: false,
            },
            led: push_pull(pin(Port::B, 0), None),
            i2c: stm32_i2c1(),
            spi: Some(
                stm32_spi1(
                    SpiMode::Mode3,
                    open_drain(pin(Port::A, 15)),
                    pin(Port::B, 11),
                    Some(open_drain(pin(Port::B, 1))),
                    open_drain(pin(Port::B, 10)),
                ),
            ),
        },
    }
}

/// Every pin `cfg` uses, in a fixed order: the LED, SCL, SDA, then SCK,
/// MISO (if wired), MOSI, chip select, interrupt, wake (if wired), reset.
pub open spec fn used_pins(cfg: BoardConfig) -> Seq<PinId> {
    let base = seq![cfg.led.pin, cfg.i2c.scl, cfg.i2c.sda];
    match cfg.spi {
        None => base,
        Some(spi) => {
            let miso = match spi.miso {
                Some(p) => seq![p],
                None => Seq::empty(),
            };
            let wake = match spi.wake {
                Some(w) => seq![w.pin],
                None => Seq::empty(),
            };
            base + seq![spi.sck] + miso + seq![spi.mosi, spi.csn.pin, spi.hintn] + wake + seq![
                spi.reset.pin,
            ]
        },
    }
}

/// No two entries of `pins` are the same pin.
pub open spec fn pairwise_distinct(pins: Seq<PinId>) -> bool {
    forall|i: int, j: int| 0 <= i < j < pins.len() ==> pins[i] != pins[j]
}

/// On every board, no pin is given two roles.
pub proof fn lemma_board_pins_distinct(board: Board)
    ensures
        pairwise_distinct(used_pins(board_setup(board))),
{
    let pins = used_pins(board_setup(board));
    match board {
        Board::Nrf52832 => {
            assert(pins =~= seq![
                pin(Port::P0, 17),
                pin(Port::P0, 7),
                pin(Port::P0, 6),
                pin(Port::P0, 2),
                pin(Port::P0, 3),
                pin(Port::P0, 25),
                pin(Port::P0, 13),
                pin(Port::P0, 18),
                pin(Port::P0, 26),
            ]);
        },
        Board::Stm32f3x => {
            assert(pins =~= seq![
                pin(Port::C, 13),
                pin(Port::B, 8),
                pin(Port::B, 9),
                pin(Port::A, 5),
                pin(Port::A, 6),
                pin(Port::A, 7),
                pin(Port::A, 15),
                pin(Port::B, 0),
                pin(Port::B, 10),
            ]);
        },
        Board::Stm32f4x => {
            assert(pins =~= seq![
                pin(Port::C, 13),
                pin(Port::B, 8),
                pin(Port::B, 9),
                pin(Port::A, 5),
                pin(Port::A, 6),
                pin(Port::A, 7),
                pin(Port::B, 0),
                pin(Port::B, 1),
                pin(Port::B, 10),
            ]);
        },
        Board::Stm32h7x => {
            assert(pins =~= seq![
                pin(Port::B, 0),
                pin(Port::B, 8),
                pin(Port::B, 9),
                pin(Port::A, 5),
                pin(Port::A, 6),
                pin(Port::A, 7),
                pin(Port::A, 15),
                pin(Port::B, 11),
                pin(Port::B, 1),
                pin(Port::B, 10),
            ]);
        },
    }
}

/// Every board runs its I2C port at 400 kHz and wires SPI lines for the IMU.
pub proof fn lemma_boards_share_i2c_rate_and_spi(board: Board)
    ensures
        board_setup(board).i2c.hz == 400_000,
        board_setup(board).spi is Some,
{
}

/// The role a pin plays on a board.
#[derive(Clone, Copy, Debug, PartialEq, Eq, Structural)]
pub enum PinRole {
    Led,
    I2cScl,
    I2cSda,
    SpiSck,
    SpiMiso,
    SpiMosi,
    ChipSelect,
    ImuInterrupt,
    ImuWake,
    ImuReset,
}

/// The pin a configuration gives to `role`, if it wires one.
pub open spec fn role_pin(cfg: BoardConfig, role: PinRole) -> Option<PinId> {
    match role {
        PinRole::Led => Some(cfg.led.pin),
        PinRole::I2cScl => Some(cfg.i2c.scl),
        PinRole::I2cSda => Some(cfg.i2c.sda),
        _ => match cfg.spi {
            None => None,
            Some(spi) => match role {
                PinRole::SpiSck => Some(spi.sck),
                PinRole::SpiMiso => spi.miso,
                PinRole::SpiMosi => Some(spi.mosi),
                PinRole::ChipSelect => Some(spi.csn.pin),
                PinRole::ImuInterrupt => Some(spi.hintn),
                PinRole::ImuWake => match spi.wake {
                    Some(w) => Some(w.pin),
                    None => None,
                },
                _ => Some(spi.reset.pin),
            },
        },
    }
}

/// Each board's pinout: what every pin of the board is wired to, read pin by
/// pin (`None`: the firmware leaves the pin alone).
pub open spec fn pinout(board: Board, p: PinId) -> Option<PinRole> {
    match board {
        Board::Nrf52832 => if p.port != Port::P0 {
            None
        } else if p.index == 2 {
            Some(PinRole::SpiSck)
        } else if p.index == 3 {
            Some(PinRole::SpiMosi)
        } else if p.index == 6 {
            Some(PinRole::I2cSda)
        } else if p.index == 7 {
            Some(PinRole::I2cScl)
        } else if p.index == 13 {
            Some(PinRole::ImuInterrupt)
        } else if p.index == 17 {
            Some(PinRole::Led)
        } else if p.index == 18 {
            Some(PinRole::ImuWake)
        } else if p.index == 25 {
            Some(PinRole::ChipSelect)
        } else if p.index == 26 {
            Some(PinRole::ImuReset)
        } else {
            None
        },
        _ => if p.port == Port::A && p.index == 5 {
            Some(PinRole::SpiSck)
        } else if p.port == Port::A && p.index == 6 {
            Some(PinRole::SpiMiso)
        } else if p.port == Port::A && p.index == 7 {
            Some(PinRole::SpiMosi)
        } else if p.port == Port::B && p.index == 8 {
            Some(PinRole::I2cScl)
        } else if p.port == Port::B && p.index == 9 {
            Some(PinRole::I2cSda)
        } else if p.port == Port::B && p.index == 10 {
            Some(PinRole::ImuReset)
        } else {
            match board {
                Board::Stm32f3x => if p.port == Port::C && p.index == 13 {
                    Some(PinRole::Led)
                } else if p.port == Port::A && p.index == 15 {
                    Some(PinRole::ChipSelect)
                } else if p.port == Port::B && p.index == 0 {
                    Some(PinRole::ImuInterrupt)
                } else {
                    None
                },
                Board::Stm32f4x => if p.port == Port::C && p.index == 13 {
                    Some(PinRole::Led)
                } else if p.port == Port::B && p.index == 0 {
                    Some(PinRole::ChipSelect)
                } else if p.port == Port::B && p.index == 1 {
                    Some(PinRole::ImuInterrupt)
                } else {
                    None
                },
                _ => if p.port == Port::B && p.index == 0 {
                    Some(PinRole::Led)
                } else if p.port == Port::A && p.index == 15 {
                    Some(PinRole::ChipSelect)
                } else if p.port == Port::B && p.index == 11 {
                    Some(PinRole::ImuInterrupt)
                } else if p.port == Port::B && p.index == 1 {
                    Some(PinRole::ImuWake)
                } else {
                    None
                },
            }
        },
    }
}

/// Each board's set-up puts every role on the pin the board's pinout gives
/// it, and nowhere else: a role is wired to a pin exactly when the pinout
/// says the pin plays that role.
pub proof fn lemma_pins_follow_pinout(board: Board, role: PinRole, p: PinId)
    ensures
        role_pin(board_setup(board), role) == Some(p) <==> pinout(board, p) == Some(role),
{
}

/// Chip select and reset are active low: no board drives either of them low
/// at set-up, and a push-pull chip select starts high, so the IMU is neither
/// selected nor held in reset when the board comes up.
pub proof fn lemma_imu_lines_start_inactive(board: Board)
    ensures
        board_setup(board).spi matches Some(spi) ==> {
            &&& spi.csn.initial != Some(Level::Low)
            &&& spi.reset.initial != Some(Level::Low)
            &&& spi.csn.drive == Drive::PushPull ==> spi.csn.initial == Some(Level::High)
        },
{
}

/// An output on `p`.
fn output(port: Port, index: u8, drive: Drive, initial: Option<Level>) -> (o: OutputConfig)
    ensures
        o == (OutputConfig { pin: pin(port, index), drive: drive, initial: initial }),
{
    OutputConfig { pin: PinId { port: port, index: index }, drive: drive, initial: initial }
}

fn i2c1_b8_b9() -> (c: I2cConfig)
    ensures
        c == stm32_i2c1(),
{
    I2cConfig {
        instance: 1,
        hz: 400_000,
        scl: PinId { port: Port::B, index: 8 },
        sda: PinId { port: Port::B, index: 9 },
        line_mode: I2cLineMode::OpenDrainAlternate,
        line_pull: Pull::Floating,
        alternate: Some(4),
    }
}

fn spi1_a5_a7(
    mode: SpiMode,
    csn: OutputConfig,
    hintn: PinId,
    wake: Option<OutputConfig>,
    reset: OutputConfig,
) -> (c: SpiConfig)
    ensures
        c == stm32_spi1(mode, csn, hintn, wake, reset),
{
    SpiConfig {
        instance: 1,
        hz: 3_000_000,
        mode: mode,
        over_read: None,
        sck: PinId { port: Port::A, index: 5 },
        miso: Some(PinId { port: Port::A, index: 6 }),
        mosi: PinId { port: Port::A, index: 7 },
        alternate: Some(5),
        data_initial: None,
        csn: csn,
        hintn: hintn,
        hintn_pull: Pull::PullUp,
        wake: wake,
        reset: reset,
    }
}

/// The set-up of `board`.
pub fn board_config(board: Board) -> (cfg: BoardConfig)
    ensures
        cfg == board_setup(board),
{
    match board {
        Board::Nrf52832 => BoardConfig {
            clocks: ClockConfig {
                hse_hz: None,
                sysclk_hz: None,
                pclk1_hz: None,
                pclk2_hz: None,
                external_hf_osc: true,
                start_lf_clock: true,
            },
            led: output(Port::P0, 17, Drive::PushPull, Some(Level::High)),
            i2c: I2cConfig {
                instance: 1,
                hz: 400_000,
                scl: PinId { port: Port::P0, index: 7 },
                sda: PinId { port: Port::P0, index: 6 },
                line_mode: I2cLineMode::FloatingInput,
                line_pull: Pull::Floating,
                alternate: None,
            },
            spi: Some(
                SpiConfig {
                    instance: 0,
                    hz: 8_000_000,
                    mode: SpiMode::Mode3,
                    over_read: Some(122),
                    sck: PinId { port: Port::P0, index: 2 },
                    miso: None,
                    mosi: PinId { port: Port::P0, index: 3 },
                    alternate: None,
                    data_initial: Some(Level::Low),
                    csn: output(Port::P0, 25, Drive::PushPull, Some(Level::High)),
                    hintn: PinId { port: Port::P0, index: 13 },
                    hintn_pull: Pull::Floating,
                    wake: Some(output(Port::P0, 18, Drive::PushPull, Some(Level::High))),
                    reset: output(Port::P0, 26, Drive::PushPull, Some(Level::High)),
                },
            ),
        },
        Board::Stm32f3x => BoardConfig {
            clocks: ClockConfig {
                hse_hz: Some(8_000_000),
                sysclk_hz: Some(72_000_000),
                pclk1_hz: Some(24_000_000),
                pclk2_hz: None,
                external_hf_osc: true,
                start_lf_clock: false,
            },
            led: output(Port::C, 13, Drive::PushPull, Some(Level::High)),
            i2c: i2c1_b8_b9(),
            spi: Some(
                spi1_a5_a7(
                    SpiMode::Mode0,
                    output(Port::A, 15, Drive::OpenDrain, None),
                    PinId { port: Port::B, index: 0 },
                    None,
                    output(Port::B, 10, Drive::PushPull, None),
                ),
            ),
        },
        Board::Stm32f4x => BoardConfig {
            clocks: ClockConfig {
                hse_hz: Some(25_000_000),
                sysclk_hz: Some(72_000_000),
                pclk1_hz: Some(48_000_000),
                pclk2_hz: Some(48_000_000),
                external_hf_osc: true,
                start_lf_clock: false,
            },
            led: output(Port::C, 13, Drive::PushPull, None),
            i2c: i2c1_b8_b9(),
            spi: Some(
                spi1_a5_a7(
                    SpiMode::Mode3,
                    output(Port::B, 0, Drive::PushPull, Some(Level::High)),
                    PinId { port: Port::B, index: 1 },
                    None,
                    output(Port::B, 10, Drive::PushPull, Some(Level::High)),
                ),
            ),
        },
        Board::Stm32h7x => BoardConfig {
            clocks: ClockConfig {
                hse_hz: None,
                sysclk_hz: None,
                pclk1_hz: None,
                pclk2_hz: None,
                external_hf_osc: false,
                start_lf_clock: false,
            },
            led: output(Port::B, 0, Drive::PushPull, None),
            i2c: i2c1_b8_b9(),
            spi: Some(
                spi1_a5_a7(
                    SpiMode::Mode3,
                    output(Port::A, 15, Drive::OpenDrain, None),
                    PinId { port: Port::B, index: 11 },
                    Some(output(Port::B, 1, Drive::OpenDrain, None)),
                    output(Port::B, 10, Drive::OpenDrain, None),
                ),
            ),
        },
    }
}

} // verus!
