//! Control logic of the BNO080 test firmware: the IMU reporting cadence and
//! the decisions of the firmware's main routine, written as a state machine
//! that the board-specific runner drives.
pub mod board;
pub mod cadence;
pub mod controller;
pub mod runs;
