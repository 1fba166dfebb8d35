//! Driver logic for the LIS3MDL three-axis magnetometer on a two-wire,
//! register-addressed bus.
//!
//! The crate never touches a bus. It says which transaction a driver has to
//! issue next and what the reply to it means: the caller owns the channel,
//! performs each transaction and hands the reply back. Every operation is
//! therefore a value, or a short chain of states, that can be checked without
//! hardware:
//!
//! * [`device`]: the device handle and the discovery of its bus address;
//! * [`operation`]: the operations that take more than one transaction;
//! * [`control`]: the values of the control registers;
//! * [`measurement`]: the status flag and the decoding of axis readings;
//! * [`bus`]: the transactions themselves;
//! * [`config`] and [`registers`]: the settings and the register map.
pub mod bus;
pub mod config;
pub mod control;
pub mod device;
pub mod measurement;
pub mod operation;
pub mod registers;

pub use crate::config::{AxisMode, FullScale, OperatingMode, OutputDataRate};
pub use crate::device::LIS3MDL;
