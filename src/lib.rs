//! Control logic of a small air-quality monitor: a framed serial protocol to a
//! particle sensor, averaging and power-mode scheduling for acquisition
//! sessions, and the state machine of a tri-color status light.
pub mod frame;
pub mod led;
pub mod measurement;
pub mod scanner;
pub mod schedule;
pub mod session;
