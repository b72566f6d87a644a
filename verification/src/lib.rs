//! Driver core for a small differential-drive robot that is commanded over a
//! serial line with short ASCII request/response exchanges.
//!
//! This crate holds the verified protocol logic: how command lines are
//! formatted, how single-line replies are trimmed and parsed, and which
//! configuration values (speed, turn speed, step time, turn time) must have
//! been set before a motion command may be issued. The serial port itself is
//! driven by the caller: each planner method returns the exact bytes to write
//! (and the delay to wait before reading), and each reply is handed back to a
//! parsing function of this crate.

pub mod errors;
pub mod robot;
pub mod wire;

pub use errors::RobotError;
pub use robot::Arlo;
pub use robot::Command;
pub use robot::SensorId;
pub use robot::ShutdownStep;
