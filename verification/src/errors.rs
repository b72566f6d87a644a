//! The error taxonomy of the driver.

use vstd::prelude::*;

verus! {

/// Everything that can go wrong while talking to the robot.
///
/// All variants are recoverable values handed back to the caller; no verified
/// function of this crate panics.
#[derive(Clone, Copy, Debug, PartialEq, Eq, Structural)]
pub enum RobotError {
    /// The serial device could not be opened.
    Open,
    /// Writing a command line to the serial device failed.
    Write,
    /// No reply line arrived before the read timeout elapsed.
    ReadTimeout,
    /// A motion command was issued before the configuration value it depends
    /// on (speed, step time or turn time) had been set.
    Precondition,
    /// A caller-supplied numeric argument was outside its allowed range.
    Validation,
    /// A reply that was expected to carry a numeric reading did not.
    Parse,
}

} // verus!
