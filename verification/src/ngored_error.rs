//! The errors that end the program.

use vstd::prelude::*;

verus! {

/// A failure of the control loop itself. Failed fetches are no such error: the
/// screens take them as outcomes.
#[derive(Debug, PartialEq, Eq)]
pub enum NgoredError {
    /// The logger could not be set up.
    Logger(String),
    /// The terminal or the bus of intents failed.
    IO(String),
}

impl NgoredError {
    /// The text that came with the error.
    pub fn message(&self) -> (text: &String)
        ensures
            *text == (match *self {
                NgoredError::Logger(text) => text,
                NgoredError::IO(text) => text,
            }),
    {
        match self {
            NgoredError::Logger(text) => text,
            NgoredError::IO(text) => text,
        }
    }
}

/// The exit code of the process for the outcome of the loop: zero after a clean
/// quit, one after an error.
pub fn exit_code(outcome: &Result<(), NgoredError>) -> (code: u8)
    ensures
        code == (if outcome is Ok {
            0u8
        } else {
            1u8
        }),
{
    match outcome {
        Ok(_) => 0,
        Err(_) => 1,
    }
}

} // verus!
