//! Errors that the protocol layer reports to its caller.

use vstd::prelude::*;

verus! {

/// Why a bulk pixel write was refused before any byte was queued.
#[derive(Debug, Clone, Copy, PartialEq, Eq, Structural)]
pub enum ValidationError {
    /// The area reaches past the right edge of the display.
    TooWide,
    /// The area reaches past the bottom edge of the display.
    TooTall,
    /// The color buffer does not hold three bytes for each cell of the area.
    WrongLength,
}

/// Why no session could be set up.
#[derive(Debug, Clone, Copy, PartialEq, Eq, Structural)]
pub enum ConnectionError {
    /// The stream ended before both handshake bytes had arrived.
    UnexpectedEof,
}

impl ConnectionError {
    /// A short description of what went wrong.
    pub fn message(&self) -> (text: &'static str)
        ensures
            text@ == "stream ended during the handshake"@,
    {
        "stream ended during the handshake"
    }
}

impl ValidationError {
    /// A short description of the failed check.
    pub fn message(&self) -> (text: &'static str)
        ensures
            text@ == match *self {
                ValidationError::TooWide => "area too wide"@,
                ValidationError::TooTall => "area too tall"@,
                ValidationError::WrongLength => "wrong color buffer length"@,
            },
    {
        match self {
            ValidationError::TooWide => "area too wide",
            ValidationError::TooTall => "area too tall",
            ValidationError::WrongLength => "wrong color buffer length",
        }
    }
}

} // verus!
