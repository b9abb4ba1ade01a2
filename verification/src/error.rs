//! Top-level error types

use crate::feature::audio::AudioError;
use crate::feature::duration_parsing::ParsingError;
use vstd::prelude::*;

verus! {

/// The status with which a run that went through exits.
pub const EXIT_SUCCESS: u8 = 0;

/// The status with which a run that failed exits.
pub const EXIT_FAILURE: u8 = 1;

/// The operation on the terminal that failed.
#[derive(Clone, Copy, Debug, PartialEq, Eq, Structural)]
pub enum TerminalError {
    /// The terminal could not be taken over.
    Acquire,
    /// A frame could not be drawn.
    Draw,
    /// The terminal could not be given back as it was.
    Restore,
}

/// What made a run fail.
#[derive(Clone, Debug, PartialEq, Eq)]
pub enum Failure {
    Parsing(ParsingError),
    Terminal(TerminalError),
    Audio(AudioError),
}

/// The error of a run, as it reaches the top.
#[derive(Clone, Debug, PartialEq, Eq)]
pub struct AppError {
    pub failure: Failure,
}

/// A suggestion displayed to the user
#[derive(Clone, Copy, Debug, PartialEq, Eq)]
pub struct Suggestion(pub &'static str);

impl AppError {
    /// The operation that failed, in words.
    pub open spec fn context_text(self) -> Seq<char> {
        match self.failure {
            Failure::Parsing(_) => "cannot parse duration spec"@,
            Failure::Terminal(TerminalError::Acquire) => "cannot acquire terminal"@,
            Failure::Terminal(TerminalError::Draw) => "cannot render frame"@,
            Failure::Terminal(TerminalError::Restore) => "cannot restore terminal"@,
            Failure::Audio(_) => "cannot reproduce beep"@,
        }
    }

    /// What the error says of itself, whatever failed.
    pub fn message(&self) -> (text: &'static str)
        ensures
            text@ == "An application error has occured"@,
    {
        "An application error has occured"
    }

    /// Names the operation that failed.
    pub fn context(&self) -> (text: &'static str)
        ensures
            text@ == self.context_text(),
    {
        match &self.failure {
            Failure::Parsing(_) => "cannot parse duration spec",
            Failure::Terminal(TerminalError::Acquire) => "cannot acquire terminal",
            Failure::Terminal(TerminalError::Draw) => "cannot render frame",
            Failure::Terminal(TerminalError::Restore) => "cannot restore terminal",
            Failure::Audio(_) => "cannot reproduce beep",
        }
    }
}

/// The exit status of a run: zero if it went through, and not zero if it
/// failed, whatever failed.
pub fn exit_status(failure: &Option<AppError>) -> (status: u8)
    ensures
        status == if failure is None {
            EXIT_SUCCESS
        } else {
            EXIT_FAILURE
        },
{
    match failure {
        None => EXIT_SUCCESS,
        Some(_) => EXIT_FAILURE,
    }
}

} // verus!
