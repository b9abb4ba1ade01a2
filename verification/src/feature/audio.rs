//! The audible signal at the end of a countdown.

use vstd::prelude::*;

verus! {

/// The tone could not be emitted.
#[derive(Clone, Copy, Debug, PartialEq, Eq, Structural)]
pub struct AudioError;

impl AudioError {
    /// What the error says of itself.
    pub fn message(&self) -> (text: &'static str)
        ensures
            text@ == "an audio error occured"@,
    {
        "an audio error occured"
    }
}

/// Something that can emit an audible tone of bounded length. It fails
/// where no audio output can be had. The timer has one emitter for real
/// runs; a silent one can stand in for it.
pub trait Beeper {
    fn beep(&self) -> Result<(), AudioError>;
}

} // verus!
