//! A focus timer: duration tokens are parsed and summed, a countdown clock is
//! ticked once a second, and every tick is projected onto a frame of styled
//! text regions.

pub mod common;
pub mod error;
pub mod feature;
