//! The features of the timer, one module each.

pub mod audio;
pub mod countdown;
pub mod driver;
pub mod duration_parsing;
pub mod render;
