//! The three- and six-button controllers of the Mega Drive.

pub mod controller;
pub mod outcome;
pub mod protocol;
