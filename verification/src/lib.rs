//! A seven-state color cycler: a controller steps through states 0..=6 on
//! button input, and two pure mappers turn the current state into the RGB
//! channel levels for a tri-color LED and the color name shown on a display.

pub mod controller;
pub mod output;
