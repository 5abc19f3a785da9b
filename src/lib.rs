//! Turns relative pointer motion into the position of a virtual joystick axis.
pub mod config;
pub mod translate;
pub mod select;
