//! Encoders from the gamepad state to the reports of emulated output
//! devices.
pub mod dsus;
pub mod uinput;
pub mod vigem;
