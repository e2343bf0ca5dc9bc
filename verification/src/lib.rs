//! Verified core of an input-device remapping service: the controller data
//! model (buttons, analogs, component descriptions), the decoders that turn
//! raw reports of supported controllers into that model, and the encoders
//! that turn it into the reports of emulated output devices.

pub mod bits;
pub mod component;
pub mod device;
pub mod virt;
pub mod event;
pub mod plugin;
pub mod text;
pub mod backend;
pub mod xusb;
pub mod swi;
pub mod frontend;
pub mod znet;
pub mod editor;
pub mod engine;
pub mod routes;
