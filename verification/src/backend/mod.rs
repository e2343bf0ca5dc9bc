//! Decoders for the reports of supported input controllers.
pub mod joycon;
pub mod pa_switch;
pub mod steam_controller;
pub mod gc_adaptor;
pub mod usb_pa_switch;
pub mod sdl2;
pub mod xinput;
pub mod usb;
