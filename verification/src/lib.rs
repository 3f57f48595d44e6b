//! An on-screen keyboard for egui applications on devices without a hardware keyboard.
pub mod clipboard;
pub mod events;
pub mod frame;
pub mod geometry;
pub mod host;
pub mod keyboard;
pub mod laws;
pub mod layouts;
pub mod text;

pub use crate::keyboard::Keyboard;
