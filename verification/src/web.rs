//! The web backend: a window is a canvas, its keyboard a hidden input element, and the
//! browser's events are what it hears.

pub mod atlas;
pub mod draw_laws;
pub mod input_laws;
pub mod key_laws;
pub mod keys;
pub mod laws;
pub mod platform;
pub mod renderer;
pub mod window;
