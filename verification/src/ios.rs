//! The iOS backend: windows are views of the system's toolkit, touches are synthesised
//! into a mouse, and the system keyboard types through positions and ranges.

pub mod class_laws;
pub mod classes;
pub mod edit;
pub mod events;
pub mod foundation;
pub mod key_laws;
pub mod keychain;
pub mod laws;
pub mod menu;
pub mod menu_laws;
pub mod menu_shape_laws;
pub mod pasteboard;
pub mod platform;
pub mod system_laws;
pub mod text_input;
pub mod touch_laws;
pub mod window;
