//! The Android backend: an activity with one surface, reached through the native
//! activity glue.

pub mod credentials;
pub mod dispatcher;
pub mod display;
pub mod events;
pub mod gesture_laws;
pub mod java;
pub mod key_laws;
pub mod laws;
pub mod motion_laws;
pub mod platform;
pub mod surface;
pub mod system_laws;
pub mod window;
