//! The platform layer of a GPU-accelerated UI framework: what the Android, iOS,
//! web and Windows backends decide, with every decision stated in a contract and
//! proved. The operating system, the browser and the GPU are reached from
//! outside this library, which takes plain values in and hands plain values out.

pub mod android;
pub mod bytes;
pub mod clipboard;
pub mod float;
pub mod geometry;
pub mod input;
pub mod ios;
pub mod pen_tilt;
pub mod protocol;
pub mod text;
pub mod touch;
pub mod urls;
pub mod web;
pub mod window;
pub mod windows;
