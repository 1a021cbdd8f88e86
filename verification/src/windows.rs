//! The Windows backend: gestures of precision touchpads.

pub mod direct_manipulation;
