//! Capture, transform, and encode animation frames.
//!
//! The library models the recording-and-encoding pipeline of a desktop
//! capture tool: a paced capture loop, an ordered per-frame transform chain,
//! time-based trimming of decoded animations, and interchangeable animation
//! encoder backends with cooperative cancellation.

pub mod apng;
pub mod app;
pub mod decode;
pub mod edit;
pub mod encode;
pub mod error;
pub mod frame;
pub mod geometry;
pub mod keys;
pub mod pixels;
pub mod record;
pub mod settings;
pub mod text;
