//! A verified core for a 2D pixel-surface binding.
//!
//! A surface is a rectangular pixel buffer held by a native rendering
//! library and reached through a raw handle.  This crate holds the part of
//! such a binding that is worth proving: the ownership discipline of the
//! handle (release exactly once, and only when owned), the lock/unlock
//! state machine around direct pixel access, the packed pixel-format
//! arithmetic, and the translation of native failure codes into typed
//! errors.  The foreign calls themselves stay outside, in a thin shim that
//! mirrors every transition proved here.

pub mod bmp;
pub mod error;
pub mod flags;
pub mod pixels;
pub mod rect;
pub mod surface;
