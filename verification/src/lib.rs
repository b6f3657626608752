//! Revealing a file in the platform's native file manager.
//!
//! The library decides what has to be started to show a path in Windows
//! Explorer, in the macOS Finder or in a Linux file manager, and which error a
//! request ends in. It starts nothing itself: a caller checks that the path
//! exists, hands the answer in, and spawns the launch that comes back.

pub mod error;
pub mod launch;
pub mod parent;
pub mod plan;
pub mod platform;
mod text;
