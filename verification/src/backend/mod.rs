//! What the kernel shares with the host backend.

pub mod cocoa;
