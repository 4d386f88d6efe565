//! Wayoa: the compositor kernel of a Wayland display server that mirrors
//! each client toplevel as one native host window.
//!
//! The kernel is a set of plain state machines: surfaces with
//! double-buffered state, shared-memory pools and buffers, the xdg-shell
//! configure handshake, seat focus routing, and the auxiliary protocols.
//! Host windows, the GPU and the socket live outside; they hand the kernel
//! plain values and act on the values it hands back.

pub mod backend;
pub mod ids;
pub mod compositor;
pub mod protocol;
pub mod renderer;
pub mod input;
pub mod server;
