//! Clipboard access for a Wayland session, written as a capability-aware
//! adapter over a selection-transfer transport.
//!
//! The library decides; the caller performs. Every operation of
//! [`wayland_clipboard::WaylandClipboardContext`] either names the request that
//! the transport has to carry out, or takes what the transport answered and
//! says what follows from it. Nothing here talks to the compositor.

pub mod error;
pub mod transport;
pub mod text;
pub mod wayland_clipboard;
pub mod session;
