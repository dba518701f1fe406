//! Core logic of an X11 screenshot tool: resolving a capture target to a
//! window, converting the server's raw pixel data into an RGBA buffer, and
//! the decision logic of the clipboard selection-ownership exchange.
//!
//! Everything that talks to the display server is kept out of this crate:
//! the components here are pure state machines and conversions, and a thin
//! unverified driver performs the actual protocol round trips, feeding the
//! replies back in as plain values.

pub mod atoms;
pub mod capture;
pub mod clipboard;
pub mod errors;
pub mod format;
pub mod resolve;
pub mod target;
pub mod text;
