//! Device-session logic for a BLE-controlled robotic arm: the wire encoding of
//! its channels, the session record, and the decisions that each command takes
//! between two calls of the transport.
//!
//! The library performs no I/O. A command starts as a [`session::Step`] that
//! names the next transport call; the caller performs it and hands the outcome
//! to the matching `resume_*` function, until the step is `Done`.

pub mod codec;
pub mod device;
pub mod error;
pub mod laws;
pub mod message;
pub mod session;
pub mod state;
pub mod text;
