//! Core logic of a network input-injection server.
//!
//! A remote client authenticates with a shared password and then streams a
//! compact binary protocol of pointer positions and button events, which the
//! server replays on a virtual input device. This crate holds the verified
//! core: password authentication, the wire-format decoder and its event state
//! machine, and the discovery announcement payload. Socket and device I/O
//! live outside the library and act only on the values it hands back.

pub mod auth;
pub mod buttons;
pub mod decoder;
pub mod discovery;
pub mod groups;
pub mod session;
pub mod wire;
