//! Verified core of a low-latency remote desktop streamer: the wire messages that
//! the viewer and the host exchange, the decisions each side takes on them, and the
//! small pieces of arithmetic and text that go with them.

pub mod capture;
pub mod controls;
pub mod decimal;
pub mod flags;
pub mod flex;
pub mod host;
pub mod laws;
pub mod layout;
pub mod menu;
pub mod protocol;
pub mod viewer;
