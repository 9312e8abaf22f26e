//! A client-side engine for a relay-based messaging protocol: signed events,
//! their identifiers, the requests sent to a relay and the responses read back.

pub mod base16;
pub mod connection;
pub mod event;
pub mod json;
pub mod keys;
pub mod request;
pub mod response;
pub mod tui;
