//! The state behind the terminal interface.

pub mod app;
