//! The HTTP side of the server.

pub mod session;
