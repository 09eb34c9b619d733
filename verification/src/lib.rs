//! Decision logic of the Synapse MCP server.

pub mod clock;
pub mod connect;
pub mod error;
pub mod geometry;
pub mod http;
pub mod ieee;
pub mod json;
pub mod keys;
pub mod m1;
pub mod m2;
pub mod m3;
pub mod numerals;
pub mod order;
pub mod text;
