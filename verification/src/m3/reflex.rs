//! Reflexes.

pub mod common;
