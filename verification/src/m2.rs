//! Action tools.
//!
//! What the tools that press keys, turn the wheel, draw strokes and use the clipboard decide.

pub mod action;
pub mod clipboard;
pub mod press;
pub mod scroll;
pub mod stroke;

pub use press::{ActPressParams, ActPressResponse};
