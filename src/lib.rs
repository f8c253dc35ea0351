//! A mutable text buffer for editors, backed by a rope.
//!
//! The buffer's contents are modelled as a sequence of Unicode scalar
//! values; every position is a character index into that sequence.
mod rope_specs;

pub mod buffer;
pub mod laws;
pub mod text;

pub use buffer::{BufferError, TextBuffer};
