//! A small terminal counter: a state machine over key presses, laws of its
//! behaviour, and a pure description of the frame that displays it.

pub mod laws;
pub mod render;
pub mod state;
