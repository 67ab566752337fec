//! Segmented operand stack for a stack-based bytecode interpreter.
//!
//! The stack keeps four independent sequences, one per physical value
//! width (32-bit, 64-bit, 128-bit, reference).  Every operation's effect
//! is stated against a mathematical model of those four sequences.

pub mod laws;
pub mod locals;
pub mod model;
pub mod value_stack;
pub mod values;
