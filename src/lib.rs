//! A single-value counter service: construct it, read it, overwrite it, and
//! increment it, each increment producing an event that carries the new value.

pub mod counter;
pub mod laws;

pub use counter::{Counter, Incremented, InnerCounter};
