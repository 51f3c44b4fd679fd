//! The hot-reload core of a live fragment-shader viewer.
//!
//! The viewer watches one file, recompiles it whenever it changes, keeps the
//! last shader that compiled, and reports every outcome in a short on-screen
//! log. This crate holds the decisions of that pipeline as a state machine over
//! plain values: the host stats and reads the file, runs the shader compiler and
//! draws, and hands each result to the machine.

pub mod file;
pub mod log;
pub mod message;
pub mod pipeline;
pub mod viewer;
