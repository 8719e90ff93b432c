//! Core of a system-audio spectrum monitor.
//!
//! The pipeline captures a machine's output stream in loopback mode,
//! cuts the interleaved byte stream into fixed-size chunks of samples,
//! and answers polls for a banded magnitude spectrum of the latest
//! chunk. This crate holds everything about that pipeline that can be
//! stated and proved over plain values: the endpoint format model and
//! its negotiation rules ([`wasapi`]), the byte-to-sample extraction
//! ([`utils`]), the sizing and banding of the transform ([`fft`]), and
//! the controller state machine that the host drives ([`monitor`]).
//! The operating-system handles, the threads and the floating-point
//! transform around it consume these pieces and add no decisions of
//! their own.

pub mod fft;
pub mod monitor;
pub mod types;
pub mod utils;
pub mod wasapi;

pub use types::AudioDevice;
