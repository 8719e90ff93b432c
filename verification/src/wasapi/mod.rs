//! Interface model for the shared-mode loopback capture endpoint API:
//! the enums, flags and format descriptions that the capture pipeline
//! negotiates with the operating system, together with the pure
//! calculations (periods, stream flags) that belong to that negotiation.

pub mod audio_client;
pub mod errors;
pub mod types;
pub mod utils;
pub mod wave_format;

pub use errors::WasapiError;
pub use types::{DeviceState, Direction, Role, SampleType, SessionState, ShareMode};
pub use wave_format::WaveFormat;
