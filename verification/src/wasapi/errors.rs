use vstd::prelude::*;

verus! {

/// Errors of the capture-endpoint layer.
///
/// Each variant that carries an integer records the raw value that the
/// endpoint API reported and that could not be interpreted.
#[derive(Clone, Copy, Debug, PartialEq, Eq, Structural)]
pub enum WasapiError {
    /// A raw data-flow value that is neither render nor capture.
    IllegalDeviceDirection(i32),
    /// A raw role value that is not console, multimedia or communications.
    IllegalDeviceRole(i32),
    /// A raw session state outside the three documented states.
    IllegalSessionState(i32),
    /// A raw device state outside the four documented states.
    IllegalDeviceState(u32),
    /// Automatic format conversion was requested for an exclusive-mode session.
    AutomaticFormatConversionInExclusiveMode,
    /// Loopback capture was requested together with exclusive mode.
    LoopbackWithExclusiveMode,
    /// A render stream was requested on a capture endpoint.
    RenderToCaptureDevice,
    /// No acceptable shared-mode format exists for the endpoint.
    UnsupportedFormat,
}

} // verus!
