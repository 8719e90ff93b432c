use vstd::prelude::*;

use crate::wasapi::errors::WasapiError;
use crate::wasapi::types::{Direction, ShareMode};

verus! {

/// Buffer flag bit reported by the capture endpoint: the data in the
/// packet is not correlated with the previous packet's device position.
pub const BUFFERFLAGS_DATA_DISCONTINUITY: u32 = 1;

/// Buffer flag bit reported by the capture endpoint: treat all of the
/// data in the packet as silence.
pub const BUFFERFLAGS_SILENT: u32 = 2;

/// Buffer flag bit reported by the capture endpoint: the time at which
/// the device position was recorded is uncertain.
pub const BUFFERFLAGS_TIMESTAMP_ERROR: u32 = 4;

/// Stream flag: the audio engine signals an event handle when a buffer
/// is ready.
pub const STREAMFLAGS_EVENTCALLBACK: u32 = 0x00040000;

/// Stream flag: open the stream in loopback mode, capturing what the
/// render endpoint is playing.
pub const STREAMFLAGS_LOOPBACK: u32 = 0x00020000;

/// Stream flag: let the audio engine convert between the requested
/// format and the endpoint's mix format.
pub const STREAMFLAGS_AUTOCONVERTPCM: u32 = 0x80000000;

/// Stream flag: use high-quality rate conversion together with
/// automatic format conversion.
pub const STREAMFLAGS_SRC_DEFAULT_QUALITY: u32 = 0x08000000;

/// The per-packet status flags that accompany each buffer the capture
/// endpoint hands out.
#[derive(Clone, Copy, Debug, Eq, PartialEq, Structural)]
pub struct BufferFlags {
    /// The packet is not contiguous with the previous one.
    pub data_discontinuity: bool,
    /// The packet holds silence.
    pub silent: bool,
    /// The packet's timestamp is unreliable.
    pub timestamp_error: bool,
}

impl BufferFlags {
    /// The flag word that a [`BufferFlags`] value stands for.
    pub open spec fn spec_to_u32(&self) -> int {
        (if self.data_discontinuity { BUFFERFLAGS_DATA_DISCONTINUITY } else { 0u32 })
            + (if self.silent { BUFFERFLAGS_SILENT } else { 0u32 })
            + (if self.timestamp_error { BUFFERFLAGS_TIMESTAMP_ERROR } else { 0u32 })
    }

    /// Decode a raw flag word into its three documented bits.
    pub fn new(flags: u32) -> (r: BufferFlags)
        ensures
            r.data_discontinuity == ((flags & BUFFERFLAGS_DATA_DISCONTINUITY) != 0),
            r.silent == ((flags & BUFFERFLAGS_SILENT) != 0),
            r.timestamp_error == ((flags & BUFFERFLAGS_TIMESTAMP_ERROR) != 0),
    {
        BufferFlags {
            data_discontinuity: (flags & BUFFERFLAGS_DATA_DISCONTINUITY) > 0,
            silent: (flags & BUFFERFLAGS_SILENT) > 0,
            timestamp_error: (flags & BUFFERFLAGS_TIMESTAMP_ERROR) > 0,
        }
    }

    /// The value with no flag set.
    pub fn none() -> (r: BufferFlags)
        ensures
            !r.data_discontinuity,
            !r.silent,
            !r.timestamp_error,
            r.spec_to_u32() == 0,
    {
        BufferFlags { data_discontinuity: false, silent: false, timestamp_error: false }
    }

    /// Encode the three bits back into a raw flag word.
    pub fn to_u32(&self) -> (r: u32)
        ensures
            r == self.spec_to_u32(),
    {
        let mut value: u32 = 0;
        if self.data_discontinuity {
            value += BUFFERFLAGS_DATA_DISCONTINUITY;
        }
        if self.silent {
            value += BUFFERFLAGS_SILENT;
        }
        if self.timestamp_error {
            value += BUFFERFLAGS_TIMESTAMP_ERROR;
        }
        value
    }
}

/// The stream flags that initializing an audio client must pass for a
/// given endpoint direction, stream direction and share mode, or the
/// error when the combination is not allowed.
///
/// Capturing from a render endpoint is loopback capture and works only
/// in shared mode; rendering to a capture endpoint is never allowed;
/// automatic format conversion exists only in shared mode.
pub open spec fn spec_stream_flags(
    device_direction: Direction,
    stream_direction: Direction,
    sharemode: ShareMode,
    convert: bool,
) -> Result<u32, WasapiError> {
    if sharemode is Exclusive && convert {
        Err(WasapiError::AutomaticFormatConversionInExclusiveMode)
    } else if device_direction is Render && stream_direction is Capture && sharemode
        is Exclusive {
        Err(WasapiError::LoopbackWithExclusiveMode)
    } else if device_direction is Capture && stream_direction is Render {
        Err(WasapiError::RenderToCaptureDevice)
    } else {
        let base = if device_direction is Render && stream_direction is Capture {
            STREAMFLAGS_EVENTCALLBACK | STREAMFLAGS_LOOPBACK
        } else {
            STREAMFLAGS_EVENTCALLBACK
        };
        if convert {
            Ok(base | (STREAMFLAGS_AUTOCONVERTPCM | STREAMFLAGS_SRC_DEFAULT_QUALITY))
        } else {
            Ok(base)
        }
    }
}

/// Compute the stream flags for initializing an audio client, rejecting
/// the combinations that the endpoint API does not allow.
pub fn stream_flags_for(
    device_direction: &Direction,
    stream_direction: &Direction,
    sharemode: &ShareMode,
    convert: bool,
) -> (r: Result<u32, WasapiError>)
    ensures
        r == spec_stream_flags(*device_direction, *stream_direction, *sharemode, convert),
{
    if sharemode == &ShareMode::Exclusive && convert {
        return Err(WasapiError::AutomaticFormatConversionInExclusiveMode);
    }
    let base: u32 = match (device_direction, stream_direction, sharemode) {
        (Direction::Render, Direction::Capture, ShareMode::Shared) => {
            STREAMFLAGS_EVENTCALLBACK | STREAMFLAGS_LOOPBACK
        },
        (Direction::Render, Direction::Capture, ShareMode::Exclusive) => {
            return Err(WasapiError::LoopbackWithExclusiveMode);
        },
        (Direction::Capture, Direction::Render, _) => {
            return Err(WasapiError::RenderToCaptureDevice);
        },
        _ => STREAMFLAGS_EVENTCALLBACK,
    };
    if convert {
        Ok(base | (STREAMFLAGS_AUTOCONVERTPCM | STREAMFLAGS_SRC_DEFAULT_QUALITY))
    } else {
        Ok(base)
    }
}

/// The device period to pass when initializing: shared mode leaves the
/// period to the engine (zero), exclusive mode uses the caller's value.
pub fn device_period_for(sharemode: &ShareMode, period: i64) -> (r: i64)
    ensures
        *sharemode is Shared ==> r == 0,
        *sharemode is Exclusive ==> r == period,
{
    match sharemode {
        ShareMode::Exclusive => period,
        ShareMode::Shared => 0,
    }
}

} // verus!
