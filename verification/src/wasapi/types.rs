use vstd::prelude::*;

use crate::wasapi::errors::WasapiError;

verus! {

/// Audio direction, playback or capture.
///
/// The raw values are those of the endpoint API's data-flow enumeration:
/// 0 for render, 1 for capture (2 means "both" and is not a direction).
#[derive(Clone, Copy, Debug, Eq, PartialEq, Structural)]
pub enum Direction {
    Render,
    Capture,
}

impl Direction {
    /// The decoding of a raw data-flow value.
    pub open spec fn spec_from_raw(value: i32) -> Result<Direction, WasapiError> {
        if value == 0 {
            Ok(Direction::Render)
        } else if value == 1 {
            Ok(Direction::Capture)
        } else {
            Err(WasapiError::IllegalDeviceDirection(value))
        }
    }

    /// Decode a raw data-flow value reported by the endpoint API.
    pub fn try_from_raw(value: i32) -> (r: Result<Direction, WasapiError>)
        ensures
            r == Direction::spec_from_raw(value),
    {
        match value {
            0 => Ok(Direction::Render),
            1 => Ok(Direction::Capture),
            x => Err(WasapiError::IllegalDeviceDirection(x)),
        }
    }

    /// The raw data-flow value for this direction.
    pub fn to_raw(&self) -> (r: i32)
        ensures
            Direction::spec_from_raw(r) == Ok::<Direction, WasapiError>(*self),
    {
        match self {
            Direction::Render => 0,
            Direction::Capture => 1,
        }
    }

    /// A readable name for this direction.
    pub fn name(&self) -> (r: &'static str)
        ensures
            *self is Render ==> r@ == "Render"@,
            *self is Capture ==> r@ == "Capture"@,
    {
        match self {
            Direction::Render => "Render",
            Direction::Capture => "Capture",
        }
    }
}

/// Device role for default-endpoint lookup.
///
/// Console is the role used by most applications. The raw values are those
/// of the endpoint API's role enumeration: 0 console, 1 multimedia,
/// 2 communications.
#[derive(Clone, Copy, Debug, Eq, PartialEq, Structural)]
pub enum Role {
    Console,
    Multimedia,
    Communications,
}

impl Role {
    /// The decoding of a raw role value.
    pub open spec fn spec_from_raw(value: i32) -> Result<Role, WasapiError> {
        if value == 0 {
            Ok(Role::Console)
        } else if value == 1 {
            Ok(Role::Multimedia)
        } else if value == 2 {
            Ok(Role::Communications)
        } else {
            Err(WasapiError::IllegalDeviceRole(value))
        }
    }

    /// Decode a raw role value reported by the endpoint API.
    pub fn try_from_raw(value: i32) -> (r: Result<Role, WasapiError>)
        ensures
            r == Role::spec_from_raw(value),
    {
        match value {
            0 => Ok(Role::Console),
            1 => Ok(Role::Multimedia),
            2 => Ok(Role::Communications),
            x => Err(WasapiError::IllegalDeviceRole(x)),
        }
    }

    /// The raw role value for this role.
    pub fn to_raw(&self) -> (r: i32)
        ensures
            Role::spec_from_raw(r) == Ok::<Role, WasapiError>(*self),
    {
        match self {
            Role::Console => 0,
            Role::Multimedia => 1,
            Role::Communications => 2,
        }
    }
}

/// Share mode for a device: shared (the OS mixes streams) or exclusive.
#[derive(Clone, Copy, Debug, Eq, PartialEq, Structural)]
pub enum ShareMode {
    Shared,
    Exclusive,
}

/// Sample representation, float or integer.
#[derive(Clone, Copy, Debug, Eq, PartialEq, Structural)]
pub enum SampleType {
    Float,
    Int,
}

/// States of an audio session, the documented session-state constants:
/// 0 inactive, 1 active, 2 expired.
#[derive(Clone, Copy, Debug, Eq, PartialEq, Structural)]
pub enum SessionState {
    /// At least one of the streams in the session is running.
    Active,
    /// The session contains streams, but none of them is running.
    Inactive,
    /// The session contains no streams.
    Expired,
}

impl SessionState {
    /// The decoding of a raw session-state value.
    pub open spec fn spec_from_raw(value: i32) -> Result<SessionState, WasapiError> {
        if value == 1 {
            Ok(SessionState::Active)
        } else if value == 0 {
            Ok(SessionState::Inactive)
        } else if value == 2 {
            Ok(SessionState::Expired)
        } else {
            Err(WasapiError::IllegalSessionState(value))
        }
    }

    /// Decode a raw session-state value reported by the endpoint API.
    pub fn try_from_raw(value: i32) -> (r: Result<SessionState, WasapiError>)
        ensures
            r == SessionState::spec_from_raw(value),
    {
        match value {
            1 => Ok(SessionState::Active),
            0 => Ok(SessionState::Inactive),
            2 => Ok(SessionState::Expired),
            x => Err(WasapiError::IllegalSessionState(x)),
        }
    }
}

/// States of an endpoint device, the documented device-state bit values:
/// 1 active, 2 disabled, 4 not present, 8 unplugged.
#[derive(Clone, Copy, Debug, Eq, PartialEq, Structural)]
pub enum DeviceState {
    /// The endpoint device is present, enabled and plugged in.
    Active,
    /// The user has disabled the device in the control panel.
    Disabled,
    /// The adapter that connects to the endpoint device has been removed
    /// or disabled.
    NotPresent,
    /// The adapter is present but the endpoint device is not plugged into
    /// its jack.
    Unplugged,
}

impl DeviceState {
    /// The decoding of a raw device-state value.
    pub open spec fn spec_from_raw(value: u32) -> Result<DeviceState, WasapiError> {
        if value == 1 {
            Ok(DeviceState::Active)
        } else if value == 2 {
            Ok(DeviceState::Disabled)
        } else if value == 4 {
            Ok(DeviceState::NotPresent)
        } else if value == 8 {
            Ok(DeviceState::Unplugged)
        } else {
            Err(WasapiError::IllegalDeviceState(value))
        }
    }

    /// Decode a raw device-state value reported by the endpoint API.
    pub fn try_from_raw(value: u32) -> (r: Result<DeviceState, WasapiError>)
        ensures
            r == DeviceState::spec_from_raw(value),
    {
        match value {
            1 => Ok(DeviceState::Active),
            2 => Ok(DeviceState::Disabled),
            4 => Ok(DeviceState::NotPresent),
            8 => Ok(DeviceState::Unplugged),
            x => Err(WasapiError::IllegalDeviceState(x)),
        }
    }

    /// The raw device-state value for this state.
    pub fn to_raw(&self) -> (r: u32)
        ensures
            DeviceState::spec_from_raw(r) == Ok::<DeviceState, WasapiError>(*self),
    {
        match self {
            DeviceState::Active => 1,
            DeviceState::Disabled => 2,
            DeviceState::NotPresent => 4,
            DeviceState::Unplugged => 8,
        }
    }
}

} // verus!
