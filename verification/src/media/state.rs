use vstd::prelude::*;

use crate::native_enum::NativeParsingError;

verus! {

/// What a media source is doing.
#[derive(Debug, Clone, Copy, PartialEq, Eq, Structural)]
pub enum MediaState {
    /// No media is loaded.
    Idle,
    Playing,
    Opening,
    Buffering,
    Paused,
    Stopped,
    Ended,
    Error,
}

impl MediaState {
    /// The host's number for the state.
    pub open spec fn native(self) -> u32 {
        match self {
            MediaState::Idle => 0,
            MediaState::Playing => 1,
            MediaState::Opening => 2,
            MediaState::Buffering => 3,
            MediaState::Paused => 4,
            MediaState::Stopped => 5,
            MediaState::Ended => 6,
            MediaState::Error => 7,
        }
    }

    #[verifier::when_used_as_spec(native)]
    pub fn to_native(self) -> (r: u32)
        ensures
            r == self.native(),
    {
        match self {
            MediaState::Idle => 0,
            MediaState::Playing => 1,
            MediaState::Opening => 2,
            MediaState::Buffering => 3,
            MediaState::Paused => 4,
            MediaState::Stopped => 5,
            MediaState::Ended => 6,
            MediaState::Error => 7,
        }
    }

    /// The state with the number `state`; `None` where no state has it.
    pub fn from_native(state: u32) -> (r: Option<Self>)
        ensures
            r is Some <==> state <= 7,
            r matches Some(s) ==> s.native() == state,
    {
        match state {
            0 => Some(MediaState::Idle),
            1 => Some(MediaState::Playing),
            2 => Some(MediaState::Opening),
            3 => Some(MediaState::Buffering),
            4 => Some(MediaState::Paused),
            5 => Some(MediaState::Stopped),
            6 => Some(MediaState::Ended),
            7 => Some(MediaState::Error),
            _ => None,
        }
    }

    pub fn as_raw(&self) -> (r: u32)
        ensures
            r == self.native(),
    {
        self.to_native()
    }

    /// As [`MediaState::from_native`], with the rejected number in the error.
    pub fn from_raw(value: u32) -> (r: Result<Self, NativeParsingError>)
        ensures
            r is Ok <==> value <= 7,
            r matches Ok(s) ==> s.native() == value,
            r matches Err(e) ==> e.spec_value() == value as i64 && e.spec_struct_name()
                == "MediaState",
    {
        match Self::from_native(value) {
            Some(state) => Ok(state),
            None => Err(NativeParsingError::new("MediaState", value as i64)),
        }
    }
}

} // verus!
