use vstd::prelude::*;

use super::context::{CreatableOutputContext, OutputRef};
use super::EncoderPacket;
use crate::data::{DataObj, FloatBits};
use crate::hotkey::HotkeyCallback;
use crate::media::{AudioDataContext, VideoDataOutputContext};
use crate::properties::Properties;
use crate::string::ObsString;

verus! {

/// An output type that the host can make instances of.
///
/// As for sources, each method comes with a relation, named after it, that
/// says what a call may do; an output that leaves a relation as it is says
/// nothing of the method.
pub trait Outputable: Sized {
    /// What a hotkey of this output runs when it fires.
    type Callback: HotkeyCallback<Self>;

    /// Whether `id` is the id under which the host knows the output type.
    open spec fn on_get_id(id: ObsString) -> bool {
        true
    }

    /// What one call of `create` may do: from `settings`, for the output
    /// `output`, it asked for the hotkeys `hotkeys` and returned `data`.
    open spec fn on_create(
        settings: DataObj,
        output: OutputRef,
        hotkeys: Seq<(ObsString, ObsString, Self::Callback)>,
        data: Self,
    ) -> bool {
        true
    }

    /// What one call of `start` may do: `pre` is the instance before the
    /// call and `post` after it, `result` is what it returned.
    open spec fn on_start(pre: Self, post: Self, result: bool) -> bool {
        true
    }

    /// What one call of `stop` may do: `pre` is the instance before the call
    /// and `post` after it.
    open spec fn on_stop(pre: Self, ts: u64, post: Self) -> bool {
        true
    }

    fn get_id() -> (id: ObsString)
        ensures
            Self::on_get_id(id),
    ;

    /// Makes the state of a new instance. `context` starts without hotkeys.
    fn create(context: &mut CreatableOutputContext<'_, Self::Callback>, output: OutputRef) -> (data:
        Self)
        requires
            old(context).hotkeys().len() == 0,
        ensures
            final(context).spec_settings() == old(context).spec_settings(),
            Self::on_create(old(context).spec_settings(), output, final(context).hotkeys(), data),
    ;

    /// Told to start putting out. Says whether it could.
    fn start(&mut self) -> (result: bool)
        ensures
            Self::on_start(*old(self), *final(self), result),
    ;

    /// Told to stop putting out at the time `ts`.
    fn stop(&mut self, ts: u64)
        ensures
            Self::on_stop(*old(self), ts, *final(self)),
    ;
}

/// A output with a name for the host to show.
pub trait GetNameOutput {
    /// What one call of `get_name` may do: `result` is what it returned.
    open spec fn on_get_name(result: ObsString) -> bool {
        true
    }

    fn get_name() -> (result: ObsString)
        ensures
            Self::on_get_name(result),
    ;
}

/// A output that is handed one raw video frame.
pub trait RawVideoOutput: Sized {
    /// What one call of `raw_video` may do: `pre` is the instance before the
    /// call and `post` after it, `frame` is what the call was handed and
    /// `frame_after` what it left.
    open spec fn on_raw_video(
        pre: Self,
        frame: VideoDataOutputContext,
        post: Self,
        frame_after: VideoDataOutputContext,
    ) -> bool {
        true
    }

    fn raw_video(&mut self, frame: &mut VideoDataOutputContext)
        ensures
            Self::on_raw_video(*old(self), *old(frame), *final(self), *final(frame)),
    ;
}

/// A output that is handed one block of raw audio.
pub trait RawAudioOutput: Sized {
    /// What one call of `raw_audio` may do: `pre` is the instance before the
    /// call and `post` after it, `frame` is what the call was handed and
    /// `frame_after` what it left.
    open spec fn on_raw_audio(
        pre: Self,
        frame: AudioDataContext,
        post: Self,
        frame_after: AudioDataContext,
    ) -> bool {
        true
    }

    fn raw_audio(&mut self, frame: &mut AudioDataContext)
        ensures
            Self::on_raw_audio(*old(self), *old(frame), *final(self), *final(frame)),
    ;
}

/// A output that is handed one block of raw audio of the track `idx`.
pub trait RawAudio2Output: Sized {
    /// What one call of `raw_audio2` may do: `pre` is the instance before the
    /// call and `post` after it, `frame` is what the call was handed and
    /// `frame_after` what it left.
    open spec fn on_raw_audio2(
        pre: Self,
        idx: usize,
        frame: AudioDataContext,
        post: Self,
        frame_after: AudioDataContext,
    ) -> bool {
        true
    }

    fn raw_audio2(&mut self, idx: usize, frame: &mut AudioDataContext)
        ensures
            Self::on_raw_audio2(*old(self), idx, *old(frame), *final(self), *final(frame)),
    ;
}

/// A output that is handed one packet from an encoder.
pub trait EncodedPacketOutput: Sized {
    /// What one call of `encoded_packet` may do: `pre` is the instance before
    /// the call and `post` after it, `packet` is what the call was handed and
    /// `packet_after` what it left.
    open spec fn on_encoded_packet(
        pre: Self,
        packet: EncoderPacket,
        post: Self,
        packet_after: EncoderPacket,
    ) -> bool {
        true
    }

    fn encoded_packet(&mut self, packet: &mut EncoderPacket)
        ensures
            Self::on_encoded_packet(*old(self), *old(packet), *final(self), *final(packet)),
    ;
}

/// A output that is told when the settings of the instance have changed.
pub trait UpdateOutput: Sized {
    /// What one call of `update` may do: `pre` is the instance before the call
    /// and `post` after it, `settings` is what the call was handed and
    /// `settings_after` what it left.
    open spec fn on_update(
        pre: Self,
        settings: DataObj,
        post: Self,
        settings_after: DataObj,
    ) -> bool {
        true
    }

    fn update(&mut self, settings: &mut DataObj)
        ensures
            Self::on_update(*old(self), *old(settings), *final(self), *final(settings)),
    ;
}

/// A output that is asked to fill in the default settings of the unit.
pub trait GetDefaultsOutput {
    /// What one call of `get_defaults` may do: `settings` is what the call was
    /// handed and `settings_after` what it left.
    open spec fn on_get_defaults(settings: DataObj, settings_after: DataObj) -> bool {
        true
    }

    fn get_defaults(settings: &mut DataObj)
        ensures
            Self::on_get_defaults(*old(settings), *final(settings)),
    ;
}

/// A output that is asked for the properties that the user can edit.
pub trait GetPropertiesOutput: Sized {
    /// What one call of `get_properties` may do: `pre` is the instance before
    /// the call and `post` after it, `result` is what it returned.
    open spec fn on_get_properties(pre: Self, post: Self, result: Properties) -> bool {
        true
    }

    fn get_properties(&mut self) -> (result: Properties)
        ensures
            Self::on_get_properties(*old(self), *final(self), result),
    ;
}

/// A output that is asked how many bytes the instance has put out.
pub trait GetTotalBytesOutput: Sized {
    /// What one call of `get_total_bytes` may do: `pre` is the instance before
    /// the call and `post` after it, `result` is what it returned.
    open spec fn on_get_total_bytes(pre: Self, post: Self, result: u64) -> bool {
        true
    }

    fn get_total_bytes(&mut self) -> (result: u64)
        ensures
            Self::on_get_total_bytes(*old(self), *final(self), result),
    ;
}

/// A output that is asked how many frames the instance has dropped.
pub trait GetDroppedFramesOutput: Sized {
    /// What one call of `get_dropped_frames` may do: `pre` is the instance
    /// before the call and `post` after it, `result` is what it returned.
    open spec fn on_get_dropped_frames(pre: Self, post: Self, result: i32) -> bool {
        true
    }

    fn get_dropped_frames(&mut self) -> (result: i32)
        ensures
            Self::on_get_dropped_frames(*old(self), *final(self), result),
    ;
}

/// A output that is asked how congested the instance is, from 0 to 1.
pub trait GetCongestionOutput: Sized {
    /// What one call of `get_congestion` may do: `pre` is the instance before
    /// the call and `post` after it, `result` is what it returned.
    open spec fn on_get_congestion(pre: Self, post: Self, result: FloatBits) -> bool {
        true
    }

    fn get_congestion(&mut self) -> (result: FloatBits)
        ensures
            Self::on_get_congestion(*old(self), *final(self), result),
    ;
}

/// A output that is asked how many milliseconds the instance took to connect.
pub trait GetConnectTimeMsOutput: Sized {
    /// What one call of `get_connect_time_ms` may do: `pre` is the instance
    /// before the call and `post` after it, `result` is what it returned.
    open spec fn on_get_connect_time_ms(pre: Self, post: Self, result: i32) -> bool {
        true
    }

    fn get_connect_time_ms(&mut self) -> (result: i32)
        ensures
            Self::on_get_connect_time_ms(*old(self), *final(self), result),
    ;
}

} // verus!
