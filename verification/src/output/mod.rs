pub mod context;
pub mod traits;
pub mod trampoline;

use std::marker::PhantomData;
use vstd::prelude::*;

use crate::string::ObsString;

pub use context::{CreatableOutputContext, OutputContext, OutputRef};
pub use traits::{
    EncodedPacketOutput,
    GetCongestionOutput,
    GetConnectTimeMsOutput,
    GetDefaultsOutput,
    GetDroppedFramesOutput,
    GetNameOutput,
    GetPropertiesOutput,
    GetTotalBytesOutput,
    Outputable,
    RawAudio2Output,
    RawAudioOutput,
    RawVideoOutput,
    UpdateOutput,
};

verus! {

/// Flag of a descriptor: the unit takes video.
pub const OBS_OUTPUT_VIDEO: u32 = 0x1;

/// Flag of a descriptor: the unit takes audio.
pub const OBS_OUTPUT_AUDIO: u32 = 0x2;

/// Flag of a descriptor: the unit takes encoded packets, not raw frames.
pub const OBS_OUTPUT_ENCODED: u32 = 0x4;

/// Flag of a descriptor: the unit takes more than one audio track.
pub const OBS_OUTPUT_MULTI_TRACK: u32 = 0x10;

/// One packet of encoded video or audio.
#[derive(Debug, Clone, PartialEq, Eq)]
pub struct EncoderPacket {
    pub data: Vec<u8>,
    pub pts: i64,
    pub dts: i64,
    pub keyframe: bool,
    pub track_idx: usize,
}

/// The trampolines of the bridge for outputs, one for every callback slot
/// of a descriptor.
#[derive(Debug, Clone, Copy, PartialEq, Eq, Structural)]
pub enum OutputCallback {
    Create,
    Destroy,
    Start,
    Stop,
    GetName,
    RawVideo,
    RawAudio,
    RawAudio2,
    EncodedPacket,
    Update,
    GetDefaults,
    GetProperties,
    GetTotalBytes,
    GetDroppedFrames,
    GetCongestion,
    GetConnectTimeMs,
}

/// What the host is told about an output type: its id, one slot for each
/// callback and the flags that sum up what the output takes.
#[derive(Debug, PartialEq, Eq)]
pub struct OutputDescriptor {
    pub id: ObsString,
    pub flags: u32,
    pub create: Option<OutputCallback>,
    pub destroy: Option<OutputCallback>,
    pub start: Option<OutputCallback>,
    pub stop: Option<OutputCallback>,
    pub get_name: Option<OutputCallback>,
    pub raw_video: Option<OutputCallback>,
    pub raw_audio: Option<OutputCallback>,
    pub raw_audio2: Option<OutputCallback>,
    pub encoded_packet: Option<OutputCallback>,
    pub update: Option<OutputCallback>,
    pub get_defaults: Option<OutputCallback>,
    pub get_properties: Option<OutputCallback>,
    pub get_total_bytes: Option<OutputCallback>,
    pub get_dropped_frames: Option<OutputCallback>,
    pub get_congestion: Option<OutputCallback>,
    pub get_connect_time_ms: Option<OutputCallback>,
}

/// `flags` with `bit` set where `wanted` holds.
pub open spec fn or_if(flags: u32, wanted: bool, bit: u32) -> u32 {
    if wanted {
        flags | bit
    } else {
        flags
    }
}

impl OutputDescriptor {
    /// What the slot for `callback` holds.
    pub open spec fn slot(self, callback: OutputCallback) -> Option<OutputCallback> {
        match callback {
            OutputCallback::Create => self.create,
            OutputCallback::Destroy => self.destroy,
            OutputCallback::Start => self.start,
            OutputCallback::Stop => self.stop,
            OutputCallback::GetName => self.get_name,
            OutputCallback::RawVideo => self.raw_video,
            OutputCallback::RawAudio => self.raw_audio,
            OutputCallback::RawAudio2 => self.raw_audio2,
            OutputCallback::EncodedPacket => self.encoded_packet,
            OutputCallback::Update => self.update,
            OutputCallback::GetDefaults => self.get_defaults,
            OutputCallback::GetProperties => self.get_properties,
            OutputCallback::GetTotalBytes => self.get_total_bytes,
            OutputCallback::GetDroppedFrames => self.get_dropped_frames,
            OutputCallback::GetCongestion => self.get_congestion,
            OutputCallback::GetConnectTimeMs => self.get_connect_time_ms,
        }
    }

    /// The descriptor with the slot for `callback` filled by its trampoline.
    pub open spec fn with_slot(self, callback: OutputCallback) -> OutputDescriptor {
        match callback {
            OutputCallback::Create => OutputDescriptor { create: Some(callback), ..self },
            OutputCallback::Destroy => OutputDescriptor { destroy: Some(callback), ..self },
            OutputCallback::Start => OutputDescriptor { start: Some(callback), ..self },
            OutputCallback::Stop => OutputDescriptor { stop: Some(callback), ..self },
            OutputCallback::GetName => OutputDescriptor { get_name: Some(callback), ..self },
            OutputCallback::RawVideo => OutputDescriptor { raw_video: Some(callback), ..self },
            OutputCallback::RawAudio => OutputDescriptor { raw_audio: Some(callback), ..self },
            OutputCallback::RawAudio2 => OutputDescriptor { raw_audio2: Some(callback), ..self },
            OutputCallback::EncodedPacket => OutputDescriptor {
                encoded_packet: Some(callback),
                ..self
            },
            OutputCallback::Update => OutputDescriptor { update: Some(callback), ..self },
            OutputCallback::GetDefaults => OutputDescriptor {
                get_defaults: Some(callback),
                ..self
            },
            OutputCallback::GetProperties => OutputDescriptor {
                get_properties: Some(callback),
                ..self
            },
            OutputCallback::GetTotalBytes => OutputDescriptor {
                get_total_bytes: Some(callback),
                ..self
            },
            OutputCallback::GetDroppedFrames => OutputDescriptor {
                get_dropped_frames: Some(callback),
                ..self
            },
            OutputCallback::GetCongestion => OutputDescriptor {
                get_congestion: Some(callback),
                ..self
            },
            OutputCallback::GetConnectTimeMs => OutputDescriptor {
                get_connect_time_ms: Some(callback),
                ..self
            },
        }
    }

    /// The descriptor that every output starts from: the four slots that
    /// no output can do without are filled, all others are empty, no flag
    /// is set.
    pub open spec fn initial(id: ObsString) -> OutputDescriptor {
        OutputDescriptor {
            id,
            flags: 0,
            create: Some(OutputCallback::Create),
            destroy: Some(OutputCallback::Destroy),
            start: Some(OutputCallback::Start),
            stop: Some(OutputCallback::Stop),
            get_name: None,
            raw_video: None,
            raw_audio: None,
            raw_audio2: None,
            encoded_packet: None,
            update: None,
            get_defaults: None,
            get_properties: None,
            get_total_bytes: None,
            get_dropped_frames: None,
            get_congestion: None,
            get_connect_time_ms: None,
        }
    }

    /// Whether the output takes encoded packets.
    pub open spec fn takes_encoded(self) -> bool {
        self.encoded_packet is Some
    }

    /// Whether the output takes raw video.
    pub open spec fn takes_video(self) -> bool {
        self.raw_video is Some
    }

    /// Whether the output takes raw audio, of one track or of several.
    pub open spec fn takes_audio(self) -> bool {
        self.raw_audio is Some || self.raw_audio2 is Some
    }

    /// Whether the output takes several audio tracks.
    pub open spec fn takes_tracks(self) -> bool {
        self.raw_audio2 is Some
    }

    /// The flags of the finished descriptor: those that were set, and one
    /// more for each thing that the filled slots show the output takes.
    pub open spec fn built_flags(self) -> u32 {
        or_if(
            or_if(
                or_if(
                    or_if(self.flags, self.takes_encoded(), OBS_OUTPUT_ENCODED),
                    self.takes_video(),
                    OBS_OUTPUT_VIDEO,
                ),
                self.takes_audio(),
                OBS_OUTPUT_AUDIO,
            ),
            self.takes_tracks(),
            OBS_OUTPUT_MULTI_TRACK,
        )
    }

    /// The finished descriptor: the same slots, and the flags that follow
    /// from them.
    pub open spec fn built(self) -> OutputDescriptor {
        OutputDescriptor { flags: self.built_flags(), ..self }
    }
}

/// A finished descriptor of an output. It cannot be changed any more.
#[derive(Debug)]
pub struct OutputInfo {
    info: OutputDescriptor,
}

impl View for OutputInfo {
    type V = OutputDescriptor;

    closed spec fn view(&self) -> OutputDescriptor {
        self.info
    }
}

impl OutputInfo {
    /// The descriptor, to read.
    pub fn as_ref(&self) -> (r: &OutputDescriptor)
        ensures
            *r == self@,
    {
        &self.info
    }

    /// Ends the wrapper and hands the descriptor over.
    pub fn into_raw(self) -> (r: OutputDescriptor)
        ensures
            r == self@,
    {
        self.info
    }
}

/// Builds the descriptor of the output type `D`.
///
/// The builder starts with the four slots that every output has. Every
/// other slot has an `enable_` method, which exists only where `D`
/// implements the capability that the slot calls.
pub struct OutputInfoBuilder<D: Outputable> {
    __data: PhantomData<D>,
    info: OutputDescriptor,
}

impl<D: Outputable> OutputInfoBuilder<D> {
    /// The descriptor as built so far.
    pub closed spec fn info(self) -> OutputDescriptor {
        self.info
    }

    /// Starts the descriptor of `D`, with the id that `D` gives.
    pub fn new() -> (r: Self)
        ensures
            D::on_get_id(r.info().id),
            r.info() == OutputDescriptor::initial(r.info().id),
    {
        Self {
            __data: PhantomData,
            info: OutputDescriptor {
                id: D::get_id(),
                flags: 0,
                create: Some(OutputCallback::Create),
                destroy: Some(OutputCallback::Destroy),
                start: Some(OutputCallback::Start),
                stop: Some(OutputCallback::Stop),
                get_name: None,
                raw_video: None,
                raw_audio: None,
                raw_audio2: None,
                encoded_packet: None,
                update: None,
                get_defaults: None,
                get_properties: None,
                get_total_bytes: None,
                get_dropped_frames: None,
                get_congestion: None,
                get_connect_time_ms: None,
            },
        }
    }

    /// Finishes the descriptor: sets the flag of everything that the filled
    /// slots show the output takes, and changes nothing else.
    pub fn build(self) -> (r: OutputInfo)
        ensures
            r@ == self.info().built(),
    {
        let mut info = self.info;
        let mut flags = info.flags;
        if info.encoded_packet.is_some() {
            flags = flags | OBS_OUTPUT_ENCODED;
        }
        if info.raw_video.is_some() {
            flags = flags | OBS_OUTPUT_VIDEO;
        }
        if info.raw_audio.is_some() || info.raw_audio2.is_some() {
            flags = flags | OBS_OUTPUT_AUDIO;
        }
        if info.raw_audio2.is_some() {
            flags = flags | OBS_OUTPUT_MULTI_TRACK;
        }
        info.flags = flags;
        OutputInfo { info }
    }
}

impl<D: Outputable + GetNameOutput> OutputInfoBuilder<D> {
    /// Fills the `get_name` slot with the trampoline that calls `D::get_name`.
    pub fn enable_get_name(self) -> (r: Self)
        ensures
            r.info() == self.info().with_slot(OutputCallback::GetName),
    {
        let mut builder = self;
        builder.info.get_name = Some(OutputCallback::GetName);
        builder
    }
}

impl<D: Outputable + RawVideoOutput> OutputInfoBuilder<D> {
    /// Fills the `raw_video` slot with the trampoline that calls `D::raw_video`.
    pub fn enable_raw_video(self) -> (r: Self)
        ensures
            r.info() == self.info().with_slot(OutputCallback::RawVideo),
    {
        let mut builder = self;
        builder.info.raw_video = Some(OutputCallback::RawVideo);
        builder
    }
}

impl<D: Outputable + RawAudioOutput> OutputInfoBuilder<D> {
    /// Fills the `raw_audio` slot with the trampoline that calls `D::raw_audio`.
    pub fn enable_raw_audio(self) -> (r: Self)
        ensures
            r.info() == self.info().with_slot(OutputCallback::RawAudio),
    {
        let mut builder = self;
        builder.info.raw_audio = Some(OutputCallback::RawAudio);
        builder
    }
}

impl<D: Outputable + RawAudio2Output> OutputInfoBuilder<D> {
    /// Fills the `raw_audio2` slot with the trampoline that calls `D::raw_audio2`.
    pub fn enable_raw_audio2(self) -> (r: Self)
        ensures
            r.info() == self.info().with_slot(OutputCallback::RawAudio2),
    {
        let mut builder = self;
        builder.info.raw_audio2 = Some(OutputCallback::RawAudio2);
        builder
    }
}

impl<D: Outputable + EncodedPacketOutput> OutputInfoBuilder<D> {
    /// Fills the `encoded_packet` slot with the trampoline that calls `D::encoded_packet`.
    pub fn enable_encoded_packet(self) -> (r: Self)
        ensures
            r.info() == self.info().with_slot(OutputCallback::EncodedPacket),
    {
        let mut builder = self;
        builder.info.encoded_packet = Some(OutputCallback::EncodedPacket);
        builder
    }
}

impl<D: Outputable + UpdateOutput> OutputInfoBuilder<D> {
    /// Fills the `update` slot with the trampoline that calls `D::update`.
    pub fn enable_update(self) -> (r: Self)
        ensures
            r.info() == self.info().with_slot(OutputCallback::Update),
    {
        let mut builder = self;
        builder.info.update = Some(OutputCallback::Update);
        builder
    }
}

impl<D: Outputable + GetDefaultsOutput> OutputInfoBuilder<D> {
    /// Fills the `get_defaults` slot with the trampoline that calls `D::get_defaults`.
    pub fn enable_get_defaults(self) -> (r: Self)
        ensures
            r.info() == self.info().with_slot(OutputCallback::GetDefaults),
    {
        let mut builder = self;
        builder.info.get_defaults = Some(OutputCallback::GetDefaults);
        builder
    }
}

impl<D: Outputable + GetPropertiesOutput> OutputInfoBuilder<D> {
    /// Fills the `get_properties` slot with the trampoline that calls `D::get_properties`.
    pub fn enable_get_properties(self) -> (r: Self)
        ensures
            r.info() == self.info().with_slot(OutputCallback::GetProperties),
    {
        let mut builder = self;
        builder.info.get_properties = Some(OutputCallback::GetProperties);
        builder
    }
}

impl<D: Outputable + GetTotalBytesOutput> OutputInfoBuilder<D> {
    /// Fills the `get_total_bytes` slot with the trampoline that calls `D::get_total_bytes`.
    pub fn enable_get_total_bytes(self) -> (r: Self)
        ensures
            r.info() == self.info().with_slot(OutputCallback::GetTotalBytes),
    {
        let mut builder = self;
        builder.info.get_total_bytes = Some(OutputCallback::GetTotalBytes);
        builder
    }
}

impl<D: Outputable + GetDroppedFramesOutput> OutputInfoBuilder<D> {
    /// Fills the `get_dropped_frames` slot with the trampoline that calls `D::get_dropped_frames`.
    pub fn enable_get_dropped_frames(self) -> (r: Self)
        ensures
            r.info() == self.info().with_slot(OutputCallback::GetDroppedFrames),
    {
        let mut builder = self;
        builder.info.get_dropped_frames = Some(OutputCallback::GetDroppedFrames);
        builder
    }
}

impl<D: Outputable + GetCongestionOutput> OutputInfoBuilder<D> {
    /// Fills the `get_congestion` slot with the trampoline that calls `D::get_congestion`.
    pub fn enable_get_congestion(self) -> (r: Self)
        ensures
            r.info() == self.info().with_slot(OutputCallback::GetCongestion),
    {
        let mut builder = self;
        builder.info.get_congestion = Some(OutputCallback::GetCongestion);
        builder
    }
}

impl<D: Outputable + GetConnectTimeMsOutput> OutputInfoBuilder<D> {
    /// Fills the `get_connect_time_ms` slot with the trampoline that calls `D::get_connect_time_ms`.
    pub fn enable_get_connect_time_ms(self) -> (r: Self)
        ensures
            r.info() == self.info().with_slot(OutputCallback::GetConnectTimeMs),
    {
        let mut builder = self;
        builder.info.get_connect_time_ms = Some(OutputCallback::GetConnectTimeMs);
        builder
    }
}

/// The descriptor after one `enable_` call for each callback in `calls`, in
/// their order.
pub open spec fn enable_all(d: OutputDescriptor, calls: Seq<OutputCallback>) -> OutputDescriptor
    decreases calls.len(),
{
    if calls.len() == 0 {
        d
    } else {
        enable_all(d, calls.drop_last()).with_slot(calls.last())
    }
}

/// Filling a slot puts the slot's own trampoline into it and leaves every
/// other slot, the id and the flags as they were.
pub proof fn lemma_with_slot(d: OutputDescriptor, filled: OutputCallback, c: OutputCallback)
    ensures
        d.with_slot(filled).slot(c) == if c == filled {
            Some(filled)
        } else {
            d.slot(c)
        },
        d.with_slot(filled).id == d.id,
        d.with_slot(filled).flags == d.flags,
{
}

/// Enabling a capability twice is the same as enabling it once.
pub proof fn lemma_enable_idempotent(d: OutputDescriptor, c: OutputCallback)
    ensures
        d.with_slot(c).with_slot(c) == d.with_slot(c),
{
}

/// After any number of `enable_` calls on a descriptor, a slot holds its
/// own trampoline if one of the calls was for it, and what it held before
/// otherwise. The calls change nothing but slots.
pub proof fn lemma_enable_all(d: OutputDescriptor, calls: Seq<OutputCallback>, c: OutputCallback)
    ensures
        enable_all(d, calls).slot(c) == if calls.contains(c) {
            Some(c)
        } else {
            d.slot(c)
        },
        enable_all(d, calls).id == d.id,
        enable_all(d, calls).flags == d.flags,
    decreases calls.len(),
{
    if calls.len() > 0 {
        let front = calls.drop_last();
        lemma_enable_all(d, front, c);
        lemma_with_slot(enable_all(d, front), calls.last(), c);
        if calls.last() == c {
            assert(calls[calls.len() - 1] == c);
        } else if calls.contains(c) {
            let i = choose|i: int| 0 <= i < calls.len() && calls[i] == c;
            assert(front[i] == c);
        } else if front.contains(c) {
            let i = choose|i: int| 0 <= i < front.len() && front[i] == c;
            assert(calls[i] == c);
        }
    }
}

/// A slot of a finished descriptor is filled if and only if it is one of
/// the four that every output has or the `enable_` method for it was
/// called, however often and in whatever order; and a filled slot holds
/// the trampoline of its own callback.
pub proof fn lemma_slot_filled_iff_enabled(
    id: ObsString,
    calls: Seq<OutputCallback>,
    c: OutputCallback,
)
    ensures
        ({
            let finished = enable_all(OutputDescriptor::initial(id), calls).built();
            &&& finished.slot(c) is Some <==> c == OutputCallback::Create || c
                == OutputCallback::Destroy || c == OutputCallback::Start || c
                == OutputCallback::Stop || calls.contains(c)
            &&& finished.slot(c) is Some ==> finished.slot(c) == Some(c)
            &&& finished.id == id
        }),
{
    lemma_enable_all(OutputDescriptor::initial(id), calls, c);
}

/// The flags of a descriptor that started without flags are a function of
/// its filled slots alone.
pub proof fn lemma_flags_follow_slots(d: OutputDescriptor)
    requires
        d.flags == 0,
    ensures
        d.built_flags() & OBS_OUTPUT_ENCODED != 0 <==> d.takes_encoded(),
        d.built_flags() & OBS_OUTPUT_VIDEO != 0 <==> d.takes_video(),
        d.built_flags() & OBS_OUTPUT_AUDIO != 0 <==> d.takes_audio(),
        d.built_flags() & OBS_OUTPUT_MULTI_TRACK != 0 <==> d.takes_tracks(),
        d.built_flags() == (if d.takes_encoded() {
            OBS_OUTPUT_ENCODED
        } else {
            0
        }) + (if d.takes_video() {
            OBS_OUTPUT_VIDEO
        } else {
            0
        }) + (if d.takes_audio() {
            OBS_OUTPUT_AUDIO
        } else {
            0
        }) + (if d.takes_tracks() {
            OBS_OUTPUT_MULTI_TRACK
        } else {
            0
        }),
{
    let f0: u32 = 0;
    let f1 = or_if(f0, d.takes_encoded(), OBS_OUTPUT_ENCODED);
    let f2 = or_if(f1, d.takes_video(), OBS_OUTPUT_VIDEO);
    let f3 = or_if(f2, d.takes_audio(), OBS_OUTPUT_AUDIO);
    let f4 = or_if(f3, d.takes_tracks(), OBS_OUTPUT_MULTI_TRACK);
    assert(f4 == d.built_flags());
    assert(f0 | 0x4 == f0 + 0x4) by (bit_vector)
        requires
            f0 == 0,
    ;
    assert(f1 | 0x1 == f1 + 0x1) by (bit_vector)
        requires
            f1 == 0 || f1 == 4,
    ;
    assert(f2 | 0x2 == f2 + 0x2) by (bit_vector)
        requires
            f2 == 0 || f2 == 1 || f2 == 4 || f2 == 5,
    ;
    assert(f3 | 0x10 == f3 + 0x10) by (bit_vector)
        requires
            f3 < 8,
    ;
    assert((f4 & 0x4 != 0 <==> (4 <= f4 < 8 || 0x14 <= f4 < 0x18)) && (f4 & 0x10 != 0 <==> f4
        >= 0x10) && (f4 & 0x1 != 0 <==> f4 % 2 == 1) && (f4 & 0x2 != 0 <==> (f4 % 4 == 2 || f4 % 4
        == 3))) by (bit_vector)
        requires
            f4 < 8 || 0x10 <= f4 < 0x18,
    ;
}

} // verus!
