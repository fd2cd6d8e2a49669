use obs_wrapper::data::FloatBits;
use obs_wrapper::hotkey::Hotkey;
use obs_wrapper::instance::InstanceTable;
use obs_wrapper::media::{
    AudioDataContext, AudioInfo, MediaState, VideoDataOutputContext, VideoDataSourceContext,
    VideoFormat,
};
use obs_wrapper::output::trampoline as output;
use obs_wrapper::output::{
    CreatableOutputContext, GetCongestionOutput, GetTotalBytesOutput, OutputRef, Outputable,
    RawAudio2Output, RawVideoOutput, UpdateOutput,
};
use obs_wrapper::data::{DataObj, DataValue};
use obs_wrapper::hotkey::HotkeyCallback;
use obs_wrapper::source::{Icon, MouseButton, SourceType};
use obs_wrapper::string::ObsString;
use obs_wrapper::wrapper::{NativeObjects, PtrWrapper};

#[test]
fn media_state_numbers() {
    let all = [
        MediaState::Idle,
        MediaState::Playing,
        MediaState::Opening,
        MediaState::Buffering,
        MediaState::Paused,
        MediaState::Stopped,
        MediaState::Ended,
        MediaState::Error,
    ];
    for (raw, state) in all.iter().enumerate() {
        assert_eq!(state.to_native(), raw as u32);
        assert_eq!(state.as_raw(), raw as u32);
        assert_eq!(MediaState::from_native(raw as u32), Some(*state));
        assert_eq!(MediaState::from_raw(raw as u32), Ok(*state));
    }
    assert_eq!(MediaState::from_native(8), None);
    let err = MediaState::from_raw(8).unwrap_err();
    assert_eq!((err.struct_name(), err.value()), ("MediaState", 8));
}

#[test]
fn video_format_from_the_host_number() {
    assert!(VideoFormat::from(0) == VideoFormat::Unset);
    assert!(VideoFormat::from(1) == VideoFormat::I420);
    assert!(VideoFormat::from(2) == VideoFormat::NV12);
    assert!(VideoFormat::from(6) == VideoFormat::RGBA);
    assert!(VideoFormat::from(7) == VideoFormat::BGRA);
    assert!(VideoFormat::from(16) == VideoFormat::AYUV);
    assert!(VideoFormat::from(6) != VideoFormat::BGRA);
    assert!(matches!(VideoFormat::from(17), VideoFormat::Unknown));
    assert!(matches!(VideoFormat::from(u32::MAX), VideoFormat::Unknown));
}

#[test]
fn unknown_video_format_equals_nothing() {
    assert!(VideoFormat::Unknown != VideoFormat::Unknown);
    assert!(VideoFormat::from(99) != VideoFormat::from(99));
    assert!(VideoFormat::Unknown != VideoFormat::RGBA);
    assert!(VideoFormat::RGBA != VideoFormat::Unknown);
    assert!(VideoFormat::Unset == VideoFormat::Unset);
}

#[test]
fn source_type_numbers() {
    assert_eq!(SourceType::INPUT.to_native(), 0);
    assert_eq!(SourceType::FILTER.to_native(), 1);
    assert_eq!(SourceType::TRANSITION.to_native(), 2);
    assert_eq!(SourceType::SCENE.to_native(), 3);
    for raw in 0u32..4 {
        assert_eq!(SourceType::from_native(raw).unwrap().to_native(), raw);
    }
    assert_eq!(SourceType::from_native(4), None);
}

#[test]
fn mouse_button_and_icon_numbers() {
    assert_eq!(MouseButton::from_raw(0).unwrap(), MouseButton::Left);
    assert_eq!(MouseButton::from_raw(1).unwrap(), MouseButton::Middle);
    assert_eq!(MouseButton::Right.as_raw(), 2);
    assert!(MouseButton::from_raw(3).is_err());
    assert_eq!(Icon::Unknown.as_raw(), 0);
    assert_eq!(Icon::Camera.as_raw(), 9);
    assert_eq!(Icon::Custom.as_raw(), 13);
    assert_eq!(Icon::from_raw(11).unwrap(), Icon::Media);
    let err = Icon::from_raw(14).unwrap_err();
    assert_eq!((err.struct_name(), err.value()), ("Icon", 14));
}

#[test]
fn audio_block_accessors() {
    let audio = AudioDataContext::from_raw(3, vec![vec![1, 2, 3], vec![4, 5, 6]], 99);
    assert_eq!(audio.frames(), 3);
    assert_eq!(audio.channels(), 2);
    assert_eq!(audio.channel_bytes(0), Some(&vec![1, 2, 3]));
    assert_eq!(audio.channel_bytes(1), Some(&vec![4, 5, 6]));
    assert_eq!(audio.channel_bytes(2), None);
    let info = AudioInfo { sample_rate: 48000, channels: 2 };
    assert_eq!(info, AudioInfo { sample_rate: 48000, channels: 2 });
}

#[test]
fn video_frame_accessors() {
    let frame = VideoDataSourceContext::from_raw(6, 1920, 1080, vec![7680, 0], 42);
    assert!(frame.format() == VideoFormat::RGBA);
    assert_eq!((frame.width(), frame.height()), (1920, 1080));
    assert_eq!(frame.linesize(0), 7680);
    assert_eq!(frame.linesize(1), 0);
    assert_eq!(frame.timestamp(), 42);
    let out = VideoDataOutputContext::from_raw(vec![100], 7);
    assert_eq!(out.linesize(0), 100);
    assert_eq!(out.timestamp(), 7);
    assert_eq!(Hotkey::from_raw(3, true).id(), 3);
}

struct Recorder {
    frames: Vec<u64>,
    tracks: Vec<usize>,
    started: u32,
    stopped: Vec<u64>,
    bitrate: i64,
}

struct Never;

impl HotkeyCallback<Recorder> for Never {
    fn fire(&mut self, _hotkey: &mut Hotkey, _data: &mut Recorder) {}
}

impl Outputable for Recorder {
    type Callback = Never;

    fn get_id() -> ObsString {
        ObsString::from_nul_terminted_str("recorder\0")
    }

    fn create(context: &mut CreatableOutputContext<'_, Never>, _output: OutputRef) -> Self {
        let bitrate = context.settings().get::<i64>("bitrate").unwrap_or(0);
        context.register_hotkey(
            ObsString::from_nul_terminted_str("split\0"),
            ObsString::from_nul_terminted_str("Split\0"),
            Never,
        );
        Recorder { frames: vec![], tracks: vec![], started: 0, stopped: vec![], bitrate }
    }

    fn start(&mut self) -> bool {
        self.started += 1;
        self.started == 1
    }

    fn stop(&mut self, ts: u64) {
        self.stopped.push(ts);
    }
}

impl RawVideoOutput for Recorder {
    fn raw_video(&mut self, frame: &mut VideoDataOutputContext) {
        self.frames.push(frame.timestamp());
    }
}

impl RawAudio2Output for Recorder {
    fn raw_audio2(&mut self, idx: usize, _frame: &mut AudioDataContext) {
        self.tracks.push(idx);
    }
}

impl UpdateOutput for Recorder {
    fn update(&mut self, settings: &mut DataObj) {
        self.bitrate = settings.get::<i64>("bitrate").unwrap_or(self.bitrate);
    }
}

impl GetTotalBytesOutput for Recorder {
    fn get_total_bytes(&mut self) -> u64 {
        self.frames.len() as u64 * 100
    }
}

impl GetCongestionOutput for Recorder {
    fn get_congestion(&mut self) -> FloatBits {
        FloatBits(0.25f32.to_bits())
    }
}

#[test]
fn output_round_trip() {
    let mut objects = NativeObjects::new();
    assert!(objects.create(0x900));
    let handle_on_output = OutputRef::from_raw(&mut objects, 0x900).unwrap();
    let mut table: InstanceTable<Recorder, Never> = InstanceTable::new();
    let mut settings = DataObj::new();
    settings.set("bitrate", DataValue::Int(2500));
    let handle = output::create::<Recorder>(&mut table, &settings, handle_on_output).ok().unwrap();
    assert_eq!(handle, 1);
    assert_eq!(table.get(handle).unwrap().data().bitrate, 2500);
    assert_eq!(table.get(handle).unwrap().queued().len(), 1);
    assert_eq!(output::start(&mut table, handle), Some(true));
    assert_eq!(output::start(&mut table, handle), Some(false));
    let mut frame = VideoDataOutputContext::from_raw(vec![16], 1000);
    assert!(output::raw_video(&mut table, handle, &mut frame));
    let mut frame = VideoDataOutputContext::from_raw(vec![16], 2000);
    assert!(output::raw_video(&mut table, handle, &mut frame));
    let mut audio = AudioDataContext::from_raw(0, vec![], 0);
    assert!(output::raw_audio2(&mut table, handle, 3, &mut audio));
    assert_eq!(output::get_total_bytes(&mut table, handle), Some(200));
    assert_eq!(
        output::get_congestion(&mut table, handle).map(|b| f32::from_bits(b.0)),
        Some(0.25)
    );
    let mut settings = DataObj::new();
    settings.set("bitrate", DataValue::Int(6000));
    assert!(output::update(&mut table, handle, &mut settings));
    assert!(output::stop(&mut table, handle, 77));
    {
        let recorder = table.get(handle).unwrap().data();
        assert_eq!(recorder.frames, vec![1000, 2000]);
        assert_eq!(recorder.tracks, vec![3]);
        assert_eq!(recorder.stopped, vec![77]);
        assert_eq!(recorder.bitrate, 6000);
    }
    assert!(!output::hotkey_callback(&mut table, handle, 1, true));
    assert!(output::destroy(&mut table, handle));
    assert!(!output::destroy(&mut table, handle));
    assert_eq!(output::start(&mut table, handle), None);
    assert_eq!(output::get_total_bytes(&mut table, handle), None);
    assert!(!output::stop(&mut table, handle, 1));
    assert_eq!(table.live(), 0);
}
