use obs_wrapper::data::{DataObj, DataValue, DoubleBits, FloatBits};
use obs_wrapper::hotkey::{Hotkey, HotkeyCallback};
use obs_wrapper::instance::{DataWrapper, InstanceTable};
use obs_wrapper::media::MediaState;
use obs_wrapper::source::trampoline;
use obs_wrapper::source::{
    CreatableSourceContext, GetWidthSource, GlobalContext, KeyClickSource, KeyEvent,
    MediaGetStateSource, MouseButton, MouseClickSource, MouseEvent, SourceRef, SourceType,
    Sourceable, UpdateSource, VideoRenderContext, VideoRenderSource, VideoTickSource,
};
use obs_wrapper::string::ObsString;
use obs_wrapper::wrapper::{NativeObjects, PtrWrapper};

/// A zooming filter: its state is the zoom it was last told.
struct Zoom {
    zoom: f64,
    renders: u32,
    ticks: Vec<f32>,
    clicks: Vec<(MouseButton, bool, u8)>,
    keys: Vec<bool>,
    source: usize,
}

struct Boxed(Box<dyn FnMut(&mut Hotkey, &mut Zoom)>);

impl HotkeyCallback<Zoom> for Boxed {
    fn fire(&mut self, hotkey: &mut Hotkey, data: &mut Zoom) {
        (self.0)(hotkey, data)
    }
}

fn zoom_of(settings: &DataObj) -> Option<f64> {
    settings.get::<DoubleBits>("zoom").map(|bits| f64::from_bits(bits.0))
}

impl Sourceable for Zoom {
    type Callback = Boxed;

    fn get_id() -> ObsString {
        ObsString::from_nul_terminted_str("zoom_filter\0")
    }

    fn get_type() -> SourceType {
        SourceType::FILTER
    }

    fn create(create: &mut CreatableSourceContext<'_, Boxed>, source: SourceRef) -> Self {
        let zoom = zoom_of(create.settings()).unwrap_or(1.0);
        create.register_hotkey(
            ObsString::from_nul_terminted_str("zoom_in\0"),
            ObsString::from_nul_terminted_str("Zoom in\0"),
            Boxed(Box::new(|key, data| {
                if key.pressed {
                    data.zoom += 1.0;
                }
            })),
        );
        create.register_hotkey(
            ObsString::from_nul_terminted_str("zoom_reset\0"),
            ObsString::from_nul_terminted_str("Reset zoom\0"),
            Boxed(Box::new(|_key, data| data.zoom = 1.0)),
        );
        Zoom { zoom, renders: 0, ticks: vec![], clicks: vec![], keys: vec![], source: source.id() }
    }
}

impl UpdateSource for Zoom {
    fn update(&mut self, settings: &mut DataObj, _context: &mut GlobalContext) {
        if let Some(zoom) = zoom_of(settings) {
            self.zoom = zoom;
        }
    }
}

impl VideoRenderSource for Zoom {
    fn video_render(&mut self, _context: &mut GlobalContext, _render: &mut VideoRenderContext) {
        self.renders += 1;
    }
}

impl VideoTickSource for Zoom {
    fn video_tick(&mut self, seconds: FloatBits) {
        self.ticks.push(f32::from_bits(seconds.0));
    }
}

impl GetWidthSource for Zoom {
    fn get_width(&mut self) -> u32 {
        640
    }
}

impl MediaGetStateSource for Zoom {
    fn get_state(&mut self) -> MediaState {
        MediaState::Paused
    }
}

impl MouseClickSource for Zoom {
    fn mouse_click(&mut self, _event: MouseEvent, button: MouseButton, pressed: bool, click_count: u8) {
        self.clicks.push((button, pressed, click_count));
    }
}

impl KeyClickSource for Zoom {
    fn key_click(&mut self, _event: KeyEvent, pressed: bool) {
        self.keys.push(pressed);
    }
}

fn settings_with_zoom(zoom: f64) -> DataObj {
    let mut settings = DataObj::new();
    settings.set("zoom", DataValue::Double(DoubleBits(zoom.to_bits())));
    settings
}

fn a_source(objects: &mut NativeObjects, at: usize) -> SourceRef {
    assert!(objects.create(at));
    SourceRef::from_raw(objects, at).unwrap()
}

fn new_instance(table: &mut InstanceTable<Zoom, Boxed>, zoom: f64) -> usize {
    let mut objects = NativeObjects::new();
    let source = a_source(&mut objects, 0x1000);
    trampoline::create::<Zoom>(table, &settings_with_zoom(zoom), source).ok().unwrap()
}

fn state(table: &InstanceTable<Zoom, Boxed>, handle: usize) -> &Zoom {
    table.get(handle).unwrap().data()
}

#[test]
fn create_wraps_the_state_and_queues_the_hotkeys() {
    let mut table = InstanceTable::new();
    let handle = new_instance(&mut table, 2.0);
    assert_eq!(handle, 1);
    assert!(table.contains(handle));
    assert_eq!(table.live(), 1);
    assert_eq!(table.issued(), 1);
    let wrapper: &DataWrapper<Zoom, Boxed> = table.get(handle).unwrap();
    assert_eq!(wrapper.data().zoom, 2.0);
    assert_eq!(wrapper.data().source, 0x1000);
    assert_eq!(wrapper.hotkey_count(), 0);
    assert_eq!(wrapper.queued().len(), 2);
    assert_eq!(wrapper.queued()[0].0, ObsString::from_nul_terminted_str("zoom_in\0"));
    assert_eq!(wrapper.queued()[1].1, ObsString::from_nul_terminted_str("Reset zoom\0"));
}

#[test]
fn update_replaces_the_zoom_without_a_trace() {
    let mut table = InstanceTable::new();
    let handle = new_instance(&mut table, 2.0);
    assert_eq!(state(&table, handle).zoom, 2.0);
    let mut settings = settings_with_zoom(3.0);
    assert!(trampoline::update(&mut table, handle, &mut settings));
    assert_eq!(state(&table, handle).zoom, 3.0);
    assert_ne!(state(&table, handle).zoom, 2.0);
    assert_eq!(settings, settings_with_zoom(3.0));
}

#[test]
fn round_trip_leaves_no_instance_and_destroys_once() {
    let mut table = InstanceTable::new();
    let handle = new_instance(&mut table, 1.0);
    let mut settings = settings_with_zoom(4.0);
    for round in 0..5 {
        assert!(trampoline::video_render(&mut table, handle));
        assert!(trampoline::video_tick(&mut table, handle, FloatBits(0.5f32.to_bits())));
        if round % 2 == 0 {
            assert!(trampoline::update(&mut table, handle, &mut settings));
        }
        assert!(table.contains(handle));
    }
    assert_eq!(state(&table, handle).renders, 5);
    assert_eq!(state(&table, handle).ticks, vec![0.5f32; 5]);
    assert!(trampoline::destroy(&mut table, handle));
    assert_eq!(table.live(), 0);
    assert!(!table.contains(handle));
    assert!(!trampoline::destroy(&mut table, handle));
    assert_eq!(table.live(), 0);
}

#[test]
fn calls_with_a_dead_or_unknown_handle_do_nothing() {
    let mut table = InstanceTable::new();
    let first = new_instance(&mut table, 1.0);
    let second = new_instance(&mut table, 5.0);
    assert_eq!((first, second), (1, 2));
    assert!(trampoline::destroy(&mut table, first));
    let mut settings = settings_with_zoom(9.0);
    assert!(!trampoline::update(&mut table, first, &mut settings));
    assert!(!trampoline::update(&mut table, 0, &mut settings));
    assert!(!trampoline::update(&mut table, 3, &mut settings));
    assert!(!trampoline::update(&mut table, usize::MAX, &mut settings));
    assert!(!trampoline::video_render(&mut table, first));
    assert_eq!(trampoline::get_width(&mut table, first), None);
    assert_eq!(trampoline::media_get_state(&mut table, 7), None);
    assert!(!trampoline::hotkey_callback(&mut table, first, 1, true));
    assert_eq!(state(&table, second).zoom, 5.0);
    assert_eq!(state(&table, second).renders, 0);
    assert_eq!(table.live(), 1);
}

#[test]
fn handles_are_never_issued_twice() {
    let mut table = InstanceTable::new();
    let first = new_instance(&mut table, 1.0);
    assert!(trampoline::destroy(&mut table, first));
    let second = new_instance(&mut table, 1.0);
    assert_ne!(first, second);
    assert_eq!(second, 2);
    assert!(!table.contains(first));
    assert!(table.contains(second));
    assert_eq!(table.issued(), 2);
}

#[test]
fn calls_reach_only_the_named_instance() {
    let mut table = InstanceTable::new();
    let a = new_instance(&mut table, 1.0);
    let b = new_instance(&mut table, 1.0);
    assert!(trampoline::video_render(&mut table, b));
    assert!(trampoline::video_render(&mut table, b));
    assert_eq!(state(&table, a).renders, 0);
    assert_eq!(state(&table, b).renders, 2);
}

#[test]
fn results_of_the_unit_are_handed_on() {
    let mut table = InstanceTable::new();
    let handle = new_instance(&mut table, 1.0);
    assert_eq!(trampoline::get_width(&mut table, handle), Some(640));
    assert_eq!(trampoline::media_get_state(&mut table, handle), Some(4));
    assert_eq!(MediaState::Paused.to_native(), 4);
}

#[test]
fn mouse_click_converts_the_host_arguments() {
    let mut table = InstanceTable::new();
    let handle = new_instance(&mut table, 1.0);
    let event = MouseEvent { modifiers: 0, x: 3, y: 4 };
    assert!(trampoline::mouse_click(&mut table, handle, event, 0, false, 1));
    assert!(trampoline::mouse_click(&mut table, handle, event, 2, true, 2));
    assert!(trampoline::mouse_click(&mut table, handle, event, 1, false, 0x1_03));
    assert!(!trampoline::mouse_click(&mut table, handle, event, 3, false, 1));
    assert!(!trampoline::mouse_click(&mut table, handle, event, -1, false, 1));
    assert_eq!(
        state(&table, handle).clicks,
        vec![
            (MouseButton::Left, true, 1),
            (MouseButton::Right, false, 2),
            (MouseButton::Middle, true, 3)
        ]
    );
}

#[test]
fn key_click_turns_key_up_into_pressed() {
    let mut table = InstanceTable::new();
    let handle = new_instance(&mut table, 1.0);
    let event = KeyEvent {
        modifiers: 0,
        text: String::from("a"),
        native_modifiers: 0,
        native_scancode: 30,
        native_vkey: 65,
    };
    assert!(trampoline::key_click(&mut table, handle, event.clone(), false));
    assert!(trampoline::key_click(&mut table, handle, event, true));
    assert_eq!(state(&table, handle).keys, vec![true, false]);
}

fn registered(table: &mut InstanceTable<Zoom, Boxed>, ids: Vec<u64>) -> usize {
    let handle = new_instance(table, 2.0);
    assert!(table.register_callbacks(handle, &ids));
    handle
}

#[test]
fn table_registers_only_for_running_instances() {
    let mut table = InstanceTable::new();
    let handle = new_instance(&mut table, 2.0);
    assert!(!table.register_callbacks(0, &vec![1, 2]));
    assert!(!table.register_callbacks(handle + 1, &vec![1, 2]));
    assert!(!table.register_callbacks(handle, &vec![1]));
    assert_eq!(table.get(handle).unwrap().queued().len(), 2);
    assert!(table.register_callbacks(handle, &vec![1, 2]));
    assert_eq!(table.get(handle).unwrap().hotkey_count(), 2);
    assert!(trampoline::destroy(&mut table, handle));
    assert!(!table.register_callbacks(handle, &vec![]));
}

#[test]
fn register_callbacks_stores_each_closure_under_its_id() {
    let mut table = InstanceTable::new();
    let handle = registered(&mut table, vec![11, 22]);
    let wrapper = table.get(handle).unwrap();
    assert_eq!(wrapper.hotkey_count(), 2);
    assert!(wrapper.has_hotkey(11));
    assert!(wrapper.has_hotkey(22));
    assert!(!wrapper.has_hotkey(33));
    assert_eq!(wrapper.queued().len(), 0);
}

#[test]
fn register_callbacks_wants_one_id_per_request() {
    let mut table = InstanceTable::new();
    let handle = new_instance(&mut table, 2.0);
    let mut wrapper = table.remove(handle).unwrap();
    assert!(!wrapper.register_callbacks(&vec![11]));
    assert!(!wrapper.register_callbacks(&vec![11, 22, 33]));
    assert_eq!(wrapper.hotkey_count(), 0);
    assert_eq!(wrapper.queued().len(), 2);
    assert!(wrapper.register_callbacks(&vec![11, 22]));
    assert!(wrapper.register_callbacks(&vec![]));
    assert_eq!(wrapper.hotkey_count(), 2);
}

#[test]
fn firing_invokes_exactly_the_matching_closure() {
    let mut table = InstanceTable::new();
    let handle = registered(&mut table, vec![11, 22]);
    assert!(trampoline::hotkey_callback(&mut table, handle, 11, true));
    assert_eq!(state(&table, handle).zoom, 3.0);
    assert!(trampoline::hotkey_callback(&mut table, handle, 11, true));
    assert_eq!(state(&table, handle).zoom, 4.0);
    assert!(trampoline::hotkey_callback(&mut table, handle, 11, false));
    assert_eq!(state(&table, handle).zoom, 4.0);
    assert!(trampoline::hotkey_callback(&mut table, handle, 22, true));
    assert_eq!(state(&table, handle).zoom, 1.0);
    assert_eq!(table.get(handle).unwrap().hotkey_count(), 2);
}

#[test]
fn firing_an_unregistered_id_is_a_no_op() {
    let mut table = InstanceTable::new();
    let handle = registered(&mut table, vec![11, 22]);
    assert!(!trampoline::hotkey_callback(&mut table, handle, 33, true));
    assert!(!trampoline::hotkey_callback(&mut table, handle, 0, true));
    assert_eq!(state(&table, handle).zoom, 2.0);
    assert_eq!(table.get(handle).unwrap().hotkey_count(), 2);
}

#[test]
fn an_id_issued_twice_belongs_to_the_later_request() {
    let mut table = InstanceTable::new();
    let handle = registered(&mut table, vec![5, 5]);
    assert_eq!(table.get(handle).unwrap().hotkey_count(), 1);
    assert!(trampoline::hotkey_callback(&mut table, handle, 5, true));
    assert_eq!(state(&table, handle).zoom, 1.0);
}

#[test]
fn into_data_gives_the_state_back() {
    let mut table = InstanceTable::new();
    let handle = new_instance(&mut table, 6.0);
    let wrapper = table.remove(handle).unwrap();
    assert_eq!(wrapper.into_data().zoom, 6.0);
    assert!(table.remove(handle).is_none());
    assert!(table.get(handle).is_none());
    assert!(!table.is_full());
}

#[test]
fn with_audio_hands_the_output_to_the_closure() {
    let global = GlobalContext;
    assert_eq!(global.with_audio(0x70, |audio| audio.pointer + 1), 0x71);
    let settings = DataObj::new();
    let context: CreatableSourceContext<'_, Boxed> = CreatableSourceContext::from_raw(&settings);
    assert_eq!(context.with_audio(0x70, |audio| audio.pointer), 0x70);
    assert_eq!(context.into_callbacks().len(), 0);
}
