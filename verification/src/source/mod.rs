pub mod context;
pub mod scene;
pub mod traits;
pub mod trampoline;

use std::marker::PhantomData;
use vstd::prelude::*;

use crate::graphics::GraphicsEffectContext;
use crate::native_enum::NativeParsingError;
use crate::string::ObsString;
use crate::wrapper::{with_ref, without_ref, NativeObjects, PtrWrapper, PtrWrapperInternal};

pub use context::{
    AudioRenderContext, CreatableSourceContext, GlobalContext, PropertiesContext,
    VideoRenderContext,
};
pub use scene::{SceneItemRef, SceneRef};
pub use traits::{
    ActivateSource,
    AudioRenderSource,
    DeactivateSource,
    EnumActiveSource,
    EnumAllSource,
    FilterAudioSource,
    FilterVideoSource,
    FocusSource,
    GetDefaultsSource,
    GetHeightSource,
    GetNameSource,
    GetPropertiesSource,
    GetWidthSource,
    KeyClickSource,
    MediaGetDurationSource,
    MediaGetStateSource,
    MediaGetTimeSource,
    MediaNextSource,
    MediaPlayPauseSource,
    MediaPreviousSource,
    MediaRestartSource,
    MediaSetTimeSource,
    MediaStopSource,
    MouseClickSource,
    MouseMoveSource,
    MouseWheelSource,
    Sourceable,
    TransitionStartSource,
    TransitionStopSource,
    UpdateSource,
    VideoRenderSource,
    VideoTickSource,
};

verus! {

/// A button of the mouse.
#[derive(Debug, Clone, Copy, PartialEq, Eq, Structural)]
pub enum MouseButton {
    Left,
    Middle,
    Right,
}

impl MouseButton {
    /// The host's number for the variant.
    pub open spec fn native(&self) -> u32 {
        match self {
            MouseButton::Left => 0,
            MouseButton::Middle => 1,
            MouseButton::Right => 2,
        }
    }

    /// The variant that the host numbers `value`, if there is one.
    pub open spec fn of_native(value: u32) -> Option<MouseButton> {
        if value == 0 {
            Some(MouseButton::Left)
        } else if value == 1 {
            Some(MouseButton::Middle)
        } else if value == 2 {
            Some(MouseButton::Right)
        } else {
            None
        }
    }

    #[verifier::when_used_as_spec(native)]
    pub fn as_raw(&self) -> (r: u32)
        ensures
            r == self.native(),
            MouseButton::of_native(r) == Some(*self),
    {
        match self {
            MouseButton::Left => 0,
            MouseButton::Middle => 1,
            MouseButton::Right => 2,
        }
    }

    /// Reads the host's number; the error carries a number that names no variant.
    pub fn from_raw(value: u32) -> (r: Result<Self, NativeParsingError>)
        ensures
            r is Ok <==> MouseButton::of_native(value) is Some,
            r matches Ok(v) ==> Some(v) == MouseButton::of_native(value) && v.native() == value,
            r matches Err(e) ==> e.spec_value() == value as i64 && e.spec_struct_name()
                == "MouseButton",
    {
        match value {
            0 => Ok(MouseButton::Left),
            1 => Ok(MouseButton::Middle),
            2 => Ok(MouseButton::Right),
            _ => Err(NativeParsingError::new("MouseButton", value as i64)),
        }
    }
}

/// The icon that the host shows for a unit.
#[derive(Debug, Clone, Copy, PartialEq, Eq, Structural)]
pub enum Icon {
    Unknown,
    Image,
    Color,
    Slideshow,
    AudioInput,
    AudioOutput,
    DesktopCapture,
    WindowCapture,
    GameCapture,
    Camera,
    Text,
    Media,
    Browser,
    Custom,
}

impl Icon {
    /// The host's number for the variant.
    pub open spec fn native(&self) -> u32 {
        match self {
            Icon::Unknown => 0,
            Icon::Image => 1,
            Icon::Color => 2,
            Icon::Slideshow => 3,
            Icon::AudioInput => 4,
            Icon::AudioOutput => 5,
            Icon::DesktopCapture => 6,
            Icon::WindowCapture => 7,
            Icon::GameCapture => 8,
            Icon::Camera => 9,
            Icon::Text => 10,
            Icon::Media => 11,
            Icon::Browser => 12,
            Icon::Custom => 13,
        }
    }

    /// The variant that the host numbers `value`, if there is one.
    pub open spec fn of_native(value: u32) -> Option<Icon> {
        if value == 0 {
            Some(Icon::Unknown)
        } else if value == 1 {
            Some(Icon::Image)
        } else if value == 2 {
            Some(Icon::Color)
        } else if value == 3 {
            Some(Icon::Slideshow)
        } else if value == 4 {
            Some(Icon::AudioInput)
        } else if value == 5 {
            Some(Icon::AudioOutput)
        } else if value == 6 {
            Some(Icon::DesktopCapture)
        } else if value == 7 {
            Some(Icon::WindowCapture)
        } else if value == 8 {
            Some(Icon::GameCapture)
        } else if value == 9 {
            Some(Icon::Camera)
        } else if value == 10 {
            Some(Icon::Text)
        } else if value == 11 {
            Some(Icon::Media)
        } else if value == 12 {
            Some(Icon::Browser)
        } else if value == 13 {
            Some(Icon::Custom)
        } else {
            None
        }
    }

    #[verifier::when_used_as_spec(native)]
    pub fn as_raw(&self) -> (r: u32)
        ensures
            r == self.native(),
            Icon::of_native(r) == Some(*self),
    {
        match self {
            Icon::Unknown => 0,
            Icon::Image => 1,
            Icon::Color => 2,
            Icon::Slideshow => 3,
            Icon::AudioInput => 4,
            Icon::AudioOutput => 5,
            Icon::DesktopCapture => 6,
            Icon::WindowCapture => 7,
            Icon::GameCapture => 8,
            Icon::Camera => 9,
            Icon::Text => 10,
            Icon::Media => 11,
            Icon::Browser => 12,
            Icon::Custom => 13,
        }
    }

    /// Reads the host's number; the error carries a number that names no variant.
    pub fn from_raw(value: u32) -> (r: Result<Self, NativeParsingError>)
        ensures
            r is Ok <==> Icon::of_native(value) is Some,
            r matches Ok(v) ==> Some(v) == Icon::of_native(value) && v.native() == value,
            r matches Err(e) ==> e.spec_value() == value as i64 && e.spec_struct_name()
                == "Icon",
    {
        match value {
            0 => Ok(Icon::Unknown),
            1 => Ok(Icon::Image),
            2 => Ok(Icon::Color),
            3 => Ok(Icon::Slideshow),
            4 => Ok(Icon::AudioInput),
            5 => Ok(Icon::AudioOutput),
            6 => Ok(Icon::DesktopCapture),
            7 => Ok(Icon::WindowCapture),
            8 => Ok(Icon::GameCapture),
            9 => Ok(Icon::Camera),
            10 => Ok(Icon::Text),
            11 => Ok(Icon::Media),
            12 => Ok(Icon::Browser),
            13 => Ok(Icon::Custom),
            _ => Err(NativeParsingError::new("Icon", value as i64)),
        }
    }
}

/// What kind of source a unit is.
#[derive(Clone, Copy, Debug, Eq, PartialEq, Structural)]
pub enum SourceType {
    INPUT,
    SCENE,
    FILTER,
    TRANSITION,
}

impl SourceType {
    /// The host's number for the kind.
    pub open spec fn native(self) -> u32 {
        match self {
            SourceType::INPUT => 0,
            SourceType::FILTER => 1,
            SourceType::TRANSITION => 2,
            SourceType::SCENE => 3,
        }
    }

    /// The kind with the number `source_type`; nothing where no kind has it.
    pub fn from_native(source_type: u32) -> (r: Option<SourceType>)
        ensures
            r is Some <==> source_type <= 3,
            r matches Some(t) ==> t.native() == source_type,
    {
        match source_type {
            0 => Some(SourceType::INPUT),
            1 => Some(SourceType::FILTER),
            2 => Some(SourceType::TRANSITION),
            3 => Some(SourceType::SCENE),
            _ => None,
        }
    }

    #[verifier::when_used_as_spec(native)]
    pub fn to_native(self) -> (r: u32)
        ensures
            r == self.native(),
    {
        match self {
            SourceType::INPUT => 0,
            SourceType::FILTER => 1,
            SourceType::TRANSITION => 2,
            SourceType::SCENE => 3,
        }
    }
}

/// Where the pointer was, and which modifier keys were down, when a mouse
/// event happened.
#[derive(Debug, Clone, Copy, PartialEq, Eq, Structural)]
pub struct MouseEvent {
    pub modifiers: u32,
    pub x: i32,
    pub y: i32,
}

/// A key event as the host reports it.
#[derive(Debug, Clone, PartialEq, Eq)]
pub struct KeyEvent {
    pub modifiers: u32,
    pub text: String,
    pub native_modifiers: u32,
    pub native_scancode: u32,
    pub native_vkey: u32,
}

/// A reference to a source of the host: video or audio that the host shows.
///
/// The host counts the references on a source. Making a `SourceRef` from
/// an address takes one, cloning takes another, and each handle gives its
/// reference back when it is released.
#[derive(Debug)]
pub struct SourceRef {
    inner: usize,
}

pub type SourceContext = SourceRef;

impl PtrWrapper for SourceRef {
    closed spec fn addr(&self) -> usize {
        self.inner
    }

    open spec fn counted() -> bool {
        true
    }

    fn get_ref(objects: &mut NativeObjects, ptr: usize) -> (r: usize) {
        objects.get_ref(ptr)
    }

    fn release(objects: &mut NativeObjects, ptr: usize) {
        objects.release(ptr);
    }

    fn from_raw_unchecked(raw: usize) -> (r: Option<Self>) {
        if raw == 0 {
            None
        } else {
            Some(Self { inner: raw })
        }
    }

    fn as_ptr(&self) -> (r: usize) {
        self.inner
    }
}

impl PtrWrapperInternal for SourceRef {
    fn new_internal(ptr: usize) -> (r: Self) {
        Self { inner: ptr }
    }

    fn get_internal(&self) -> (r: usize) {
        self.inner
    }
}

impl SourceRef {
    /// A number that tells this source from every other live source.
    pub fn id(&self) -> (r: usize)
        ensures
            r == self.addr(),
    {
        self.inner
    }

    /// A second handle on the same source, with a reference of its own.
    /// Nothing comes back where the source is gone or its count cannot grow.
    pub fn clone_ref(&self, objects: &mut NativeObjects) -> (r: Option<Self>)
        requires
            old(objects).wf(),
        ensures
            final(objects).wf(),
            final(objects)@ == with_ref(old(objects)@, self.addr()),
            r is Some <==> old(objects)@.contains_key(self.addr()) && old(objects)@[self.addr()]
                < u64::MAX,
            r matches Some(other) ==> other.addr() == self.addr(),
    {
        Self::from_raw(objects, self.inner)
    }

    /// Ends the handle and gives its reference back to the host.
    pub fn release_ref(self, objects: &mut NativeObjects)
        requires
            old(objects).wf(),
        ensures
            final(objects).wf(),
            final(objects)@ == without_ref(old(objects)@, self.addr()),
    {
        Self::release(objects, self.inner);
    }

    /// Begins the drawing of a filter through an effect. `source_type` is
    /// the host's number for the kind of this source; `begin` asks the host
    /// to begin, and is called only for a source that is a filter. What
    /// comes back, where the host did begin, is the proof of being inside
    /// the drawing that the calls on the effect ask for.
    pub fn process_filter<F: FnOnce() -> bool>(
        &mut self,
        _render: &mut VideoRenderContext,
        source_type: u32,
        begin: F,
    ) -> (r: Option<GraphicsEffectContext>)
        requires
            source_type == SourceType::FILTER.native() ==> begin.requires(()),
        ensures
            final(self).addr() == old(self).addr(),
            source_type != SourceType::FILTER.native() ==> r is None,
            source_type == SourceType::FILTER.native() ==> begin.ensures((), r is Some),
    {
        match SourceType::from_native(source_type) {
            Some(SourceType::FILTER) => {
                if begin() {
                    Some(GraphicsEffectContext::new())
                } else {
                    None
                }
            },
            _ => None,
        }
    }

    /// The next source in the filter chain, for a source that is a filter:
    /// `source_type` is the host's number for the kind of this source and
    /// `target` the address that the host names as its target. The handle
    /// holds a reference of its own. Nothing comes back, and no reference is
    /// taken, for a source that is no filter.
    pub fn do_with_target(&self, objects: &mut NativeObjects, source_type: u32, target: usize) -> (r:
        Option<SourceRef>)
        requires
            old(objects).wf(),
        ensures
            final(objects).wf(),
            source_type != SourceType::FILTER.native() ==> r is None && final(objects)@ == old(
                objects,
            )@,
            source_type == SourceType::FILTER.native() ==> final(objects)@ == with_ref(
                old(objects)@,
                target,
            ) && (r is Some <==> old(objects)@.contains_key(target) && old(objects)@[target]
                < u64::MAX),
            r matches Some(t) ==> t.addr() == target,
    {
        match SourceType::from_native(source_type) {
            Some(SourceType::FILTER) => SourceRef::from_raw(objects, target),
            _ => None,
        }
    }
}

/// Proof of being asked for the active child sources.
#[derive(Debug)]
pub struct EnumActiveContext {}

/// Proof of being asked for all child sources.
#[derive(Debug)]
pub struct EnumAllContext {}

/// Flag of a descriptor: the unit draws video.
pub const OBS_SOURCE_VIDEO: u32 = 0x1;

/// Flag of a descriptor: the unit produces audio.
pub const OBS_SOURCE_AUDIO: u32 = 0x2;

/// Flag of a descriptor: the unit takes mouse and keyboard input.
pub const OBS_SOURCE_INTERACTION: u32 = 0x20;

/// Flag of a descriptor: the unit plays media that the user can control.
pub const OBS_SOURCE_CONTROLLABLE_MEDIA: u32 = 0x2000;

/// The trampolines of the bridge, one for every callback slot of a
/// descriptor. A slot that is filled holds the trampoline that turns the
/// host's call into the call of the unit's method.
#[derive(Debug, Clone, Copy, PartialEq, Eq, Structural)]
pub enum SourceCallback {
    Create,
    Destroy,
    GetName,
    GetWidth,
    GetHeight,
    Activate,
    Deactivate,
    Update,
    VideoRender,
    AudioRender,
    GetProperties,
    EnumActiveSources,
    EnumAllSources,
    TransitionStart,
    TransitionStop,
    VideoTick,
    FilterAudio,
    FilterVideo,
    GetDefaults,
    MediaPlayPause,
    MediaRestart,
    MediaStop,
    MediaNext,
    MediaPrevious,
    MediaGetDuration,
    MediaGetTime,
    MediaSetTime,
    MediaGetState,
    MouseWheel,
    MouseClick,
    MouseMove,
    KeyClick,
    Focus,
}

/// What the host is told about a unit type: its id, its kind, one slot for
/// each callback and the flags that sum up what the unit can do.
#[derive(Debug, PartialEq, Eq)]
pub struct SourceDescriptor {
    pub id: ObsString,
    pub type_: SourceType,
    pub output_flags: u32,
    pub icon_type: Icon,
    pub create: Option<SourceCallback>,
    pub destroy: Option<SourceCallback>,
    pub get_name: Option<SourceCallback>,
    pub get_width: Option<SourceCallback>,
    pub get_height: Option<SourceCallback>,
    pub activate: Option<SourceCallback>,
    pub deactivate: Option<SourceCallback>,
    pub update: Option<SourceCallback>,
    pub video_render: Option<SourceCallback>,
    pub audio_render: Option<SourceCallback>,
    pub get_properties: Option<SourceCallback>,
    pub enum_active_sources: Option<SourceCallback>,
    pub enum_all_sources: Option<SourceCallback>,
    pub transition_start: Option<SourceCallback>,
    pub transition_stop: Option<SourceCallback>,
    pub video_tick: Option<SourceCallback>,
    pub filter_audio: Option<SourceCallback>,
    pub filter_video: Option<SourceCallback>,
    pub get_defaults: Option<SourceCallback>,
    pub media_play_pause: Option<SourceCallback>,
    pub media_restart: Option<SourceCallback>,
    pub media_stop: Option<SourceCallback>,
    pub media_next: Option<SourceCallback>,
    pub media_previous: Option<SourceCallback>,
    pub media_get_duration: Option<SourceCallback>,
    pub media_get_time: Option<SourceCallback>,
    pub media_set_time: Option<SourceCallback>,
    pub media_get_state: Option<SourceCallback>,
    pub mouse_wheel: Option<SourceCallback>,
    pub mouse_click: Option<SourceCallback>,
    pub mouse_move: Option<SourceCallback>,
    pub key_click: Option<SourceCallback>,
    pub focus: Option<SourceCallback>,
}

/// `flags` with `bit` set where `wanted` holds.
pub open spec fn or_if(flags: u32, wanted: bool, bit: u32) -> u32 {
    if wanted {
        flags | bit
    } else {
        flags
    }
}

impl SourceDescriptor {
    /// What the slot for `callback` holds.
    pub open spec fn slot(self, callback: SourceCallback) -> Option<SourceCallback> {
        match callback {
            SourceCallback::Create => self.create,
            SourceCallback::Destroy => self.destroy,
            SourceCallback::GetName => self.get_name,
            SourceCallback::GetWidth => self.get_width,
            SourceCallback::GetHeight => self.get_height,
            SourceCallback::Activate => self.activate,
            SourceCallback::Deactivate => self.deactivate,
            SourceCallback::Update => self.update,
            SourceCallback::VideoRender => self.video_render,
            SourceCallback::AudioRender => self.audio_render,
            SourceCallback::GetProperties => self.get_properties,
            SourceCallback::EnumActiveSources => self.enum_active_sources,
            SourceCallback::EnumAllSources => self.enum_all_sources,
            SourceCallback::TransitionStart => self.transition_start,
            SourceCallback::TransitionStop => self.transition_stop,
            SourceCallback::VideoTick => self.video_tick,
            SourceCallback::FilterAudio => self.filter_audio,
            SourceCallback::FilterVideo => self.filter_video,
            SourceCallback::GetDefaults => self.get_defaults,
            SourceCallback::MediaPlayPause => self.media_play_pause,
            SourceCallback::MediaRestart => self.media_restart,
            SourceCallback::MediaStop => self.media_stop,
            SourceCallback::MediaNext => self.media_next,
            SourceCallback::MediaPrevious => self.media_previous,
            SourceCallback::MediaGetDuration => self.media_get_duration,
            SourceCallback::MediaGetTime => self.media_get_time,
            SourceCallback::MediaSetTime => self.media_set_time,
            SourceCallback::MediaGetState => self.media_get_state,
            SourceCallback::MouseWheel => self.mouse_wheel,
            SourceCallback::MouseClick => self.mouse_click,
            SourceCallback::MouseMove => self.mouse_move,
            SourceCallback::KeyClick => self.key_click,
            SourceCallback::Focus => self.focus,
        }
    }

    /// The descriptor with the slot for `callback` filled by its trampoline.
    pub open spec fn with_slot(self, callback: SourceCallback) -> SourceDescriptor {
        match callback {
            SourceCallback::Create => SourceDescriptor { create: Some(callback), ..self },
            SourceCallback::Destroy => SourceDescriptor { destroy: Some(callback), ..self },
            SourceCallback::GetName => SourceDescriptor { get_name: Some(callback), ..self },
            SourceCallback::GetWidth => SourceDescriptor { get_width: Some(callback), ..self },
            SourceCallback::GetHeight => SourceDescriptor { get_height: Some(callback), ..self },
            SourceCallback::Activate => SourceDescriptor { activate: Some(callback), ..self },
            SourceCallback::Deactivate => SourceDescriptor { deactivate: Some(callback), ..self },
            SourceCallback::Update => SourceDescriptor { update: Some(callback), ..self },
            SourceCallback::VideoRender => SourceDescriptor {
                video_render: Some(callback),
                ..self
            },
            SourceCallback::AudioRender => SourceDescriptor {
                audio_render: Some(callback),
                ..self
            },
            SourceCallback::GetProperties => SourceDescriptor {
                get_properties: Some(callback),
                ..self
            },
            SourceCallback::EnumActiveSources => SourceDescriptor {
                enum_active_sources: Some(callback),
                ..self
            },
            SourceCallback::EnumAllSources => SourceDescriptor {
                enum_all_sources: Some(callback),
                ..self
            },
            SourceCallback::TransitionStart => SourceDescriptor {
                transition_start: Some(callback),
                ..self
            },
            SourceCallback::TransitionStop => SourceDescriptor {
                transition_stop: Some(callback),
                ..self
            },
            SourceCallback::VideoTick => SourceDescriptor { video_tick: Some(callback), ..self },
            SourceCallback::FilterAudio => SourceDescriptor {
                filter_audio: Some(callback),
                ..self
            },
            SourceCallback::FilterVideo => SourceDescriptor {
                filter_video: Some(callback),
                ..self
            },
            SourceCallback::GetDefaults => SourceDescriptor {
                get_defaults: Some(callback),
                ..self
            },
            SourceCallback::MediaPlayPause => SourceDescriptor {
                media_play_pause: Some(callback),
                ..self
            },
            SourceCallback::MediaRestart => SourceDescriptor {
                media_restart: Some(callback),
                ..self
            },
            SourceCallback::MediaStop => SourceDescriptor { media_stop: Some(callback), ..self },
            SourceCallback::MediaNext => SourceDescriptor { media_next: Some(callback), ..self },
            SourceCallback::MediaPrevious => SourceDescriptor {
                media_previous: Some(callback),
                ..self
            },
            SourceCallback::MediaGetDuration => SourceDescriptor {
                media_get_duration: Some(callback),
                ..self
            },
            SourceCallback::MediaGetTime => SourceDescriptor {
                media_get_time: Some(callback),
                ..self
            },
            SourceCallback::MediaSetTime => SourceDescriptor {
                media_set_time: Some(callback),
                ..self
            },
            SourceCallback::MediaGetState => SourceDescriptor {
                media_get_state: Some(callback),
                ..self
            },
            SourceCallback::MouseWheel => SourceDescriptor { mouse_wheel: Some(callback), ..self },
            SourceCallback::MouseClick => SourceDescriptor { mouse_click: Some(callback), ..self },
            SourceCallback::MouseMove => SourceDescriptor { mouse_move: Some(callback), ..self },
            SourceCallback::KeyClick => SourceDescriptor { key_click: Some(callback), ..self },
            SourceCallback::Focus => SourceDescriptor { focus: Some(callback), ..self },
        }
    }

    /// The descriptor that every unit starts from: the two slots that no
    /// unit can do without are filled, all others are empty, no flag is set.
    pub open spec fn initial(id: ObsString, type_: SourceType) -> SourceDescriptor {
        SourceDescriptor {
            id,
            type_,
            output_flags: 0,
            icon_type: Icon::Unknown,
            create: Some(SourceCallback::Create),
            destroy: Some(SourceCallback::Destroy),
            get_name: None,
            get_width: None,
            get_height: None,
            activate: None,
            deactivate: None,
            update: None,
            video_render: None,
            audio_render: None,
            get_properties: None,
            enum_active_sources: None,
            enum_all_sources: None,
            transition_start: None,
            transition_stop: None,
            video_tick: None,
            filter_audio: None,
            filter_video: None,
            get_defaults: None,
            media_play_pause: None,
            media_restart: None,
            media_stop: None,
            media_next: None,
            media_previous: None,
            media_get_duration: None,
            media_get_time: None,
            media_set_time: None,
            media_get_state: None,
            mouse_wheel: None,
            mouse_click: None,
            mouse_move: None,
            key_click: None,
            focus: None,
        }
    }

    /// Whether the unit draws video.
    pub open spec fn has_video(self) -> bool {
        self.video_render is Some
    }

    /// Whether the unit produces audio.
    pub open spec fn has_audio(self) -> bool {
        self.audio_render is Some || self.filter_audio is Some
    }

    /// Whether the unit plays media that the user can control.
    pub open spec fn has_media(self) -> bool {
        self.media_get_state is Some || self.media_play_pause is Some
    }

    /// Whether the unit takes mouse or keyboard input.
    pub open spec fn has_interaction(self) -> bool {
        self.mouse_click is Some || self.mouse_move is Some || self.mouse_wheel is Some
            || self.focus is Some || self.key_click is Some
    }

    /// The flags of the finished descriptor: those that were set, and one
    /// more for each thing that the filled slots show the unit can do.
    pub open spec fn built_flags(self) -> u32 {
        or_if(
            or_if(
                or_if(
                    or_if(self.output_flags, self.has_video(), OBS_SOURCE_VIDEO),
                    self.has_audio(),
                    OBS_SOURCE_AUDIO,
                ),
                self.has_media(),
                OBS_SOURCE_CONTROLLABLE_MEDIA,
            ),
            self.has_interaction(),
            OBS_SOURCE_INTERACTION,
        )
    }

    /// The finished descriptor: the same slots, and the flags that follow
    /// from them.
    pub open spec fn built(self) -> SourceDescriptor {
        SourceDescriptor { output_flags: self.built_flags(), ..self }
    }
}

/// A finished descriptor. It cannot be changed any more.
#[derive(Debug)]
pub struct SourceInfo {
    info: SourceDescriptor,
}

impl View for SourceInfo {
    type V = SourceDescriptor;

    closed spec fn view(&self) -> SourceDescriptor {
        self.info
    }
}

impl SourceInfo {
    /// The descriptor, to read.
    pub fn as_ref(&self) -> (r: &SourceDescriptor)
        ensures
            *r == self@,
    {
        &self.info
    }

    /// Ends the wrapper and hands the descriptor over.
    pub fn into_raw(self) -> (r: SourceDescriptor)
        ensures
            r == self@,
    {
        self.info
    }
}

/// Builds the descriptor of the unit type `D`.
///
/// The builder starts with the two slots that every unit has. Every other
/// slot has an `enable_` method, which exists only where `D` implements the
/// capability that the slot calls:
///
/// ```text
/// let source = load_context
///     .create_source_builder::<FocusFilter>()
///     .enable_get_name()
///     .enable_update()
///     .build();
/// ```
pub struct SourceInfoBuilder<D: Sourceable> {
    __data: PhantomData<D>,
    info: SourceDescriptor,
}

impl<D: Sourceable> SourceInfoBuilder<D> {
    /// The descriptor as built so far.
    pub closed spec fn info(self) -> SourceDescriptor {
        self.info
    }

    /// Starts the descriptor of `D`, with the id and the kind that `D` gives.
    pub fn new() -> (r: Self)
        ensures
            D::on_get_id(r.info().id),
            D::on_get_type(r.info().type_),
            r.info() == SourceDescriptor::initial(r.info().id, r.info().type_),
    {
        Self {
            __data: PhantomData,
            info: SourceDescriptor {
                id: D::get_id(),
                type_: D::get_type(),
                output_flags: 0,
                icon_type: Icon::Unknown,
                create: Some(SourceCallback::Create),
                destroy: Some(SourceCallback::Destroy),
                get_name: None,
                get_width: None,
                get_height: None,
                activate: None,
                deactivate: None,
                update: None,
                video_render: None,
                audio_render: None,
                get_properties: None,
                enum_active_sources: None,
                enum_all_sources: None,
                transition_start: None,
                transition_stop: None,
                video_tick: None,
                filter_audio: None,
                filter_video: None,
                get_defaults: None,
                media_play_pause: None,
                media_restart: None,
                media_stop: None,
                media_next: None,
                media_previous: None,
                media_get_duration: None,
                media_get_time: None,
                media_set_time: None,
                media_get_state: None,
                mouse_wheel: None,
                mouse_click: None,
                mouse_move: None,
                key_click: None,
                focus: None,
            },
        }
    }

    /// Finishes the descriptor: sets the flag of everything that the filled
    /// slots show the unit can do, and changes nothing else.
    pub fn build(self) -> (r: SourceInfo)
        ensures
            r@ == self.info().built(),
    {
        let mut info = self.info;
        let mut flags = info.output_flags;
        if info.video_render.is_some() {
            flags = flags | OBS_SOURCE_VIDEO;
        }
        if info.audio_render.is_some() || info.filter_audio.is_some() {
            flags = flags | OBS_SOURCE_AUDIO;
        }
        if info.media_get_state.is_some() || info.media_play_pause.is_some() {
            flags = flags | OBS_SOURCE_CONTROLLABLE_MEDIA;
        }
        if info.mouse_click.is_some() || info.mouse_move.is_some() || info.mouse_wheel.is_some()
            || info.focus.is_some() || info.key_click.is_some() {
            flags = flags | OBS_SOURCE_INTERACTION;
        }
        info.output_flags = flags;
        SourceInfo { info }
    }

    /// Sets the icon that the host shows for the unit.
    pub fn with_icon(self, icon: Icon) -> (r: Self)
        ensures
            r.info() == (SourceDescriptor { icon_type: icon, ..self.info() }),
    {
        let mut builder = self;
        builder.info.icon_type = icon;
        builder
    }
}

impl<D: Sourceable + GetNameSource> SourceInfoBuilder<D> {
    /// Fills the `get_name` slot with the trampoline that calls `D::get_name`.
    pub fn enable_get_name(self) -> (r: Self)
        ensures
            r.info() == self.info().with_slot(SourceCallback::GetName),
    {
        let mut builder = self;
        builder.info.get_name = Some(SourceCallback::GetName);
        builder
    }
}

impl<D: Sourceable + GetWidthSource> SourceInfoBuilder<D> {
    /// Fills the `get_width` slot with the trampoline that calls `D::get_width`.
    pub fn enable_get_width(self) -> (r: Self)
        ensures
            r.info() == self.info().with_slot(SourceCallback::GetWidth),
    {
        let mut builder = self;
        builder.info.get_width = Some(SourceCallback::GetWidth);
        builder
    }
}

impl<D: Sourceable + GetHeightSource> SourceInfoBuilder<D> {
    /// Fills the `get_height` slot with the trampoline that calls `D::get_height`.
    pub fn enable_get_height(self) -> (r: Self)
        ensures
            r.info() == self.info().with_slot(SourceCallback::GetHeight),
    {
        let mut builder = self;
        builder.info.get_height = Some(SourceCallback::GetHeight);
        builder
    }
}

impl<D: Sourceable + ActivateSource> SourceInfoBuilder<D> {
    /// Fills the `activate` slot with the trampoline that calls `D::activate`.
    pub fn enable_activate(self) -> (r: Self)
        ensures
            r.info() == self.info().with_slot(SourceCallback::Activate),
    {
        let mut builder = self;
        builder.info.activate = Some(SourceCallback::Activate);
        builder
    }
}

impl<D: Sourceable + DeactivateSource> SourceInfoBuilder<D> {
    /// Fills the `deactivate` slot with the trampoline that calls `D::deactivate`.
    pub fn enable_deactivate(self) -> (r: Self)
        ensures
            r.info() == self.info().with_slot(SourceCallback::Deactivate),
    {
        let mut builder = self;
        builder.info.deactivate = Some(SourceCallback::Deactivate);
        builder
    }
}

impl<D: Sourceable + UpdateSource> SourceInfoBuilder<D> {
    /// Fills the `update` slot with the trampoline that calls `D::update`.
    pub fn enable_update(self) -> (r: Self)
        ensures
            r.info() == self.info().with_slot(SourceCallback::Update),
    {
        let mut builder = self;
        builder.info.update = Some(SourceCallback::Update);
        builder
    }
}

impl<D: Sourceable + VideoRenderSource> SourceInfoBuilder<D> {
    /// Fills the `video_render` slot with the trampoline that calls `D::video_render`.
    pub fn enable_video_render(self) -> (r: Self)
        ensures
            r.info() == self.info().with_slot(SourceCallback::VideoRender),
    {
        let mut builder = self;
        builder.info.video_render = Some(SourceCallback::VideoRender);
        builder
    }
}

impl<D: Sourceable + AudioRenderSource> SourceInfoBuilder<D> {
    /// Fills the `audio_render` slot with the trampoline that calls `D::audio_render`.
    pub fn enable_audio_render(self) -> (r: Self)
        ensures
            r.info() == self.info().with_slot(SourceCallback::AudioRender),
    {
        let mut builder = self;
        builder.info.audio_render = Some(SourceCallback::AudioRender);
        builder
    }
}

impl<D: Sourceable + GetPropertiesSource> SourceInfoBuilder<D> {
    /// Fills the `get_properties` slot with the trampoline that calls `D::get_properties`.
    pub fn enable_get_properties(self) -> (r: Self)
        ensures
            r.info() == self.info().with_slot(SourceCallback::GetProperties),
    {
        let mut builder = self;
        builder.info.get_properties = Some(SourceCallback::GetProperties);
        builder
    }
}

impl<D: Sourceable + EnumActiveSource> SourceInfoBuilder<D> {
    /// Fills the `enum_active_sources` slot with the trampoline that calls `D::enum_active_sources`.
    pub fn enable_enum_active_sources(self) -> (r: Self)
        ensures
            r.info() == self.info().with_slot(SourceCallback::EnumActiveSources),
    {
        let mut builder = self;
        builder.info.enum_active_sources = Some(SourceCallback::EnumActiveSources);
        builder
    }
}

impl<D: Sourceable + EnumAllSource> SourceInfoBuilder<D> {
    /// Fills the `enum_all_sources` slot with the trampoline that calls `D::enum_all_sources`.
    pub fn enable_enum_all_sources(self) -> (r: Self)
        ensures
            r.info() == self.info().with_slot(SourceCallback::EnumAllSources),
    {
        let mut builder = self;
        builder.info.enum_all_sources = Some(SourceCallback::EnumAllSources);
        builder
    }
}

impl<D: Sourceable + TransitionStartSource> SourceInfoBuilder<D> {
    /// Fills the `transition_start` slot with the trampoline that calls `D::transition_start`.
    pub fn enable_transition_start(self) -> (r: Self)
        ensures
            r.info() == self.info().with_slot(SourceCallback::TransitionStart),
    {
        let mut builder = self;
        builder.info.transition_start = Some(SourceCallback::TransitionStart);
        builder
    }
}

impl<D: Sourceable + TransitionStopSource> SourceInfoBuilder<D> {
    /// Fills the `transition_stop` slot with the trampoline that calls `D::transition_stop`.
    pub fn enable_transition_stop(self) -> (r: Self)
        ensures
            r.info() == self.info().with_slot(SourceCallback::TransitionStop),
    {
        let mut builder = self;
        builder.info.transition_stop = Some(SourceCallback::TransitionStop);
        builder
    }
}

impl<D: Sourceable + VideoTickSource> SourceInfoBuilder<D> {
    /// Fills the `video_tick` slot with the trampoline that calls `D::video_tick`.
    pub fn enable_video_tick(self) -> (r: Self)
        ensures
            r.info() == self.info().with_slot(SourceCallback::VideoTick),
    {
        let mut builder = self;
        builder.info.video_tick = Some(SourceCallback::VideoTick);
        builder
    }
}

impl<D: Sourceable + FilterAudioSource> SourceInfoBuilder<D> {
    /// Fills the `filter_audio` slot with the trampoline that calls `D::filter_audio`.
    pub fn enable_filter_audio(self) -> (r: Self)
        ensures
            r.info() == self.info().with_slot(SourceCallback::FilterAudio),
    {
        let mut builder = self;
        builder.info.filter_audio = Some(SourceCallback::FilterAudio);
        builder
    }
}

impl<D: Sourceable + FilterVideoSource> SourceInfoBuilder<D> {
    /// Fills the `filter_video` slot with the trampoline that calls `D::filter_video`.
    pub fn enable_filter_video(self) -> (r: Self)
        ensures
            r.info() == self.info().with_slot(SourceCallback::FilterVideo),
    {
        let mut builder = self;
        builder.info.filter_video = Some(SourceCallback::FilterVideo);
        builder
    }
}

impl<D: Sourceable + GetDefaultsSource> SourceInfoBuilder<D> {
    /// Fills the `get_defaults` slot with the trampoline that calls `D::get_defaults`.
    pub fn enable_get_defaults(self) -> (r: Self)
        ensures
            r.info() == self.info().with_slot(SourceCallback::GetDefaults),
    {
        let mut builder = self;
        builder.info.get_defaults = Some(SourceCallback::GetDefaults);
        builder
    }
}

impl<D: Sourceable + MediaPlayPauseSource> SourceInfoBuilder<D> {
    /// Fills the `media_play_pause` slot with the trampoline that calls `D::play_pause`.
    pub fn enable_media_play_pause(self) -> (r: Self)
        ensures
            r.info() == self.info().with_slot(SourceCallback::MediaPlayPause),
    {
        let mut builder = self;
        builder.info.media_play_pause = Some(SourceCallback::MediaPlayPause);
        builder
    }
}

impl<D: Sourceable + MediaRestartSource> SourceInfoBuilder<D> {
    /// Fills the `media_restart` slot with the trampoline that calls `D::restart`.
    pub fn enable_media_restart(self) -> (r: Self)
        ensures
            r.info() == self.info().with_slot(SourceCallback::MediaRestart),
    {
        let mut builder = self;
        builder.info.media_restart = Some(SourceCallback::MediaRestart);
        builder
    }
}

impl<D: Sourceable + MediaStopSource> SourceInfoBuilder<D> {
    /// Fills the `media_stop` slot with the trampoline that calls `D::stop`.
    pub fn enable_media_stop(self) -> (r: Self)
        ensures
            r.info() == self.info().with_slot(SourceCallback::MediaStop),
    {
        let mut builder = self;
        builder.info.media_stop = Some(SourceCallback::MediaStop);
        builder
    }
}

impl<D: Sourceable + MediaNextSource> SourceInfoBuilder<D> {
    /// Fills the `media_next` slot with the trampoline that calls `D::next`.
    pub fn enable_media_next(self) -> (r: Self)
        ensures
            r.info() == self.info().with_slot(SourceCallback::MediaNext),
    {
        let mut builder = self;
        builder.info.media_next = Some(SourceCallback::MediaNext);
        builder
    }
}

impl<D: Sourceable + MediaPreviousSource> SourceInfoBuilder<D> {
    /// Fills the `media_previous` slot with the trampoline that calls `D::previous`.
    pub fn enable_media_previous(self) -> (r: Self)
        ensures
            r.info() == self.info().with_slot(SourceCallback::MediaPrevious),
    {
        let mut builder = self;
        builder.info.media_previous = Some(SourceCallback::MediaPrevious);
        builder
    }
}

impl<D: Sourceable + MediaGetDurationSource> SourceInfoBuilder<D> {
    /// Fills the `media_get_duration` slot with the trampoline that calls `D::get_duration`.
    pub fn enable_media_get_duration(self) -> (r: Self)
        ensures
            r.info() == self.info().with_slot(SourceCallback::MediaGetDuration),
    {
        let mut builder = self;
        builder.info.media_get_duration = Some(SourceCallback::MediaGetDuration);
        builder
    }
}

impl<D: Sourceable + MediaGetTimeSource> SourceInfoBuilder<D> {
    /// Fills the `media_get_time` slot with the trampoline that calls `D::get_time`.
    pub fn enable_media_get_time(self) -> (r: Self)
        ensures
            r.info() == self.info().with_slot(SourceCallback::MediaGetTime),
    {
        let mut builder = self;
        builder.info.media_get_time = Some(SourceCallback::MediaGetTime);
        builder
    }
}

impl<D: Sourceable + MediaSetTimeSource> SourceInfoBuilder<D> {
    /// Fills the `media_set_time` slot with the trampoline that calls `D::set_time`.
    pub fn enable_media_set_time(self) -> (r: Self)
        ensures
            r.info() == self.info().with_slot(SourceCallback::MediaSetTime),
    {
        let mut builder = self;
        builder.info.media_set_time = Some(SourceCallback::MediaSetTime);
        builder
    }
}

impl<D: Sourceable + MediaGetStateSource> SourceInfoBuilder<D> {
    /// Fills the `media_get_state` slot with the trampoline that calls `D::get_state`.
    pub fn enable_media_get_state(self) -> (r: Self)
        ensures
            r.info() == self.info().with_slot(SourceCallback::MediaGetState),
    {
        let mut builder = self;
        builder.info.media_get_state = Some(SourceCallback::MediaGetState);
        builder
    }
}

impl<D: Sourceable + MouseWheelSource> SourceInfoBuilder<D> {
    /// Fills the `mouse_wheel` slot with the trampoline that calls `D::mouse_wheel`.
    pub fn enable_mouse_wheel(self) -> (r: Self)
        ensures
            r.info() == self.info().with_slot(SourceCallback::MouseWheel),
    {
        let mut builder = self;
        builder.info.mouse_wheel = Some(SourceCallback::MouseWheel);
        builder
    }
}

impl<D: Sourceable + MouseClickSource> SourceInfoBuilder<D> {
    /// Fills the `mouse_click` slot with the trampoline that calls `D::mouse_click`.
    pub fn enable_mouse_click(self) -> (r: Self)
        ensures
            r.info() == self.info().with_slot(SourceCallback::MouseClick),
    {
        let mut builder = self;
        builder.info.mouse_click = Some(SourceCallback::MouseClick);
        builder
    }
}

impl<D: Sourceable + MouseMoveSource> SourceInfoBuilder<D> {
    /// Fills the `mouse_move` slot with the trampoline that calls `D::mouse_move`.
    pub fn enable_mouse_move(self) -> (r: Self)
        ensures
            r.info() == self.info().with_slot(SourceCallback::MouseMove),
    {
        let mut builder = self;
        builder.info.mouse_move = Some(SourceCallback::MouseMove);
        builder
    }
}

impl<D: Sourceable + KeyClickSource> SourceInfoBuilder<D> {
    /// Fills the `key_click` slot with the trampoline that calls `D::key_click`.
    pub fn enable_key_click(self) -> (r: Self)
        ensures
            r.info() == self.info().with_slot(SourceCallback::KeyClick),
    {
        let mut builder = self;
        builder.info.key_click = Some(SourceCallback::KeyClick);
        builder
    }
}

impl<D: Sourceable + FocusSource> SourceInfoBuilder<D> {
    /// Fills the `focus` slot with the trampoline that calls `D::focus`.
    pub fn enable_focus(self) -> (r: Self)
        ensures
            r.info() == self.info().with_slot(SourceCallback::Focus),
    {
        let mut builder = self;
        builder.info.focus = Some(SourceCallback::Focus);
        builder
    }
}

/// The descriptor after one `enable_` call for each callback in `calls`, in
/// their order.
pub open spec fn enable_all(d: SourceDescriptor, calls: Seq<SourceCallback>) -> SourceDescriptor
    decreases calls.len(),
{
    if calls.len() == 0 {
        d
    } else {
        enable_all(d, calls.drop_last()).with_slot(calls.last())
    }
}

/// Filling a slot puts the slot's own trampoline into it and leaves every
/// other slot, the id, the kind, the icon and the flags as they were.
pub proof fn lemma_with_slot(d: SourceDescriptor, filled: SourceCallback, c: SourceCallback)
    ensures
        d.with_slot(filled).slot(c) == if c == filled {
            Some(filled)
        } else {
            d.slot(c)
        },
        d.with_slot(filled).id == d.id,
        d.with_slot(filled).type_ == d.type_,
        d.with_slot(filled).icon_type == d.icon_type,
        d.with_slot(filled).output_flags == d.output_flags,
{
}

/// Enabling a capability twice is the same as enabling it once.
pub proof fn lemma_enable_idempotent(d: SourceDescriptor, c: SourceCallback)
    ensures
        d.with_slot(c).with_slot(c) == d.with_slot(c),
{
}

/// Two descriptors are the same when they agree on the id, the kind, the
/// icon, the flags and on what every slot holds.
pub proof fn lemma_same_slots(x: SourceDescriptor, y: SourceDescriptor)
    requires
        forall|c: SourceCallback| x.slot(c) == y.slot(c),
        x.id == y.id,
        x.type_ == y.type_,
        x.icon_type == y.icon_type,
        x.output_flags == y.output_flags,
    ensures
        x == y,
{
    assert(x.slot(SourceCallback::Create) == y.slot(SourceCallback::Create));
    assert(x.slot(SourceCallback::Destroy) == y.slot(SourceCallback::Destroy));
    assert(x.slot(SourceCallback::GetName) == y.slot(SourceCallback::GetName));
    assert(x.slot(SourceCallback::GetWidth) == y.slot(SourceCallback::GetWidth));
    assert(x.slot(SourceCallback::GetHeight) == y.slot(SourceCallback::GetHeight));
    assert(x.slot(SourceCallback::Activate) == y.slot(SourceCallback::Activate));
    assert(x.slot(SourceCallback::Deactivate) == y.slot(SourceCallback::Deactivate));
    assert(x.slot(SourceCallback::Update) == y.slot(SourceCallback::Update));
    assert(x.slot(SourceCallback::VideoRender) == y.slot(SourceCallback::VideoRender));
    assert(x.slot(SourceCallback::AudioRender) == y.slot(SourceCallback::AudioRender));
    assert(x.slot(SourceCallback::GetProperties) == y.slot(SourceCallback::GetProperties));
    assert(x.slot(SourceCallback::EnumActiveSources) == y.slot(SourceCallback::EnumActiveSources));
    assert(x.slot(SourceCallback::EnumAllSources) == y.slot(SourceCallback::EnumAllSources));
    assert(x.slot(SourceCallback::TransitionStart) == y.slot(SourceCallback::TransitionStart));
    assert(x.slot(SourceCallback::TransitionStop) == y.slot(SourceCallback::TransitionStop));
    assert(x.slot(SourceCallback::VideoTick) == y.slot(SourceCallback::VideoTick));
    assert(x.slot(SourceCallback::FilterAudio) == y.slot(SourceCallback::FilterAudio));
    assert(x.slot(SourceCallback::FilterVideo) == y.slot(SourceCallback::FilterVideo));
    assert(x.slot(SourceCallback::GetDefaults) == y.slot(SourceCallback::GetDefaults));
    assert(x.slot(SourceCallback::MediaPlayPause) == y.slot(SourceCallback::MediaPlayPause));
    assert(x.slot(SourceCallback::MediaRestart) == y.slot(SourceCallback::MediaRestart));
    assert(x.slot(SourceCallback::MediaStop) == y.slot(SourceCallback::MediaStop));
    assert(x.slot(SourceCallback::MediaNext) == y.slot(SourceCallback::MediaNext));
    assert(x.slot(SourceCallback::MediaPrevious) == y.slot(SourceCallback::MediaPrevious));
    assert(x.slot(SourceCallback::MediaGetDuration) == y.slot(SourceCallback::MediaGetDuration));
    assert(x.slot(SourceCallback::MediaGetTime) == y.slot(SourceCallback::MediaGetTime));
    assert(x.slot(SourceCallback::MediaSetTime) == y.slot(SourceCallback::MediaSetTime));
    assert(x.slot(SourceCallback::MediaGetState) == y.slot(SourceCallback::MediaGetState));
    assert(x.slot(SourceCallback::MouseWheel) == y.slot(SourceCallback::MouseWheel));
    assert(x.slot(SourceCallback::MouseClick) == y.slot(SourceCallback::MouseClick));
    assert(x.slot(SourceCallback::MouseMove) == y.slot(SourceCallback::MouseMove));
    assert(x.slot(SourceCallback::KeyClick) == y.slot(SourceCallback::KeyClick));
    assert(x.slot(SourceCallback::Focus) == y.slot(SourceCallback::Focus));
}

/// The order in which two capabilities are enabled does not matter.
pub proof fn lemma_enable_commutes(d: SourceDescriptor, a: SourceCallback, b: SourceCallback)
    ensures
        d.with_slot(a).with_slot(b) == d.with_slot(b).with_slot(a),
{
    let x = d.with_slot(a).with_slot(b);
    let y = d.with_slot(b).with_slot(a);
    assert forall|c: SourceCallback| x.slot(c) == y.slot(c) by {
        lemma_with_slot(d, a, c);
        lemma_with_slot(d.with_slot(a), b, c);
        lemma_with_slot(d, b, c);
        lemma_with_slot(d.with_slot(b), a, c);
    }
    lemma_with_slot(d, a, a);
    lemma_with_slot(d.with_slot(a), b, a);
    lemma_with_slot(d, b, a);
    lemma_with_slot(d.with_slot(b), a, a);
    lemma_same_slots(x, y);
}

/// After any number of `enable_` calls on a descriptor, a slot holds its
/// own trampoline if one of the calls was for it, and what it held before
/// otherwise. The calls change nothing but slots.
pub proof fn lemma_enable_all(d: SourceDescriptor, calls: Seq<SourceCallback>, c: SourceCallback)
    ensures
        enable_all(d, calls).slot(c) == if calls.contains(c) {
            Some(c)
        } else {
            d.slot(c)
        },
        enable_all(d, calls).id == d.id,
        enable_all(d, calls).type_ == d.type_,
        enable_all(d, calls).icon_type == d.icon_type,
        enable_all(d, calls).output_flags == d.output_flags,
    decreases calls.len(),
{
    if calls.len() > 0 {
        let front = calls.drop_last();
        lemma_enable_all(d, front, c);
        lemma_with_slot(enable_all(d, front), calls.last(), c);
        if calls.last() == c {
            assert(calls[calls.len() - 1] == c);
        } else if calls.contains(c) {
            let i = choose|i: int| 0 <= i < calls.len() && calls[i] == c;
            assert(front[i] == c);
        } else if front.contains(c) {
            let i = choose|i: int| 0 <= i < front.len() && front[i] == c;
            assert(calls[i] == c);
        }
    }
}

/// A slot of a finished descriptor is filled if and only if it is one of
/// the two that every unit has or the `enable_` method for it was called,
/// however often and in whatever order; and a filled slot holds the
/// trampoline of its own callback.
pub proof fn lemma_slot_filled_iff_enabled(
    id: ObsString,
    type_: SourceType,
    calls: Seq<SourceCallback>,
    c: SourceCallback,
)
    ensures
        ({
            let finished = enable_all(SourceDescriptor::initial(id, type_), calls).built();
            &&& finished.slot(c) is Some <==> c == SourceCallback::Create || c
                == SourceCallback::Destroy || calls.contains(c)
            &&& finished.slot(c) is Some ==> finished.slot(c) == Some(c)
            &&& finished.id == id
            &&& finished.type_ == type_
        }),
{
    lemma_enable_all(SourceDescriptor::initial(id, type_), calls, c);
}

/// The flags of a descriptor that started without flags are a function of
/// its filled slots alone: each of the four things that a unit can do sets
/// its own flag, and no other flag is set.
pub proof fn lemma_flags_follow_slots(d: SourceDescriptor)
    requires
        d.output_flags == 0,
    ensures
        d.built_flags() == (if d.has_video() {
            OBS_SOURCE_VIDEO
        } else {
            0
        }) + (if d.has_audio() {
            OBS_SOURCE_AUDIO
        } else {
            0
        }) + (if d.has_media() {
            OBS_SOURCE_CONTROLLABLE_MEDIA
        } else {
            0
        }) + (if d.has_interaction() {
            OBS_SOURCE_INTERACTION
        } else {
            0
        }),
        d.built_flags() & OBS_SOURCE_VIDEO != 0 <==> d.has_video(),
        d.built_flags() & OBS_SOURCE_AUDIO != 0 <==> d.has_audio(),
        d.built_flags() & OBS_SOURCE_CONTROLLABLE_MEDIA != 0 <==> d.has_media(),
        d.built_flags() & OBS_SOURCE_INTERACTION != 0 <==> d.has_interaction(),
{
    let f0: u32 = 0;
    let f1 = or_if(f0, d.has_video(), OBS_SOURCE_VIDEO);
    let f2 = or_if(f1, d.has_audio(), OBS_SOURCE_AUDIO);
    let f3 = or_if(f2, d.has_media(), OBS_SOURCE_CONTROLLABLE_MEDIA);
    let f4 = or_if(f3, d.has_interaction(), OBS_SOURCE_INTERACTION);
    assert(f4 == d.built_flags());
    assert(f0 | 0x1 == f0 + 0x1) by (bit_vector)
        requires
            f0 == 0,
    ;
    assert(f1 | 0x2 == f1 + 0x2) by (bit_vector)
        requires
            f1 == 0 || f1 == 1,
    ;
    assert(f2 | 0x2000 == f2 + 0x2000) by (bit_vector)
        requires
            f2 < 4,
    ;
    assert(f3 | 0x20 == f3 + 0x20) by (bit_vector)
        requires
            f3 < 4 || 0x2000 <= f3 < 0x2004,
    ;
    assert(f4 & 0x1 != 0 <==> (f4 == 0x1 || f4 == 0x3 || f4 == 0x2001 || f4 == 0x2003 || f4 == 0x21
        || f4 == 0x23 || f4 == 0x2021 || f4 == 0x2023)) by (bit_vector)
        requires
            f4 < 4 || 0x2000 <= f4 < 0x2004 || 0x20 <= f4 < 0x24 || 0x2020 <= f4 < 0x2024,
    ;
    assert(f4 & 0x2 != 0 <==> (f4 == 0x2 || f4 == 0x3 || f4 == 0x2002 || f4 == 0x2003 || f4 == 0x22
        || f4 == 0x23 || f4 == 0x2022 || f4 == 0x2023)) by (bit_vector)
        requires
            f4 < 4 || 0x2000 <= f4 < 0x2004 || 0x20 <= f4 < 0x24 || 0x2020 <= f4 < 0x2024,
    ;
    assert(f4 & 0x2000 != 0 <==> f4 >= 0x2000) by (bit_vector)
        requires
            f4 < 4 || 0x2000 <= f4 < 0x2004 || 0x20 <= f4 < 0x24 || 0x2020 <= f4 < 0x2024,
    ;
    assert(f4 & 0x20 != 0 <==> (0x20 <= f4 < 0x24 || 0x2020 <= f4 < 0x2024)) by (bit_vector)
        requires
            f4 < 4 || 0x2000 <= f4 < 0x2004 || 0x20 <= f4 < 0x24 || 0x2020 <= f4 < 0x2024,
    ;
}

} // verus!
