use vstd::prelude::*;

use super::context::{CreatableSourceContext, GlobalContext, VideoRenderContext};
use super::{
    EnumActiveContext, EnumAllContext, KeyEvent, MouseButton, MouseEvent, SourceRef, SourceType,
};
use crate::data::{DataObj, FloatBits};
use crate::hotkey::HotkeyCallback;
use crate::media::{AudioDataContext, MediaState, VideoDataSourceContext};
use crate::properties::Properties;
use crate::string::ObsString;

verus! {

/// A unit type that the host can make instances of.
///
/// This and the capability traits below are what a plugin implements. Each
/// method comes with a relation, named after it, that says what a call may
/// do; a unit that leaves a relation as it is says nothing of the method.
/// The bridge promises of each of its trampolines that it makes exactly
/// the call that the relation describes: with which arguments, on which
/// instance, and that nothing else changes.
pub trait Sourceable: Sized {
    /// What a hotkey of this unit runs when it fires.
    type Callback: HotkeyCallback<Self>;

    /// Whether `id` is the id under which the host knows the unit type.
    open spec fn on_get_id(id: ObsString) -> bool {
        true
    }

    /// Whether `source_type` is the kind of source that the unit is.
    open spec fn on_get_type(source_type: SourceType) -> bool {
        true
    }

    /// What one call of `create` may do: from `settings`, for the source
    /// `source`, it asked for the hotkeys `hotkeys` and returned `data`.
    open spec fn on_create(
        settings: DataObj,
        source: SourceRef,
        hotkeys: Seq<(ObsString, ObsString, Self::Callback)>,
        data: Self,
    ) -> bool {
        true
    }

    fn get_id() -> (id: ObsString)
        ensures
            Self::on_get_id(id),
    ;

    fn get_type() -> (source_type: SourceType)
        ensures
            Self::on_get_type(source_type),
    ;

    /// Makes the state of a new instance. `create` starts without hotkeys.
    fn create(create: &mut CreatableSourceContext<'_, Self::Callback>, source: SourceRef) -> (data:
        Self)
        requires
            old(create).hotkeys().len() == 0,
        ensures
            final(create).spec_settings() == old(create).spec_settings(),
            Self::on_create(old(create).spec_settings(), source, final(create).hotkeys(), data),
    ;
}

/// A unit with a name for the host to show.
pub trait GetNameSource {
    /// What one call of `get_name` may do: `result` is what it returned.
    open spec fn on_get_name(result: ObsString) -> bool {
        true
    }

    fn get_name() -> (result: ObsString)
        ensures
            Self::on_get_name(result),
    ;
}

/// A unit that knows the width of what it draws.
pub trait GetWidthSource: Sized {
    /// What one call of `get_width` may do: `pre` is the instance before the
    /// call and `post` after it, `result` is what it returned.
    open spec fn on_get_width(pre: Self, post: Self, result: u32) -> bool {
        true
    }

    fn get_width(&mut self) -> (result: u32)
        ensures
            Self::on_get_width(*old(self), *final(self), result),
    ;
}

/// A unit that knows the height of what it draws.
pub trait GetHeightSource: Sized {
    /// What one call of `get_height` may do: `pre` is the instance before the
    /// call and `post` after it, `result` is what it returned.
    open spec fn on_get_height(pre: Self, post: Self, result: u32) -> bool {
        true
    }

    fn get_height(&mut self) -> (result: u32)
        ensures
            Self::on_get_height(*old(self), *final(self), result),
    ;
}

/// A unit that is told when the instance becomes part of the output.
pub trait ActivateSource: Sized {
    /// What one call of `activate` may do: `pre` is the instance before the
    /// call and `post` after it.
    open spec fn on_activate(pre: Self, post: Self) -> bool {
        true
    }

    fn activate(&mut self)
        ensures
            Self::on_activate(*old(self), *final(self)),
    ;
}

/// A unit that is told when the instance leaves the output.
pub trait DeactivateSource: Sized {
    /// What one call of `deactivate` may do: `pre` is the instance before the
    /// call and `post` after it.
    open spec fn on_deactivate(pre: Self, post: Self) -> bool {
        true
    }

    fn deactivate(&mut self)
        ensures
            Self::on_deactivate(*old(self), *final(self)),
    ;
}

/// A unit that is told when the settings of the instance have changed.
pub trait UpdateSource: Sized {
    /// What one call of `update` may do: `pre` is the instance before the call
    /// and `post` after it, `settings` is what the call was handed and
    /// `settings_after` what it left.
    open spec fn on_update(
        pre: Self,
        settings: DataObj,
        post: Self,
        settings_after: DataObj,
    ) -> bool {
        true
    }

    fn update(&mut self, settings: &mut DataObj, context: &mut GlobalContext)
        ensures
            Self::on_update(*old(self), *old(settings), *final(self), *final(settings)),
    ;
}

/// A unit that is asked to draw one frame.
pub trait VideoRenderSource: Sized {
    /// What one call of `video_render` may do: `pre` is the instance before the
    /// call and `post` after it.
    open spec fn on_video_render(pre: Self, post: Self) -> bool {
        true
    }

    fn video_render(&mut self, context: &mut GlobalContext, render: &mut VideoRenderContext)
        ensures
            Self::on_video_render(*old(self), *final(self)),
    ;
}

/// A unit that is asked to mix the audio of one tick.
pub trait AudioRenderSource: Sized {
    /// What one call of `audio_render` may do: `pre` is the instance before the
    /// call and `post` after it.
    open spec fn on_audio_render(pre: Self, post: Self) -> bool {
        true
    }

    fn audio_render(&mut self, context: &mut GlobalContext)
        ensures
            Self::on_audio_render(*old(self), *final(self)),
    ;
}

/// A unit that is asked for the properties that the user can edit.
pub trait GetPropertiesSource: Sized {
    /// What one call of `get_properties` may do: `pre` is the instance before
    /// the call and `post` after it, `result` is what it returned.
    open spec fn on_get_properties(pre: Self, post: Self, result: Properties) -> bool {
        true
    }

    fn get_properties(&mut self) -> (result: Properties)
        ensures
            Self::on_get_properties(*old(self), *final(self), result),
    ;
}

/// A unit that is asked to name the sources that the instance currently shows.
pub trait EnumActiveSource: Sized {
    /// What one call of `enum_active_sources` may do: `pre` is the instance
    /// before the call and `post` after it.
    open spec fn on_enum_active_sources(pre: Self, post: Self) -> bool {
        true
    }

    fn enum_active_sources(&mut self, context: &EnumActiveContext)
        ensures
            Self::on_enum_active_sources(*old(self), *final(self)),
    ;
}

/// A unit that is asked to name every source that the instance holds.
pub trait EnumAllSource: Sized {
    /// What one call of `enum_all_sources` may do: `pre` is the instance before
    /// the call and `post` after it.
    open spec fn on_enum_all_sources(pre: Self, post: Self) -> bool {
        true
    }

    fn enum_all_sources(&mut self, context: &EnumAllContext)
        ensures
            Self::on_enum_all_sources(*old(self), *final(self)),
    ;
}

/// A unit that is told when a transition begins.
pub trait TransitionStartSource: Sized {
    /// What one call of `transition_start` may do: `pre` is the instance before
    /// the call and `post` after it.
    open spec fn on_transition_start(pre: Self, post: Self) -> bool {
        true
    }

    fn transition_start(&mut self)
        ensures
            Self::on_transition_start(*old(self), *final(self)),
    ;
}

/// A unit that is told when a transition ends.
pub trait TransitionStopSource: Sized {
    /// What one call of `transition_stop` may do: `pre` is the instance before
    /// the call and `post` after it.
    open spec fn on_transition_stop(pre: Self, post: Self) -> bool {
        true
    }

    fn transition_stop(&mut self)
        ensures
            Self::on_transition_stop(*old(self), *final(self)),
    ;
}

/// A unit that is told once per frame how many seconds have passed since the
/// last.
pub trait VideoTickSource: Sized {
    /// What one call of `video_tick` may do: `pre` is the instance before the
    /// call and `post` after it.
    open spec fn on_video_tick(pre: Self, seconds: FloatBits, post: Self) -> bool {
        true
    }

    fn video_tick(&mut self, seconds: FloatBits)
        ensures
            Self::on_video_tick(*old(self), seconds, *final(self)),
    ;
}

/// Handed one block of audio to change in place.
pub trait FilterAudioSource: Sized {
    /// What one call of `filter_audio` may do: `pre` is the instance before the
    /// call and `post` after it, `audio` is what the call was handed and
    /// `audio_after` what it left.
    open spec fn on_filter_audio(
        pre: Self,
        audio: AudioDataContext,
        post: Self,
        audio_after: AudioDataContext,
    ) -> bool {
        true
    }

    fn filter_audio(&mut self, audio: &mut AudioDataContext)
        ensures
            Self::on_filter_audio(*old(self), *old(audio), *final(self), *final(audio)),
    ;
}

/// Handed one video frame to change in place.
pub trait FilterVideoSource: Sized {
    /// What one call of `filter_video` may do: `pre` is the instance before the
    /// call and `post` after it, `video` is what the call was handed and
    /// `video_after` what it left.
    open spec fn on_filter_video(
        pre: Self,
        video: VideoDataSourceContext,
        post: Self,
        video_after: VideoDataSourceContext,
    ) -> bool {
        true
    }

    fn filter_video(&mut self, video: &mut VideoDataSourceContext)
        ensures
            Self::on_filter_video(*old(self), *old(video), *final(self), *final(video)),
    ;
}

/// Asked to fill in the default settings of the unit.
pub trait GetDefaultsSource {
    /// What one call of `get_defaults` may do: `settings` is what the call was
    /// handed and `settings_after` what it left.
    open spec fn on_get_defaults(settings: DataObj, settings_after: DataObj) -> bool {
        true
    }

    fn get_defaults(settings: &mut DataObj)
        ensures
            Self::on_get_defaults(*old(settings), *final(settings)),
    ;
}

/// Told to pause or to go on playing.
pub trait MediaPlayPauseSource: Sized {
    /// What one call of `play_pause` may do: `pre` is the instance before the
    /// call and `post` after it.
    open spec fn on_play_pause(pre: Self, pause: bool, post: Self) -> bool {
        true
    }

    fn play_pause(&mut self, pause: bool)
        ensures
            Self::on_play_pause(*old(self), pause, *final(self)),
    ;
}

/// Told to play from the start.
pub trait MediaRestartSource: Sized {
    /// What one call of `restart` may do: `pre` is the instance before the call
    /// and `post` after it.
    open spec fn on_restart(pre: Self, post: Self) -> bool {
        true
    }

    fn restart(&mut self)
        ensures
            Self::on_restart(*old(self), *final(self)),
    ;
}

/// Told to stop playing.
pub trait MediaStopSource: Sized {
    /// What one call of `stop` may do: `pre` is the instance before the call
    /// and `post` after it.
    open spec fn on_stop(pre: Self, post: Self) -> bool {
        true
    }

    fn stop(&mut self)
        ensures
            Self::on_stop(*old(self), *final(self)),
    ;
}

/// Told to go to the next item.
pub trait MediaNextSource: Sized {
    /// What one call of `next` may do: `pre` is the instance before the call
    /// and `post` after it.
    open spec fn on_next(pre: Self, post: Self) -> bool {
        true
    }

    fn next(&mut self)
        ensures
            Self::on_next(*old(self), *final(self)),
    ;
}

/// Told to go to the previous item.
pub trait MediaPreviousSource: Sized {
    /// What one call of `previous` may do: `pre` is the instance before the
    /// call and `post` after it.
    open spec fn on_previous(pre: Self, post: Self) -> bool {
        true
    }

    fn previous(&mut self)
        ensures
            Self::on_previous(*old(self), *final(self)),
    ;
}

/// Asked for the length of the media in milliseconds.
pub trait MediaGetDurationSource: Sized {
    /// What one call of `get_duration` may do: `pre` is the instance before the
    /// call and `post` after it, `result` is what it returned.
    open spec fn on_get_duration(pre: Self, post: Self, result: i64) -> bool {
        true
    }

    fn get_duration(&mut self) -> (result: i64)
        ensures
            Self::on_get_duration(*old(self), *final(self), result),
    ;
}

/// Asked for the position in the media in milliseconds.
pub trait MediaGetTimeSource: Sized {
    /// What one call of `get_time` may do: `pre` is the instance before the
    /// call and `post` after it, `result` is what it returned.
    open spec fn on_get_time(pre: Self, post: Self, result: i64) -> bool {
        true
    }

    fn get_time(&mut self) -> (result: i64)
        ensures
            Self::on_get_time(*old(self), *final(self), result),
    ;
}

/// Told to seek to a position in milliseconds.
pub trait MediaSetTimeSource: Sized {
    /// What one call of `set_time` may do: `pre` is the instance before the
    /// call and `post` after it.
    open spec fn on_set_time(pre: Self, milliseconds: i64, post: Self) -> bool {
        true
    }

    fn set_time(&mut self, milliseconds: i64)
        ensures
            Self::on_set_time(*old(self), milliseconds, *final(self)),
    ;
}

/// Asked what the media is doing.
pub trait MediaGetStateSource: Sized {
    /// What one call of `get_state` may do: `pre` is the instance before the
    /// call and `post` after it, `result` is what it returned.
    open spec fn on_get_state(pre: Self, post: Self, result: MediaState) -> bool {
        true
    }

    fn get_state(&mut self) -> (result: MediaState)
        ensures
            Self::on_get_state(*old(self), *final(self), result),
    ;
}

/// Told that the wheel was turned over the instance.
pub trait MouseWheelSource: Sized {
    /// What one call of `mouse_wheel` may do: `pre` is the instance before the
    /// call and `post` after it.
    open spec fn on_mouse_wheel(
        pre: Self,
        event: MouseEvent,
        xdelta: i32,
        ydelta: i32,
        post: Self,
    ) -> bool {
        true
    }

    fn mouse_wheel(&mut self, event: MouseEvent, xdelta: i32, ydelta: i32)
        ensures
            Self::on_mouse_wheel(*old(self), event, xdelta, ydelta, *final(self)),
    ;
}

/// Told that a mouse button went down or up over the instance.
pub trait MouseClickSource: Sized {
    /// What one call of `mouse_click` may do: `pre` is the instance before the
    /// call and `post` after it.
    open spec fn on_mouse_click(
        pre: Self,
        event: MouseEvent,
        button: MouseButton,
        pressed: bool,
        click_count: u8,
        post: Self,
    ) -> bool {
        true
    }

    fn mouse_click(&mut self, event: MouseEvent, button: MouseButton, pressed: bool, click_count: u8)
        ensures
            Self::on_mouse_click(*old(self), event, button, pressed, click_count, *final(self)),
    ;
}

/// Told that the pointer moved over the instance or left it.
pub trait MouseMoveSource: Sized {
    /// What one call of `mouse_move` may do: `pre` is the instance before the
    /// call and `post` after it.
    open spec fn on_mouse_move(pre: Self, event: MouseEvent, leave: bool, post: Self) -> bool {
        true
    }

    fn mouse_move(&mut self, event: MouseEvent, leave: bool)
        ensures
            Self::on_mouse_move(*old(self), event, leave, *final(self)),
    ;
}

/// Told that a key went down or up while the instance had the focus.
pub trait KeyClickSource: Sized {
    /// What one call of `key_click` may do: `pre` is the instance before the
    /// call and `post` after it.
    open spec fn on_key_click(pre: Self, event: KeyEvent, pressed: bool, post: Self) -> bool {
        true
    }

    fn key_click(&mut self, event: KeyEvent, pressed: bool)
        ensures
            Self::on_key_click(*old(self), event, pressed, *final(self)),
    ;
}

/// Told that the instance gained or lost the focus.
pub trait FocusSource: Sized {
    /// What one call of `focus` may do: `pre` is the instance before the call
    /// and `post` after it.
    open spec fn on_focus(pre: Self, focused: bool, post: Self) -> bool {
        true
    }

    fn focus(&mut self, focused: bool)
        ensures
            Self::on_focus(*old(self), focused, *final(self)),
    ;
}


} // verus!
