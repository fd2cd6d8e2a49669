//! The trampolines: what the host calls, each turned into one call of the
//! unit's method on the instance that the host names by its handle.
//!
//! A trampoline borrows the instance, never owns it. A call with a handle
//! that names no running instance makes no call and changes nothing.

use vstd::prelude::*;

use super::context::{CreatableSourceContext, GlobalContext, VideoRenderContext};
use super::traits::{
    ActivateSource,
    AudioRenderSource,
    DeactivateSource,
    EnumActiveSource,
    EnumAllSource,
    FilterAudioSource,
    FilterVideoSource,
    FocusSource,
    GetDefaultsSource,
    GetHeightSource,
    GetNameSource,
    GetPropertiesSource,
    GetWidthSource,
    KeyClickSource,
    MediaGetDurationSource,
    MediaGetStateSource,
    MediaGetTimeSource,
    MediaNextSource,
    MediaPlayPauseSource,
    MediaPreviousSource,
    MediaRestartSource,
    MediaSetTimeSource,
    MediaStopSource,
    MouseClickSource,
    MouseMoveSource,
    MouseWheelSource,
    Sourceable,
    TransitionStartSource,
    TransitionStopSource,
    UpdateSource,
    VideoRenderSource,
    VideoTickSource,
};
use super::{EnumActiveContext, EnumAllContext, KeyEvent, MouseButton, MouseEvent, SourceRef};
use crate::data::{DataObj, FloatBits};
use crate::hotkey::{Hotkey, HotkeyCallback};
use crate::instance::{
    instance, is_live, same_but_data, with_data, with_instance, without_instance, DataWrapper,
    InstanceTable,
};
use crate::media::{AudioDataContext, MediaState, VideoDataSourceContext};
use crate::properties::Properties;
use crate::string::ObsString;

verus! {

/// Makes an instance of `D` from `settings` for the source `source` and
/// returns its handle. The unit's `create` is called once; the state it
/// returns is kept together with the hotkeys it asked for, which wait for
/// the host to register them.
///
/// Where the table has no handle left, nothing is called and `source`
/// comes back.
pub fn create<D: Sourceable>(
    table: &mut InstanceTable<D, D::Callback>,
    settings: &DataObj,
    source: SourceRef,
) -> (r: Result<usize, SourceRef>)
    ensures
        r is Ok <==> old(table)@.len() < usize::MAX,
        r matches Err(s) ==> s == source && final(table)@ == old(table)@,
        r matches Ok(handle) ==> {
            &&& handle == old(table)@.len() + 1
            &&& is_live(final(table)@, handle)
            &&& final(table)@ == old(table)@.push(Some(instance(final(table)@, handle)))
            &&& instance(final(table)@, handle).hotkeys == Map::<u64, D::Callback>::empty()
            &&& D::on_create(
                *settings,
                source,
                instance(final(table)@, handle).queued,
                instance(final(table)@, handle).data,
            )
        },
{
    if table.is_full() {
        return Err(source);
    }
    let mut context = CreatableSourceContext::from_raw(settings);
    let data = D::create(&mut context, source);
    let wrapper = DataWrapper::new(data, context.into_callbacks());
    let handle = table.insert(wrapper);
    Ok(handle)
}

/// Ends the instance that `data` names and drops its state. This is the
/// one place where an instance ends: the handle is dead from then on, and
/// a second call with it finds nothing to end.
pub fn destroy<D, C>(table: &mut InstanceTable<D, C>, data: usize) -> (destroyed: bool)
    ensures
        destroyed == is_live(old(table)@, data),
        destroyed ==> final(table)@ == without_instance(old(table)@, data),
        !destroyed ==> final(table)@ == old(table)@,
        !is_live(final(table)@, data),
{
    table.remove(data).is_some()
}

/// Calls `D::get_name` and hands on what it returns.
pub fn get_name<D: GetNameSource>() -> (result: ObsString)
    ensures
        D::on_get_name(result),
{
    D::get_name()
}

/// Calls `D::get_width` on the instance that `data` names and hands on what it
/// returns.
pub fn get_width<D: GetWidthSource, C>(
    table: &mut InstanceTable<D, C>,
    data: usize,
) -> (r: Option<u32>)
    ensures
        r is Some <==> is_live(old(table)@, data),
        r matches Some(result) ==> same_but_data(old(table)@, final(table)@, data)
            && D::on_get_width(
            instance(old(table)@, data).data,
            instance(final(table)@, data).data,
            result,
        ),
        r is None ==> final(table)@ == old(table)@,
{
    if data == 0 || data > table.slots.len() {
        return None;
    }
    let r = match &mut table.slots[data - 1] {
        Some(wrapper) => Some(wrapper.data.get_width()),
        None => None,
    };
    proof {
        if r is Some {
            assert(table@ =~= with_data(old(table)@, data, instance(table@, data).data));
        } else {
            assert(table@ =~= old(table)@);
        }
    }
    r
}

/// Calls `D::get_height` on the instance that `data` names and hands on what it
/// returns.
pub fn get_height<D: GetHeightSource, C>(
    table: &mut InstanceTable<D, C>,
    data: usize,
) -> (r: Option<u32>)
    ensures
        r is Some <==> is_live(old(table)@, data),
        r matches Some(result) ==> same_but_data(old(table)@, final(table)@, data)
            && D::on_get_height(
            instance(old(table)@, data).data,
            instance(final(table)@, data).data,
            result,
        ),
        r is None ==> final(table)@ == old(table)@,
{
    if data == 0 || data > table.slots.len() {
        return None;
    }
    let r = match &mut table.slots[data - 1] {
        Some(wrapper) => Some(wrapper.data.get_height()),
        None => None,
    };
    proof {
        if r is Some {
            assert(table@ =~= with_data(old(table)@, data, instance(table@, data).data));
        } else {
            assert(table@ =~= old(table)@);
        }
    }
    r
}

/// Calls `D::activate` on the instance that `data` names.
pub fn activate<D: ActivateSource, C>(
    table: &mut InstanceTable<D, C>,
    data: usize,
) -> (called: bool)
    ensures
        called == is_live(old(table)@, data),
        called ==> same_but_data(old(table)@, final(table)@, data) && D::on_activate(
            instance(old(table)@, data).data,
            instance(final(table)@, data).data,
        ),
        !called ==> final(table)@ == old(table)@,
{
    if data == 0 || data > table.slots.len() {
        return false;
    }
    let called = match &mut table.slots[data - 1] {
        Some(wrapper) => {
            wrapper.data.activate();
            true
        },
        None => false,
    };
    proof {
        if called {
            assert(table@ =~= with_data(old(table)@, data, instance(table@, data).data));
        } else {
            assert(table@ =~= old(table)@);
        }
    }
    called
}

/// Calls `D::deactivate` on the instance that `data` names.
pub fn deactivate<D: DeactivateSource, C>(
    table: &mut InstanceTable<D, C>,
    data: usize,
) -> (called: bool)
    ensures
        called == is_live(old(table)@, data),
        called ==> same_but_data(old(table)@, final(table)@, data) && D::on_deactivate(
            instance(old(table)@, data).data,
            instance(final(table)@, data).data,
        ),
        !called ==> final(table)@ == old(table)@,
{
    if data == 0 || data > table.slots.len() {
        return false;
    }
    let called = match &mut table.slots[data - 1] {
        Some(wrapper) => {
            wrapper.data.deactivate();
            true
        },
        None => false,
    };
    proof {
        if called {
            assert(table@ =~= with_data(old(table)@, data, instance(table@, data).data));
        } else {
            assert(table@ =~= old(table)@);
        }
    }
    called
}

/// Calls `D::update` on the instance that `data` names.
pub fn update<D: UpdateSource, C>(
    table: &mut InstanceTable<D, C>,
    data: usize,
    settings: &mut DataObj,
) -> (called: bool)
    ensures
        called == is_live(old(table)@, data),
        called ==> same_but_data(old(table)@, final(table)@, data) && D::on_update(
            instance(old(table)@, data).data,
            *old(settings),
            instance(final(table)@, data).data,
            *final(settings),
        ),
        !called ==> final(table)@ == old(table)@ && *final(settings) == *old(settings),
{
    if data == 0 || data > table.slots.len() {
        return false;
    }
    let called = match &mut table.slots[data - 1] {
        Some(wrapper) => {
            let mut context = GlobalContext;
            wrapper.data.update(settings, &mut context);
            true
        },
        None => false,
    };
    proof {
        if called {
            assert(table@ =~= with_data(old(table)@, data, instance(table@, data).data));
        } else {
            assert(table@ =~= old(table)@);
        }
    }
    called
}

/// Calls `D::video_render` on the instance that `data` names.
pub fn video_render<D: VideoRenderSource, C>(
    table: &mut InstanceTable<D, C>,
    data: usize,
) -> (called: bool)
    ensures
        called == is_live(old(table)@, data),
        called ==> same_but_data(old(table)@, final(table)@, data) && D::on_video_render(
            instance(old(table)@, data).data,
            instance(final(table)@, data).data,
        ),
        !called ==> final(table)@ == old(table)@,
{
    if data == 0 || data > table.slots.len() {
        return false;
    }
    let called = match &mut table.slots[data - 1] {
        Some(wrapper) => {
            let mut context = GlobalContext;
            let mut render = VideoRenderContext;
            wrapper.data.video_render(&mut context, &mut render);
            true
        },
        None => false,
    };
    proof {
        if called {
            assert(table@ =~= with_data(old(table)@, data, instance(table@, data).data));
        } else {
            assert(table@ =~= old(table)@);
        }
    }
    called
}

/// Calls `D::get_properties` on the instance that `data` names and hands on
/// what it returns.
pub fn get_properties<D: GetPropertiesSource, C>(
    table: &mut InstanceTable<D, C>,
    data: usize,
) -> (r: Option<Properties>)
    ensures
        r is Some <==> is_live(old(table)@, data),
        r matches Some(result) ==> same_but_data(old(table)@, final(table)@, data)
            && D::on_get_properties(
            instance(old(table)@, data).data,
            instance(final(table)@, data).data,
            result,
        ),
        r is None ==> final(table)@ == old(table)@,
{
    if data == 0 || data > table.slots.len() {
        return None;
    }
    let r = match &mut table.slots[data - 1] {
        Some(wrapper) => Some(wrapper.data.get_properties()),
        None => None,
    };
    proof {
        if r is Some {
            assert(table@ =~= with_data(old(table)@, data, instance(table@, data).data));
        } else {
            assert(table@ =~= old(table)@);
        }
    }
    r
}

/// Calls `D::enum_active_sources` on the instance that `data` names.
pub fn enum_active_sources<D: EnumActiveSource, C>(
    table: &mut InstanceTable<D, C>,
    data: usize,
) -> (called: bool)
    ensures
        called == is_live(old(table)@, data),
        called ==> same_but_data(old(table)@, final(table)@, data) && D::on_enum_active_sources(
            instance(old(table)@, data).data,
            instance(final(table)@, data).data,
        ),
        !called ==> final(table)@ == old(table)@,
{
    if data == 0 || data > table.slots.len() {
        return false;
    }
    let called = match &mut table.slots[data - 1] {
        Some(wrapper) => {
            let context = EnumActiveContext {  };
            wrapper.data.enum_active_sources(&context);
            true
        },
        None => false,
    };
    proof {
        if called {
            assert(table@ =~= with_data(old(table)@, data, instance(table@, data).data));
        } else {
            assert(table@ =~= old(table)@);
        }
    }
    called
}

/// Calls `D::enum_all_sources` on the instance that `data` names.
pub fn enum_all_sources<D: EnumAllSource, C>(
    table: &mut InstanceTable<D, C>,
    data: usize,
) -> (called: bool)
    ensures
        called == is_live(old(table)@, data),
        called ==> same_but_data(old(table)@, final(table)@, data) && D::on_enum_all_sources(
            instance(old(table)@, data).data,
            instance(final(table)@, data).data,
        ),
        !called ==> final(table)@ == old(table)@,
{
    if data == 0 || data > table.slots.len() {
        return false;
    }
    let called = match &mut table.slots[data - 1] {
        Some(wrapper) => {
            let context = EnumAllContext {  };
            wrapper.data.enum_all_sources(&context);
            true
        },
        None => false,
    };
    proof {
        if called {
            assert(table@ =~= with_data(old(table)@, data, instance(table@, data).data));
        } else {
            assert(table@ =~= old(table)@);
        }
    }
    called
}

/// Calls `D::transition_start` on the instance that `data` names.
pub fn transition_start<D: TransitionStartSource, C>(
    table: &mut InstanceTable<D, C>,
    data: usize,
) -> (called: bool)
    ensures
        called == is_live(old(table)@, data),
        called ==> same_but_data(old(table)@, final(table)@, data) && D::on_transition_start(
            instance(old(table)@, data).data,
            instance(final(table)@, data).data,
        ),
        !called ==> final(table)@ == old(table)@,
{
    if data == 0 || data > table.slots.len() {
        return false;
    }
    let called = match &mut table.slots[data - 1] {
        Some(wrapper) => {
            wrapper.data.transition_start();
            true
        },
        None => false,
    };
    proof {
        if called {
            assert(table@ =~= with_data(old(table)@, data, instance(table@, data).data));
        } else {
            assert(table@ =~= old(table)@);
        }
    }
    called
}

/// Calls `D::transition_stop` on the instance that `data` names.
pub fn transition_stop<D: TransitionStopSource, C>(
    table: &mut InstanceTable<D, C>,
    data: usize,
) -> (called: bool)
    ensures
        called == is_live(old(table)@, data),
        called ==> same_but_data(old(table)@, final(table)@, data) && D::on_transition_stop(
            instance(old(table)@, data).data,
            instance(final(table)@, data).data,
        ),
        !called ==> final(table)@ == old(table)@,
{
    if data == 0 || data > table.slots.len() {
        return false;
    }
    let called = match &mut table.slots[data - 1] {
        Some(wrapper) => {
            wrapper.data.transition_stop();
            true
        },
        None => false,
    };
    proof {
        if called {
            assert(table@ =~= with_data(old(table)@, data, instance(table@, data).data));
        } else {
            assert(table@ =~= old(table)@);
        }
    }
    called
}

/// Calls `D::video_tick` on the instance that `data` names.
pub fn video_tick<D: VideoTickSource, C>(
    table: &mut InstanceTable<D, C>,
    data: usize,
    seconds: FloatBits,
) -> (called: bool)
    ensures
        called == is_live(old(table)@, data),
        called ==> same_but_data(old(table)@, final(table)@, data) && D::on_video_tick(
            instance(old(table)@, data).data,
            seconds,
            instance(final(table)@, data).data,
        ),
        !called ==> final(table)@ == old(table)@,
{
    if data == 0 || data > table.slots.len() {
        return false;
    }
    let called = match &mut table.slots[data - 1] {
        Some(wrapper) => {
            wrapper.data.video_tick(seconds);
            true
        },
        None => false,
    };
    proof {
        if called {
            assert(table@ =~= with_data(old(table)@, data, instance(table@, data).data));
        } else {
            assert(table@ =~= old(table)@);
        }
    }
    called
}

/// Calls `D::filter_audio` on the instance that `data` names.
pub fn filter_audio<D: FilterAudioSource, C>(
    table: &mut InstanceTable<D, C>,
    data: usize,
    audio: &mut AudioDataContext,
) -> (called: bool)
    ensures
        called == is_live(old(table)@, data),
        called ==> same_but_data(old(table)@, final(table)@, data) && D::on_filter_audio(
            instance(old(table)@, data).data,
            *old(audio),
            instance(final(table)@, data).data,
            *final(audio),
        ),
        !called ==> final(table)@ == old(table)@ && *final(audio) == *old(audio),
{
    if data == 0 || data > table.slots.len() {
        return false;
    }
    let called = match &mut table.slots[data - 1] {
        Some(wrapper) => {
            wrapper.data.filter_audio(audio);
            true
        },
        None => false,
    };
    proof {
        if called {
            assert(table@ =~= with_data(old(table)@, data, instance(table@, data).data));
        } else {
            assert(table@ =~= old(table)@);
        }
    }
    called
}

/// Calls `D::filter_video` on the instance that `data` names.
pub fn filter_video<D: FilterVideoSource, C>(
    table: &mut InstanceTable<D, C>,
    data: usize,
    video: &mut VideoDataSourceContext,
) -> (called: bool)
    ensures
        called == is_live(old(table)@, data),
        called ==> same_but_data(old(table)@, final(table)@, data) && D::on_filter_video(
            instance(old(table)@, data).data,
            *old(video),
            instance(final(table)@, data).data,
            *final(video),
        ),
        !called ==> final(table)@ == old(table)@ && *final(video) == *old(video),
{
    if data == 0 || data > table.slots.len() {
        return false;
    }
    let called = match &mut table.slots[data - 1] {
        Some(wrapper) => {
            wrapper.data.filter_video(video);
            true
        },
        None => false,
    };
    proof {
        if called {
            assert(table@ =~= with_data(old(table)@, data, instance(table@, data).data));
        } else {
            assert(table@ =~= old(table)@);
        }
    }
    called
}

/// Calls `D::get_defaults` on what the host hands over.
pub fn get_defaults<D: GetDefaultsSource>(settings: &mut DataObj)
    ensures
        D::on_get_defaults(*old(settings), *final(settings)),
{
    D::get_defaults(settings);
}

/// Calls `D::play_pause` on the instance that `data` names.
pub fn media_play_pause<D: MediaPlayPauseSource, C>(
    table: &mut InstanceTable<D, C>,
    data: usize,
    pause: bool,
) -> (called: bool)
    ensures
        called == is_live(old(table)@, data),
        called ==> same_but_data(old(table)@, final(table)@, data) && D::on_play_pause(
            instance(old(table)@, data).data,
            pause,
            instance(final(table)@, data).data,
        ),
        !called ==> final(table)@ == old(table)@,
{
    if data == 0 || data > table.slots.len() {
        return false;
    }
    let called = match &mut table.slots[data - 1] {
        Some(wrapper) => {
            wrapper.data.play_pause(pause);
            true
        },
        None => false,
    };
    proof {
        if called {
            assert(table@ =~= with_data(old(table)@, data, instance(table@, data).data));
        } else {
            assert(table@ =~= old(table)@);
        }
    }
    called
}

/// Calls `D::restart` on the instance that `data` names.
pub fn media_restart<D: MediaRestartSource, C>(
    table: &mut InstanceTable<D, C>,
    data: usize,
) -> (called: bool)
    ensures
        called == is_live(old(table)@, data),
        called ==> same_but_data(old(table)@, final(table)@, data) && D::on_restart(
            instance(old(table)@, data).data,
            instance(final(table)@, data).data,
        ),
        !called ==> final(table)@ == old(table)@,
{
    if data == 0 || data > table.slots.len() {
        return false;
    }
    let called = match &mut table.slots[data - 1] {
        Some(wrapper) => {
            wrapper.data.restart();
            true
        },
        None => false,
    };
    proof {
        if called {
            assert(table@ =~= with_data(old(table)@, data, instance(table@, data).data));
        } else {
            assert(table@ =~= old(table)@);
        }
    }
    called
}

/// Calls `D::stop` on the instance that `data` names.
pub fn media_stop<D: MediaStopSource, C>(
    table: &mut InstanceTable<D, C>,
    data: usize,
) -> (called: bool)
    ensures
        called == is_live(old(table)@, data),
        called ==> same_but_data(old(table)@, final(table)@, data) && D::on_stop(
            instance(old(table)@, data).data,
            instance(final(table)@, data).data,
        ),
        !called ==> final(table)@ == old(table)@,
{
    if data == 0 || data > table.slots.len() {
        return false;
    }
    let called = match &mut table.slots[data - 1] {
        Some(wrapper) => {
            wrapper.data.stop();
            true
        },
        None => false,
    };
    proof {
        if called {
            assert(table@ =~= with_data(old(table)@, data, instance(table@, data).data));
        } else {
            assert(table@ =~= old(table)@);
        }
    }
    called
}

/// Calls `D::next` on the instance that `data` names.
pub fn media_next<D: MediaNextSource, C>(
    table: &mut InstanceTable<D, C>,
    data: usize,
) -> (called: bool)
    ensures
        called == is_live(old(table)@, data),
        called ==> same_but_data(old(table)@, final(table)@, data) && D::on_next(
            instance(old(table)@, data).data,
            instance(final(table)@, data).data,
        ),
        !called ==> final(table)@ == old(table)@,
{
    if data == 0 || data > table.slots.len() {
        return false;
    }
    let called = match &mut table.slots[data - 1] {
        Some(wrapper) => {
            wrapper.data.next();
            true
        },
        None => false,
    };
    proof {
        if called {
            assert(table@ =~= with_data(old(table)@, data, instance(table@, data).data));
        } else {
            assert(table@ =~= old(table)@);
        }
    }
    called
}

/// Calls `D::previous` on the instance that `data` names.
pub fn media_previous<D: MediaPreviousSource, C>(
    table: &mut InstanceTable<D, C>,
    data: usize,
) -> (called: bool)
    ensures
        called == is_live(old(table)@, data),
        called ==> same_but_data(old(table)@, final(table)@, data) && D::on_previous(
            instance(old(table)@, data).data,
            instance(final(table)@, data).data,
        ),
        !called ==> final(table)@ == old(table)@,
{
    if data == 0 || data > table.slots.len() {
        return false;
    }
    let called = match &mut table.slots[data - 1] {
        Some(wrapper) => {
            wrapper.data.previous();
            true
        },
        None => false,
    };
    proof {
        if called {
            assert(table@ =~= with_data(old(table)@, data, instance(table@, data).data));
        } else {
            assert(table@ =~= old(table)@);
        }
    }
    called
}

/// Calls `D::get_duration` on the instance that `data` names and hands on what
/// it returns.
pub fn media_get_duration<D: MediaGetDurationSource, C>(
    table: &mut InstanceTable<D, C>,
    data: usize,
) -> (r: Option<i64>)
    ensures
        r is Some <==> is_live(old(table)@, data),
        r matches Some(result) ==> same_but_data(old(table)@, final(table)@, data)
            && D::on_get_duration(
            instance(old(table)@, data).data,
            instance(final(table)@, data).data,
            result,
        ),
        r is None ==> final(table)@ == old(table)@,
{
    if data == 0 || data > table.slots.len() {
        return None;
    }
    let r = match &mut table.slots[data - 1] {
        Some(wrapper) => Some(wrapper.data.get_duration()),
        None => None,
    };
    proof {
        if r is Some {
            assert(table@ =~= with_data(old(table)@, data, instance(table@, data).data));
        } else {
            assert(table@ =~= old(table)@);
        }
    }
    r
}

/// Calls `D::get_time` on the instance that `data` names and hands on what it
/// returns.
pub fn media_get_time<D: MediaGetTimeSource, C>(
    table: &mut InstanceTable<D, C>,
    data: usize,
) -> (r: Option<i64>)
    ensures
        r is Some <==> is_live(old(table)@, data),
        r matches Some(result) ==> same_but_data(old(table)@, final(table)@, data)
            && D::on_get_time(
            instance(old(table)@, data).data,
            instance(final(table)@, data).data,
            result,
        ),
        r is None ==> final(table)@ == old(table)@,
{
    if data == 0 || data > table.slots.len() {
        return None;
    }
    let r = match &mut table.slots[data - 1] {
        Some(wrapper) => Some(wrapper.data.get_time()),
        None => None,
    };
    proof {
        if r is Some {
            assert(table@ =~= with_data(old(table)@, data, instance(table@, data).data));
        } else {
            assert(table@ =~= old(table)@);
        }
    }
    r
}

/// Calls `D::set_time` on the instance that `data` names.
pub fn media_set_time<D: MediaSetTimeSource, C>(
    table: &mut InstanceTable<D, C>,
    data: usize,
    milliseconds: i64,
) -> (called: bool)
    ensures
        called == is_live(old(table)@, data),
        called ==> same_but_data(old(table)@, final(table)@, data) && D::on_set_time(
            instance(old(table)@, data).data,
            milliseconds,
            instance(final(table)@, data).data,
        ),
        !called ==> final(table)@ == old(table)@,
{
    if data == 0 || data > table.slots.len() {
        return false;
    }
    let called = match &mut table.slots[data - 1] {
        Some(wrapper) => {
            wrapper.data.set_time(milliseconds);
            true
        },
        None => false,
    };
    proof {
        if called {
            assert(table@ =~= with_data(old(table)@, data, instance(table@, data).data));
        } else {
            assert(table@ =~= old(table)@);
        }
    }
    called
}

/// Calls `D::mouse_wheel` on the instance that `data` names.
pub fn mouse_wheel<D: MouseWheelSource, C>(
    table: &mut InstanceTable<D, C>,
    data: usize,
    event: MouseEvent,
    xdelta: i32,
    ydelta: i32,
) -> (called: bool)
    ensures
        called == is_live(old(table)@, data),
        called ==> same_but_data(old(table)@, final(table)@, data) && D::on_mouse_wheel(
            instance(old(table)@, data).data,
            event,
            xdelta,
            ydelta,
            instance(final(table)@, data).data,
        ),
        !called ==> final(table)@ == old(table)@,
{
    if data == 0 || data > table.slots.len() {
        return false;
    }
    let called = match &mut table.slots[data - 1] {
        Some(wrapper) => {
            wrapper.data.mouse_wheel(event, xdelta, ydelta);
            true
        },
        None => false,
    };
    proof {
        if called {
            assert(table@ =~= with_data(old(table)@, data, instance(table@, data).data));
        } else {
            assert(table@ =~= old(table)@);
        }
    }
    called
}

/// Calls `D::mouse_move` on the instance that `data` names.
pub fn mouse_move<D: MouseMoveSource, C>(
    table: &mut InstanceTable<D, C>,
    data: usize,
    event: MouseEvent,
    leave: bool,
) -> (called: bool)
    ensures
        called == is_live(old(table)@, data),
        called ==> same_but_data(old(table)@, final(table)@, data) && D::on_mouse_move(
            instance(old(table)@, data).data,
            event,
            leave,
            instance(final(table)@, data).data,
        ),
        !called ==> final(table)@ == old(table)@,
{
    if data == 0 || data > table.slots.len() {
        return false;
    }
    let called = match &mut table.slots[data - 1] {
        Some(wrapper) => {
            wrapper.data.mouse_move(event, leave);
            true
        },
        None => false,
    };
    proof {
        if called {
            assert(table@ =~= with_data(old(table)@, data, instance(table@, data).data));
        } else {
            assert(table@ =~= old(table)@);
        }
    }
    called
}

/// Calls `D::focus` on the instance that `data` names.
pub fn focus<D: FocusSource, C>(
    table: &mut InstanceTable<D, C>,
    data: usize,
    focused: bool,
) -> (called: bool)
    ensures
        called == is_live(old(table)@, data),
        called ==> same_but_data(old(table)@, final(table)@, data) && D::on_focus(
            instance(old(table)@, data).data,
            focused,
            instance(final(table)@, data).data,
        ),
        !called ==> final(table)@ == old(table)@,
{
    if data == 0 || data > table.slots.len() {
        return false;
    }
    let called = match &mut table.slots[data - 1] {
        Some(wrapper) => {
            wrapper.data.focus(focused);
            true
        },
        None => false,
    };
    proof {
        if called {
            assert(table@ =~= with_data(old(table)@, data, instance(table@, data).data));
        } else {
            assert(table@ =~= old(table)@);
        }
    }
    called
}


/// Calls `D::audio_render` on the instance that `data` names. What comes
/// back is also what the host is told of the mix: `true` where the call
/// was made.
pub fn audio_render<D: AudioRenderSource, C>(table: &mut InstanceTable<D, C>, data: usize) -> (called:
    bool)
    ensures
        called == is_live(old(table)@, data),
        called ==> same_but_data(old(table)@, final(table)@, data) && D::on_audio_render(
            instance(old(table)@, data).data,
            instance(final(table)@, data).data,
        ),
        !called ==> final(table)@ == old(table)@,
{
    if data == 0 || data > table.slots.len() {
        return false;
    }
    let called = match &mut table.slots[data - 1] {
        Some(wrapper) => {
            let mut context = GlobalContext;
            wrapper.data.audio_render(&mut context);
            true
        },
        None => false,
    };
    proof {
        if called {
            assert(table@ =~= with_data(old(table)@, data, instance(table@, data).data));
        } else {
            assert(table@ =~= old(table)@);
        }
    }
    called
}

/// Calls `D::get_state` on the instance that `data` names and hands on the
/// host's number for the state that it returns.
pub fn media_get_state<D: MediaGetStateSource, C>(table: &mut InstanceTable<D, C>, data: usize) -> (r:
    Option<u32>)
    ensures
        r is Some <==> is_live(old(table)@, data),
        r matches Some(native) ==> same_but_data(old(table)@, final(table)@, data) && exists|
            state: MediaState,
        |
            state.native() == native && #[trigger] D::on_get_state(
                instance(old(table)@, data).data,
                instance(final(table)@, data).data,
                state,
            ),
        r is None ==> final(table)@ == old(table)@,
{
    if data == 0 || data > table.slots.len() {
        return None;
    }
    let state = match &mut table.slots[data - 1] {
        Some(wrapper) => Some(wrapper.data.get_state()),
        None => None,
    };
    proof {
        if state is Some {
            assert(table@ =~= with_data(old(table)@, data, instance(table@, data).data));
        } else {
            assert(table@ =~= old(table)@);
        }
    }
    match state {
        Some(state) => {
            assert(D::on_get_state(
                instance(old(table)@, data).data,
                instance(table@, data).data,
                state,
            ));
            Some(state.to_native())
        },
        None => None,
    }
}

/// The button that the host numbers `type_`, if it numbers one so.
pub open spec fn button_of(type_: i32) -> Option<MouseButton> {
    if type_ < 0 {
        None
    } else {
        MouseButton::of_native(type_ as u32)
    }
}

/// Calls `D::mouse_click` on the instance that `data` names: with the
/// button that the host numbers `type_`, with `pressed` set where the
/// button went down, and with the low eight bits of `click_count`. No call
/// is made where `type_` numbers no button.
pub fn mouse_click<D: MouseClickSource, C>(
    table: &mut InstanceTable<D, C>,
    data: usize,
    event: MouseEvent,
    type_: i32,
    mouse_up: bool,
    click_count: u32,
) -> (called: bool)
    ensures
        called == (is_live(old(table)@, data) && button_of(type_) is Some),
        called ==> same_but_data(old(table)@, final(table)@, data) && D::on_mouse_click(
            instance(old(table)@, data).data,
            event,
            button_of(type_)->0,
            !mouse_up,
            (click_count & 0xff) as u8,
            instance(final(table)@, data).data,
        ),
        !called ==> final(table)@ == old(table)@,
{
    if type_ < 0 || data == 0 || data > table.slots.len() {
        return false;
    }
    let button = match MouseButton::from_raw(type_ as u32) {
        Ok(button) => button,
        Err(_) => {
            return false;
        },
    };
    let masked = click_count & 0xff;
    assert(masked <= 0xff) by (bit_vector)
        requires
            masked == click_count & 0xff,
    ;
    let called = match &mut table.slots[data - 1] {
        Some(wrapper) => {
            wrapper.data.mouse_click(event, button, !mouse_up, masked as u8);
            true
        },
        None => false,
    };
    proof {
        if called {
            assert(table@ =~= with_data(old(table)@, data, instance(table@, data).data));
        } else {
            assert(table@ =~= old(table)@);
        }
    }
    called
}

/// Calls `D::key_click` on the instance that `data` names, with `pressed`
/// set where the key went down.
pub fn key_click<D: KeyClickSource, C>(
    table: &mut InstanceTable<D, C>,
    data: usize,
    event: KeyEvent,
    key_up: bool,
) -> (called: bool)
    ensures
        called == is_live(old(table)@, data),
        called ==> same_but_data(old(table)@, final(table)@, data) && D::on_key_click(
            instance(old(table)@, data).data,
            event,
            !key_up,
            instance(final(table)@, data).data,
        ),
        !called ==> final(table)@ == old(table)@,
{
    if data == 0 || data > table.slots.len() {
        return false;
    }
    let called = match &mut table.slots[data - 1] {
        Some(wrapper) => {
            wrapper.data.key_click(event, !key_up);
            true
        },
        None => false,
    };
    proof {
        if called {
            assert(table@ =~= with_data(old(table)@, data, instance(table@, data).data));
        } else {
            assert(table@ =~= old(table)@);
        }
    }
    called
}

/// Fires the hotkey that the host registered under `id` for the instance
/// that `data` names: the callback stored under `id` is called once, with
/// the hotkey and the state of that instance. An id that the instance has
/// no callback for does nothing.
pub fn hotkey_callback<D, C: HotkeyCallback<D>>(
    table: &mut InstanceTable<D, C>,
    data: usize,
    id: u64,
    pressed: bool,
) -> (fired: bool)
    ensures
        fired == (is_live(old(table)@, data) && instance(old(table)@, data).hotkeys.contains_key(
            id,
        )),
        !fired ==> final(table)@ == old(table)@,
        fired ==> {
            let before = instance(old(table)@, data);
            let after = instance(final(table)@, data);
            &&& final(table)@ == with_instance(old(table)@, data, after)
            &&& after.queued == before.queued
            &&& after.hotkeys == before.hotkeys.insert(id, after.hotkeys[id])
            &&& C::fired(
                before.hotkeys[id],
                Hotkey { id, pressed },
                before.data,
                after.hotkeys[id],
                after.data,
            )
        },
{
    if data == 0 || data > table.slots.len() {
        return false;
    }
    let mut key = Hotkey::from_raw(id, pressed);
    let fired = match &mut table.slots[data - 1] {
        Some(wrapper) => wrapper.fire(&mut key),
        None => false,
    };
    proof {
        if fired {
            assert(table@ =~= with_instance(old(table)@, data, instance(table@, data)));
        } else {
            assert(table@ =~= old(table)@);
        }
    }
    fired
}

} // verus!
