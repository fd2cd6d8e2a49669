//! The trampolines for outputs: what the host calls, each turned into one
//! call of the output's method on the instance that the host names by its
//! handle.

use vstd::prelude::*;

use super::context::{CreatableOutputContext, OutputRef};
use super::traits::{
    EncodedPacketOutput,
    GetCongestionOutput,
    GetConnectTimeMsOutput,
    GetDefaultsOutput,
    GetDroppedFramesOutput,
    GetNameOutput,
    GetPropertiesOutput,
    GetTotalBytesOutput,
    Outputable,
    RawAudio2Output,
    RawAudioOutput,
    RawVideoOutput,
    UpdateOutput,
};
use super::EncoderPacket;
use crate::data::{DataObj, FloatBits};
use crate::hotkey::{Hotkey, HotkeyCallback};
use crate::instance::{
    instance, is_live, same_but_data, with_data, with_instance, without_instance, DataWrapper,
    InstanceTable,
};
use crate::media::{AudioDataContext, VideoDataOutputContext};
use crate::properties::Properties;
use crate::string::ObsString;

verus! {

/// Makes an instance of `D` from `settings` for the output `output` and
/// returns its handle. The output's `create` is called once; the state it
/// returns is kept together with the hotkeys it asked for, which wait for
/// the host to register them.
///
/// Where the table has no handle left, nothing is called and `output`
/// comes back.
pub fn create<D: Outputable>(
    table: &mut InstanceTable<D, D::Callback>,
    settings: &DataObj,
    output: OutputRef,
) -> (r: Result<usize, OutputRef>)
    ensures
        r is Ok <==> old(table)@.len() < usize::MAX,
        r matches Err(o) ==> o == output && final(table)@ == old(table)@,
        r matches Ok(handle) ==> {
            &&& handle == old(table)@.len() + 1
            &&& is_live(final(table)@, handle)
            &&& final(table)@ == old(table)@.push(Some(instance(final(table)@, handle)))
            &&& instance(final(table)@, handle).hotkeys == Map::<u64, D::Callback>::empty()
            &&& D::on_create(
                *settings,
                output,
                instance(final(table)@, handle).queued,
                instance(final(table)@, handle).data,
            )
        },
{
    if table.is_full() {
        return Err(output);
    }
    let mut context = CreatableOutputContext::from_raw(settings);
    let data = D::create(&mut context, output);
    let wrapper = DataWrapper::new(data, context.into_callbacks());
    let handle = table.insert(wrapper);
    Ok(handle)
}

/// Ends the instance that `data` names and drops its state. The handle is
/// dead from then on, and a second call with it finds nothing to end.
pub fn destroy<D, C>(table: &mut InstanceTable<D, C>, data: usize) -> (destroyed: bool)
    ensures
        destroyed == is_live(old(table)@, data),
        destroyed ==> final(table)@ == without_instance(old(table)@, data),
        !destroyed ==> final(table)@ == old(table)@,
        !is_live(final(table)@, data),
{
    table.remove(data).is_some()
}

/// Calls `D::start` on the instance that `data` names and hands on what it
/// returns.
pub fn start<D: Outputable, C>(table: &mut InstanceTable<D, C>, data: usize) -> (r: Option<bool>)
    ensures
        r is Some <==> is_live(old(table)@, data),
        r matches Some(result) ==> same_but_data(old(table)@, final(table)@, data) && D::on_start(
            instance(old(table)@, data).data,
            instance(final(table)@, data).data,
            result,
        ),
        r is None ==> final(table)@ == old(table)@,
{
    if data == 0 || data > table.slots.len() {
        return None;
    }
    let r = match &mut table.slots[data - 1] {
        Some(wrapper) => Some(wrapper.data.start()),
        None => None,
    };
    proof {
        if r is Some {
            assert(table@ =~= with_data(old(table)@, data, instance(table@, data).data));
        } else {
            assert(table@ =~= old(table)@);
        }
    }
    r
}

/// Calls `D::stop` on the instance that `data` names.
pub fn stop<D: Outputable, C>(
    table: &mut InstanceTable<D, C>,
    data: usize,
    ts: u64,
) -> (called: bool)
    ensures
        called == is_live(old(table)@, data),
        called ==> same_but_data(old(table)@, final(table)@, data) && D::on_stop(
            instance(old(table)@, data).data,
            ts,
            instance(final(table)@, data).data,
        ),
        !called ==> final(table)@ == old(table)@,
{
    if data == 0 || data > table.slots.len() {
        return false;
    }
    let called = match &mut table.slots[data - 1] {
        Some(wrapper) => {
            wrapper.data.stop(ts);
            true
        },
        None => false,
    };
    proof {
        if called {
            assert(table@ =~= with_data(old(table)@, data, instance(table@, data).data));
        } else {
            assert(table@ =~= old(table)@);
        }
    }
    called
}

/// Calls `D::get_name` and hands on what it returns.
pub fn get_name<D: GetNameOutput>() -> (result: ObsString)
    ensures
        D::on_get_name(result),
{
    D::get_name()
}

/// Calls `D::raw_video` on the instance that `data` names.
pub fn raw_video<D: RawVideoOutput, C>(
    table: &mut InstanceTable<D, C>,
    data: usize,
    frame: &mut VideoDataOutputContext,
) -> (called: bool)
    ensures
        called == is_live(old(table)@, data),
        called ==> same_but_data(old(table)@, final(table)@, data) && D::on_raw_video(
            instance(old(table)@, data).data,
            *old(frame),
            instance(final(table)@, data).data,
            *final(frame),
        ),
        !called ==> final(table)@ == old(table)@ && *final(frame) == *old(frame),
{
    if data == 0 || data > table.slots.len() {
        return false;
    }
    let called = match &mut table.slots[data - 1] {
        Some(wrapper) => {
            wrapper.data.raw_video(frame);
            true
        },
        None => false,
    };
    proof {
        if called {
            assert(table@ =~= with_data(old(table)@, data, instance(table@, data).data));
        } else {
            assert(table@ =~= old(table)@);
        }
    }
    called
}

/// Calls `D::raw_audio` on the instance that `data` names.
pub fn raw_audio<D: RawAudioOutput, C>(
    table: &mut InstanceTable<D, C>,
    data: usize,
    frame: &mut AudioDataContext,
) -> (called: bool)
    ensures
        called == is_live(old(table)@, data),
        called ==> same_but_data(old(table)@, final(table)@, data) && D::on_raw_audio(
            instance(old(table)@, data).data,
            *old(frame),
            instance(final(table)@, data).data,
            *final(frame),
        ),
        !called ==> final(table)@ == old(table)@ && *final(frame) == *old(frame),
{
    if data == 0 || data > table.slots.len() {
        return false;
    }
    let called = match &mut table.slots[data - 1] {
        Some(wrapper) => {
            wrapper.data.raw_audio(frame);
            true
        },
        None => false,
    };
    proof {
        if called {
            assert(table@ =~= with_data(old(table)@, data, instance(table@, data).data));
        } else {
            assert(table@ =~= old(table)@);
        }
    }
    called
}

/// Calls `D::raw_audio2` on the instance that `data` names.
pub fn raw_audio2<D: RawAudio2Output, C>(
    table: &mut InstanceTable<D, C>,
    data: usize,
    idx: usize,
    frame: &mut AudioDataContext,
) -> (called: bool)
    ensures
        called == is_live(old(table)@, data),
        called ==> same_but_data(old(table)@, final(table)@, data) && D::on_raw_audio2(
            instance(old(table)@, data).data,
            idx,
            *old(frame),
            instance(final(table)@, data).data,
            *final(frame),
        ),
        !called ==> final(table)@ == old(table)@ && *final(frame) == *old(frame),
{
    if data == 0 || data > table.slots.len() {
        return false;
    }
    let called = match &mut table.slots[data - 1] {
        Some(wrapper) => {
            wrapper.data.raw_audio2(idx, frame);
            true
        },
        None => false,
    };
    proof {
        if called {
            assert(table@ =~= with_data(old(table)@, data, instance(table@, data).data));
        } else {
            assert(table@ =~= old(table)@);
        }
    }
    called
}

/// Calls `D::encoded_packet` on the instance that `data` names.
pub fn encoded_packet<D: EncodedPacketOutput, C>(
    table: &mut InstanceTable<D, C>,
    data: usize,
    packet: &mut EncoderPacket,
) -> (called: bool)
    ensures
        called == is_live(old(table)@, data),
        called ==> same_but_data(old(table)@, final(table)@, data) && D::on_encoded_packet(
            instance(old(table)@, data).data,
            *old(packet),
            instance(final(table)@, data).data,
            *final(packet),
        ),
        !called ==> final(table)@ == old(table)@ && *final(packet) == *old(packet),
{
    if data == 0 || data > table.slots.len() {
        return false;
    }
    let called = match &mut table.slots[data - 1] {
        Some(wrapper) => {
            wrapper.data.encoded_packet(packet);
            true
        },
        None => false,
    };
    proof {
        if called {
            assert(table@ =~= with_data(old(table)@, data, instance(table@, data).data));
        } else {
            assert(table@ =~= old(table)@);
        }
    }
    called
}

/// Calls `D::update` on the instance that `data` names.
pub fn update<D: UpdateOutput, C>(
    table: &mut InstanceTable<D, C>,
    data: usize,
    settings: &mut DataObj,
) -> (called: bool)
    ensures
        called == is_live(old(table)@, data),
        called ==> same_but_data(old(table)@, final(table)@, data) && D::on_update(
            instance(old(table)@, data).data,
            *old(settings),
            instance(final(table)@, data).data,
            *final(settings),
        ),
        !called ==> final(table)@ == old(table)@ && *final(settings) == *old(settings),
{
    if data == 0 || data > table.slots.len() {
        return false;
    }
    let called = match &mut table.slots[data - 1] {
        Some(wrapper) => {
            wrapper.data.update(settings);
            true
        },
        None => false,
    };
    proof {
        if called {
            assert(table@ =~= with_data(old(table)@, data, instance(table@, data).data));
        } else {
            assert(table@ =~= old(table)@);
        }
    }
    called
}

/// Calls `D::get_defaults` on what the host hands over.
pub fn get_defaults<D: GetDefaultsOutput>(settings: &mut DataObj)
    ensures
        D::on_get_defaults(*old(settings), *final(settings)),
{
    D::get_defaults(settings);
}

/// Calls `D::get_properties` on the instance that `data` names and hands on
/// what it returns.
pub fn get_properties<D: GetPropertiesOutput, C>(
    table: &mut InstanceTable<D, C>,
    data: usize,
) -> (r: Option<Properties>)
    ensures
        r is Some <==> is_live(old(table)@, data),
        r matches Some(result) ==> same_but_data(old(table)@, final(table)@, data)
            && D::on_get_properties(
            instance(old(table)@, data).data,
            instance(final(table)@, data).data,
            result,
        ),
        r is None ==> final(table)@ == old(table)@,
{
    if data == 0 || data > table.slots.len() {
        return None;
    }
    let r = match &mut table.slots[data - 1] {
        Some(wrapper) => Some(wrapper.data.get_properties()),
        None => None,
    };
    proof {
        if r is Some {
            assert(table@ =~= with_data(old(table)@, data, instance(table@, data).data));
        } else {
            assert(table@ =~= old(table)@);
        }
    }
    r
}

/// Calls `D::get_total_bytes` on the instance that `data` names and hands on
/// what it returns.
pub fn get_total_bytes<D: GetTotalBytesOutput, C>(
    table: &mut InstanceTable<D, C>,
    data: usize,
) -> (r: Option<u64>)
    ensures
        r is Some <==> is_live(old(table)@, data),
        r matches Some(result) ==> same_but_data(old(table)@, final(table)@, data)
            && D::on_get_total_bytes(
            instance(old(table)@, data).data,
            instance(final(table)@, data).data,
            result,
        ),
        r is None ==> final(table)@ == old(table)@,
{
    if data == 0 || data > table.slots.len() {
        return None;
    }
    let r = match &mut table.slots[data - 1] {
        Some(wrapper) => Some(wrapper.data.get_total_bytes()),
        None => None,
    };
    proof {
        if r is Some {
            assert(table@ =~= with_data(old(table)@, data, instance(table@, data).data));
        } else {
            assert(table@ =~= old(table)@);
        }
    }
    r
}

/// Calls `D::get_dropped_frames` on the instance that `data` names and hands on
/// what it returns.
pub fn get_dropped_frames<D: GetDroppedFramesOutput, C>(
    table: &mut InstanceTable<D, C>,
    data: usize,
) -> (r: Option<i32>)
    ensures
        r is Some <==> is_live(old(table)@, data),
        r matches Some(result) ==> same_but_data(old(table)@, final(table)@, data)
            && D::on_get_dropped_frames(
            instance(old(table)@, data).data,
            instance(final(table)@, data).data,
            result,
        ),
        r is None ==> final(table)@ == old(table)@,
{
    if data == 0 || data > table.slots.len() {
        return None;
    }
    let r = match &mut table.slots[data - 1] {
        Some(wrapper) => Some(wrapper.data.get_dropped_frames()),
        None => None,
    };
    proof {
        if r is Some {
            assert(table@ =~= with_data(old(table)@, data, instance(table@, data).data));
        } else {
            assert(table@ =~= old(table)@);
        }
    }
    r
}

/// Calls `D::get_congestion` on the instance that `data` names and hands on
/// what it returns.
pub fn get_congestion<D: GetCongestionOutput, C>(
    table: &mut InstanceTable<D, C>,
    data: usize,
) -> (r: Option<FloatBits>)
    ensures
        r is Some <==> is_live(old(table)@, data),
        r matches Some(result) ==> same_but_data(old(table)@, final(table)@, data)
            && D::on_get_congestion(
            instance(old(table)@, data).data,
            instance(final(table)@, data).data,
            result,
        ),
        r is None ==> final(table)@ == old(table)@,
{
    if data == 0 || data > table.slots.len() {
        return None;
    }
    let r = match &mut table.slots[data - 1] {
        Some(wrapper) => Some(wrapper.data.get_congestion()),
        None => None,
    };
    proof {
        if r is Some {
            assert(table@ =~= with_data(old(table)@, data, instance(table@, data).data));
        } else {
            assert(table@ =~= old(table)@);
        }
    }
    r
}

/// Calls `D::get_connect_time_ms` on the instance that `data` names and hands
/// on what it returns.
pub fn get_connect_time_ms<D: GetConnectTimeMsOutput, C>(
    table: &mut InstanceTable<D, C>,
    data: usize,
) -> (r: Option<i32>)
    ensures
        r is Some <==> is_live(old(table)@, data),
        r matches Some(result) ==> same_but_data(old(table)@, final(table)@, data)
            && D::on_get_connect_time_ms(
            instance(old(table)@, data).data,
            instance(final(table)@, data).data,
            result,
        ),
        r is None ==> final(table)@ == old(table)@,
{
    if data == 0 || data > table.slots.len() {
        return None;
    }
    let r = match &mut table.slots[data - 1] {
        Some(wrapper) => Some(wrapper.data.get_connect_time_ms()),
        None => None,
    };
    proof {
        if r is Some {
            assert(table@ =~= with_data(old(table)@, data, instance(table@, data).data));
        } else {
            assert(table@ =~= old(table)@);
        }
    }
    r
}

/// Fires the hotkey that the host registered under `id` for the instance
/// that `data` names: the callback stored under `id` is called once, with
/// the hotkey and the state of that instance. An id that the instance has
/// no callback for does nothing.
pub fn hotkey_callback<D, C: HotkeyCallback<D>>(
    table: &mut InstanceTable<D, C>,
    data: usize,
    id: u64,
    pressed: bool,
) -> (fired: bool)
    ensures
        fired == (is_live(old(table)@, data) && instance(old(table)@, data).hotkeys.contains_key(
            id,
        )),
        !fired ==> final(table)@ == old(table)@,
        fired ==> {
            let before = instance(old(table)@, data);
            let after = instance(final(table)@, data);
            &&& final(table)@ == with_instance(old(table)@, data, after)
            &&& after.queued == before.queued
            &&& after.hotkeys == before.hotkeys.insert(id, after.hotkeys[id])
            &&& C::fired(
                before.hotkeys[id],
                Hotkey { id, pressed },
                before.data,
                after.hotkeys[id],
                after.data,
            )
        },
{
    if data == 0 || data > table.slots.len() {
        return false;
    }
    let mut key = Hotkey::from_raw(id, pressed);
    let fired = match &mut table.slots[data - 1] {
        Some(wrapper) => wrapper.fire(&mut key),
        None => false,
    };
    proof {
        if fired {
            assert(table@ =~= with_instance(old(table)@, data, instance(table@, data)));
        } else {
            assert(table@ =~= old(table)@);
        }
    }
    fired
}

} // verus!
