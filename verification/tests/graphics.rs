use obs_wrapper::graphics::display::{draw_callback, DisplayRef, DrawCallback};
use std::cell::Cell;
use obs_wrapper::graphics::{
    Color, GraphicsAddressMode, GraphicsAllowDirectRendering, GraphicsColorFormat, GraphicsDevice,
    GraphicsEffect, GraphicsEffectParam, GraphicsEffectTextureParam, GraphicsEffectVec2Param,
    GraphicsGuard, GraphicsLock, GraphicsSampleFilter, GraphicsSamplerInfo, GraphicsSamplerState,
    GraphicsTexture, MappedTexture, ShaderParamType,
};
use obs_wrapper::result::Error;
use obs_wrapper::string::ObsString;
use obs_wrapper::wrapper::{NativeObjects, PtrWrapper};

#[test]
fn lock_is_reentrant_for_its_holder() {
    let mut lock = GraphicsLock::new();
    assert_eq!(lock.depth(), 0);
    assert!(lock.try_enter(1));
    assert!(lock.try_enter(1));
    assert!(lock.try_enter(1));
    assert_eq!(lock.depth(), 3);
    assert!(lock.is_active(1));
    assert!(lock.leave(1));
    assert!(lock.leave(1));
    assert!(lock.is_active(1));
    assert!(lock.leave(1));
    assert!(!lock.is_active(1));
    assert_eq!(lock.depth(), 0);
}

#[test]
fn lock_keeps_other_threads_out() {
    let mut lock = GraphicsLock::new();
    assert!(lock.try_enter(1));
    assert!(!lock.try_enter(2));
    assert!(!lock.is_active(2));
    assert!(!lock.leave(2));
    assert_eq!(lock.depth(), 1);
    assert!(lock.leave(1));
    assert!(lock.try_enter(2));
    assert!(lock.is_active(2));
    assert!(!lock.leave(1));
    assert!(lock.leave(2));
    assert!(!lock.leave(2));
}

#[test]
fn guard_enters_and_leaves() {
    let mut lock = GraphicsLock::new();
    let guard = GraphicsGuard::enter(&mut lock, 7).unwrap();
    assert!(lock.is_active(7));
    assert!(GraphicsGuard::enter(&mut lock, 8).is_none());
    let inner = GraphicsGuard::enter(&mut lock, 7).unwrap();
    assert_eq!(lock.depth(), 2);
    assert!(inner.leave(&mut lock));
    assert!(guard.leave(&mut lock));
    assert_eq!(lock.depth(), 0);
}

#[test]
fn with_enter_runs_inside_and_restores_the_lock() {
    let mut lock = GraphicsLock::new();
    assert_eq!(GraphicsGuard::with_enter(&mut lock, 1, || 41 + 1), Some(42));
    assert_eq!(lock.depth(), 0);
    assert!(lock.try_enter(1));
    assert_eq!(GraphicsGuard::with_enter(&mut lock, 1, || "nested"), Some("nested"));
    assert_eq!(lock.depth(), 1);
    let mut ran = false;
    assert_eq!(GraphicsGuard::with_enter(&mut lock, 2, || ran = true), None);
    assert!(!ran);
    assert_eq!(lock.depth(), 1);
    assert!(lock.is_active(1));
}

/// What one simulated thread does next.
#[derive(Clone, Copy)]
enum Step {
    Create,
    Destroy,
}

/// Runs the steps of two threads in the order that `schedule` gives, each
/// step a guarded call that waits (is tried again later) while the other
/// thread is inside, and counts the enters and leaves that took effect.
fn interleave(schedule: &[u64], hold: Option<(usize, u64)>) -> (u64, u64, GraphicsDevice, Vec<usize>) {
    let mut device = GraphicsDevice::new();
    let mut enters = 0u64;
    let mut leaves = 0u64;
    let mut made: Vec<usize> = vec![];
    let plan = [Step::Create, Step::Create, Step::Destroy, Step::Create, Step::Destroy];
    let mut next = [0usize, 0usize];
    for (at, &thread) in schedule.iter().enumerate() {
        if let Some((when, holder)) = hold {
            if at == when {
                assert!(device.try_enter(holder));
                enters += 1;
            }
            if at == when + 2 {
                assert!(device.leave(holder));
                leaves += 1;
            }
        }
        let me = (thread - 1) as usize;
        if next[me] >= plan.len() {
            continue;
        }
        if !device.try_enter(thread) {
            continue;
        }
        enters += 1;
        match plan[next[me]] {
            Step::Create => made.push(device.create_object(thread).unwrap()),
            Step::Destroy => {
                let ptr = made.pop().unwrap();
                assert!(device.destroy_object(thread, ptr));
            }
        }
        assert!(device.leave(thread));
        leaves += 1;
        next[me] += 1;
    }
    (enters, leaves, device, made)
}

#[test]
fn enters_and_leaves_balance_over_interleavings() {
    let schedules: [&[u64]; 5] = [
        &[1, 1, 1, 1, 1, 2, 2, 2, 2, 2],
        &[1, 2, 1, 2, 1, 2, 1, 2, 1, 2],
        &[2, 2, 1, 1, 2, 1, 2, 1, 1, 2],
        &[2, 1, 1, 2, 2, 2, 1, 1, 1, 2],
        &[1, 2, 2, 1, 1, 1, 2, 2, 2, 1, 1, 2, 1, 2],
    ];
    for schedule in schedules.iter() {
        for hold in [None, Some((1, 1)), Some((3, 2)), Some((0, 2))] {
            let (enters, leaves, device, made) = interleave(schedule, hold);
            assert_eq!(enters, leaves);
            assert!(enters >= 5);
            assert!(!device.is_active(1));
            assert!(!device.is_active(2));
            assert_eq!(device.violation_count(), 0);
            for ptr in made {
                assert!(device.is_live(ptr));
            }
        }
    }
}

#[test]
fn call_outside_the_guard_is_flagged() {
    let mut device = GraphicsDevice::new();
    assert_eq!(device.create_object(1), None);
    assert_eq!(device.violation_count(), 1);
    assert!(device.try_enter(1));
    let ptr = device.create_object(1).unwrap();
    assert_eq!(ptr, 1);
    assert_eq!(device.violation_count(), 1);
    assert_eq!(device.create_object(2), None);
    assert!(!device.destroy_object(2, ptr));
    assert_eq!(device.violation_count(), 3);
    assert!(device.is_live(ptr));
    assert!(device.leave(1));
    assert!(!device.destroy_object(1, ptr));
    assert_eq!(device.violation_count(), 4);
    assert!(device.try_enter(1));
    assert!(device.destroy_object(1, ptr));
    assert!(!device.destroy_object(1, ptr));
    assert!(!device.is_live(ptr));
    assert_eq!(device.violation_count(), 4);
}

#[test]
fn owned_handles_enter_on_their_own() {
    let mut device = GraphicsDevice::new();
    let texture = GraphicsTexture::new(&mut device, 1, 640, 480, GraphicsColorFormat::RGBA).unwrap();
    assert_eq!((texture.width(), texture.height()), (640, 480));
    assert!(device.is_live(texture.as_ptr()));
    assert!(!device.is_active(1));
    assert!(device.try_enter(1));
    let source = ObsString::from_nul_terminted_str("float4 main() : TARGET { return 0; }\0");
    let file = ObsString::from_nul_terminted_str("plain.effect\0");
    let effect = GraphicsEffect::from_effect_string(&mut device, 1, &source, &file).unwrap();
    let sampler =
        GraphicsSamplerState::create(&mut device, 1, GraphicsSamplerInfo::new()).unwrap();
    assert_ne!(effect.as_ptr(), texture.as_ptr());
    assert_ne!(effect.as_ptr(), sampler.as_ptr());
    assert!(device.is_active(1));
    assert!(GraphicsEffect::from_effect_string(&mut device, 2, &source, &file).is_none());
    let texture = texture.destroy(&mut device, 2).unwrap_err();
    assert!(device.is_live(texture.as_ptr()));
    let at = texture.as_ptr();
    assert!(texture.destroy(&mut device, 1).is_ok());
    assert!(!device.is_live(at));
    assert!(effect.destroy(&mut device, 1).is_ok());
    assert!(sampler.destroy(&mut device, 1).is_ok());
    assert!(device.leave(1));
    assert!(!device.is_active(1));
    assert_eq!(device.violation_count(), 0);
}

#[test]
fn guarded_calls_wait_for_the_other_thread() {
    let mut device = GraphicsDevice::new();
    assert!(!device.is_blocked_for(1));
    assert!(device.try_enter(2));
    assert!(device.is_blocked_for(1));
    assert!(!device.is_blocked_for(2));
    assert_eq!(device.create_guarded(1), None);
    let ptr = device.create_guarded(2).unwrap();
    assert!(!device.destroy_guarded(1, ptr));
    assert!(device.is_live(ptr));
    assert!(device.leave(2));
    assert!(device.destroy_guarded(1, ptr));
    assert!(!device.destroy_guarded(1, ptr));
    assert_eq!(device.violation_count(), 0);
}

#[test]
fn mapped_len_is_linesize_times_height() {
    let mut device = GraphicsDevice::new();
    let texture = GraphicsTexture::new(&mut device, 1, 10, 3, GraphicsColorFormat::BGRA).unwrap();
    assert_eq!(texture.mapped_len(40), Some(120));
    assert_eq!(texture.mapped_len(0), Some(0));
    let tall = GraphicsTexture::new(&mut device, 1, 1, u32::MAX, GraphicsColorFormat::R8).unwrap();
    assert_eq!(tall.mapped_len(u32::MAX), Some(u32::MAX as usize * u32::MAX as usize));
}

#[test]
fn color_as_rgba_packs_the_bytes_in_memory_order() {
    let color = Color::new(0x11, 0x22, 0x33, 0x44);
    assert_eq!(color.as_rgba().to_ne_bytes(), [0x11, 0x22, 0x33, 0x44]);
    assert_eq!(color.as_bgra().to_ne_bytes(), [0x33, 0x22, 0x11, 0x44]);
    assert_eq!(color.as_format(GraphicsColorFormat::RGBA), color.as_rgba());
    assert_eq!(color.as_format(GraphicsColorFormat::BGRA), color.as_bgra());
    let packed = color.as_rgba();
    assert!(packed == 0x44332211 || packed == 0x11223344);
    assert_ne!(packed, 0x11);
}

#[test]
fn named_colors() {
    assert_eq!(Color::black(), Color { r: 0, g: 0, b: 0, a: 255 });
    assert_eq!(Color::white(), Color { r: 255, g: 255, b: 255, a: 255 });
    assert_eq!(Color::red(), Color::new(255, 0, 0, 255));
    assert_eq!(Color::green(), Color::new(0, 255, 0, 255));
    assert_eq!(Color::blue(), Color::new(0, 0, 255, 255));
    assert!(Color::black() < Color::white());
}

#[test]
fn sampler_info_builder() {
    let info = GraphicsSamplerInfo::new();
    assert_eq!(info.address_u, GraphicsAddressMode::Clamp);
    assert_eq!(info.filter, GraphicsSampleFilter::Point);
    assert_eq!(info.max_anisotropy, 0);
    let info = info
        .with_address_u(GraphicsAddressMode::Wrap)
        .with_address_v(GraphicsAddressMode::Mirror)
        .with_address_w(GraphicsAddressMode::Border)
        .with_filter(GraphicsSampleFilter::Linear);
    assert_eq!(info.address_u, GraphicsAddressMode::Wrap);
    assert_eq!(info.address_v, GraphicsAddressMode::Mirror);
    assert_eq!(info.address_w, GraphicsAddressMode::Border);
    assert_eq!(info.filter, GraphicsSampleFilter::Linear);
    assert_eq!(info.border_color, 0);
}

#[test]
fn graphics_enums_round_trip_through_their_numbers() {
    for raw in 0u32..19 {
        assert_eq!(GraphicsColorFormat::from_raw(raw).unwrap().as_raw(), raw);
    }
    assert_eq!(GraphicsColorFormat::RGBA.as_raw(), 3);
    assert_eq!(GraphicsColorFormat::BGRA.as_raw(), 5);
    assert_eq!(GraphicsColorFormat::R8G8.as_raw(), 18);
    let err = GraphicsColorFormat::from_raw(19).unwrap_err();
    assert_eq!(err.value(), 19);
    assert_eq!(err.struct_name(), "GraphicsColorFormat");
    for raw in 0u32..5 {
        assert_eq!(GraphicsAddressMode::from_raw(raw).unwrap().as_raw(), raw);
    }
    assert!(GraphicsAddressMode::from_raw(5).is_err());
    assert_eq!(GraphicsAddressMode::MirrorOnce.as_raw(), 4);
    for raw in 0u32..9 {
        assert_eq!(GraphicsSampleFilter::from_raw(raw).unwrap().as_raw(), raw);
    }
    assert!(GraphicsSampleFilter::from_raw(9).is_err());
    assert_eq!(GraphicsSampleFilter::Anisotropic.as_raw(), 2);
    assert_eq!(GraphicsAllowDirectRendering::NoDirectRendering.as_raw(), 0);
    assert_eq!(
        GraphicsAllowDirectRendering::from_raw(1).unwrap(),
        GraphicsAllowDirectRendering::AllowDirectRendering
    );
    assert!(GraphicsAllowDirectRendering::from_raw(2).is_err());
    assert_eq!(ShaderParamType::Texture.as_raw(), 12);
    assert_eq!(ShaderParamType::from_raw(5).unwrap(), ShaderParamType::Vec2);
    assert!(ShaderParamType::from_raw(13).is_err());
}

#[test]
fn display_is_owned_not_counted() {
    let mut objects = NativeObjects::new();
    assert!(objects.create(0x500));
    let display = DisplayRef::from_raw(&mut objects, 0x500).unwrap();
    assert_eq!(objects.count(0x500), 1);
    assert_eq!(display.as_ptr(), 0x500);
    display.destroy(&mut objects);
    assert_eq!(objects.count(0x500), 0);
    assert!(!objects.contains(0x500));
    assert!(DisplayRef::from_raw(&mut objects, 0).is_none());
}

#[test]
fn effect_from_unterminated_text_is_absent() {
    let mut device = GraphicsDevice::new();
    let good = ObsString::from_nul_terminted_str("text\0");
    let bad = ObsString::from_nul_terminted_str("text");
    let torn = ObsString::from_nul_terminted_str("te\0xt\0");
    assert!(GraphicsEffect::from_effect_string(&mut device, 1, &bad, &good).is_none());
    assert!(GraphicsEffect::from_effect_string(&mut device, 1, &good, &bad).is_none());
    assert!(GraphicsEffect::from_effect_string(&mut device, 1, &torn, &good).is_none());
    let dynamic = ObsString::Dynamic(String::from("text"));
    let effect = GraphicsEffect::from_effect_string(&mut device, 1, &dynamic, &good).unwrap();
    assert_eq!(effect.as_ptr(), 1);
    assert!(device.is_live(1));
    assert!(!device.is_live(2));
}

#[test]
fn effect_param_reads_type_and_name() {
    let param = GraphicsEffectParam::from_raw(0x30, 5, Some(b"scale\0junk")).unwrap();
    assert_eq!(param.get_name(), "scale");
    assert_eq!(param.as_ptr(), 0x30);
    let param = GraphicsEffectParam::from_raw(0x30, 12, Some(b"image")).unwrap();
    assert_eq!(param.get_name(), "image");
    let param = GraphicsEffectParam::from_raw(0x30, 2, Some(b"\xff\xfe\0")).unwrap();
    assert_eq!(param.get_name(), "{unknown-param-name}");
    let param = GraphicsEffectParam::from_raw(0x30, 2, None).unwrap();
    assert_eq!(param.get_name(), "{unknown-param-name}");
    let err = GraphicsEffectParam::from_raw(0x30, 13, Some(b"x\0")).unwrap_err();
    assert_eq!((err.struct_name(), err.value()), ("ShaderParamType", 13));
}

#[test]
fn typed_effect_params_check_the_type() {
    let vec2 = GraphicsEffectParam::from_raw(0x30, 5, Some(b"scale\0")).unwrap();
    assert_eq!(GraphicsEffectVec2Param::try_from(vec2).unwrap().as_ptr(), 0x30);
    let texture = GraphicsEffectParam::from_raw(0x31, 12, Some(b"image\0")).unwrap();
    assert_eq!(GraphicsEffectTextureParam::try_from(texture).unwrap().as_ptr(), 0x31);
    let float = GraphicsEffectParam::from_raw(0x32, 2, Some(b"f\0")).unwrap();
    assert_eq!(
        GraphicsEffectVec2Param::try_from(float).unwrap_err(),
        Error::EnumOutOfRange("ShaderParamType", 2)
    );
    let vec2 = GraphicsEffectParam::from_raw(0x30, 5, Some(b"scale\0")).unwrap();
    assert_eq!(
        GraphicsEffectTextureParam::try_from(vec2).unwrap_err(),
        Error::EnumOutOfRange("ShaderParamType", 5)
    );
}

#[test]
fn map_reports_the_failure_of_the_host() {
    let mut device = GraphicsDevice::new();
    let texture = GraphicsTexture::new(&mut device, 1, 8, 4, GraphicsColorFormat::RGBA).unwrap();
    assert_eq!(texture.map(false, 32), Err(Error::ObsError(-1)));
    let mapped = texture.map(true, 32).unwrap();
    assert_eq!(mapped, MappedTexture { len: 128, width: 8, height: 4 });
    assert_eq!((mapped.width(), mapped.height()), (8, 4));
    assert_eq!(texture.map(true, 0).unwrap().len, 0);
}

struct Counting<'a>(&'a Cell<u32>);

impl DrawCallback for Counting<'_> {
    fn draw(&self, cx: u32, cy: u32) {
        self.0.set(self.0.get() + cx * cy);
    }
}

#[test]
fn draw_callback_is_taken_off_its_own_display() {
    let drawn = Cell::new(0);
    let display = DisplayRef::from_raw_unchecked(0x500).unwrap();
    let other = DisplayRef::from_raw_unchecked(0x600).unwrap();
    let id = display.add_draw_callback(Counting(&drawn));
    assert!(id.belongs_to(&display));
    assert!(!id.belongs_to(&other));
    draw_callback(&id.data, 4, 3);
    draw_callback(&id.data, 1, 1);
    let back = display.remove_draw_callback(id);
    back.draw(2, 2);
    assert_eq!(drawn.get(), 17);
}

#[test]
fn with_guard_hands_the_guard_to_the_closure() {
    let mut lock = GraphicsLock::new();
    let mut ran = 0;
    let answer = GraphicsGuard::with_guard(&mut lock, 3, |_guard: &GraphicsGuard| {
        ran += 1;
        "inside"
    });
    assert_eq!(answer, Some("inside"));
    assert_eq!(ran, 1);
    assert_eq!(lock.depth(), 0);
    assert!(lock.try_enter(4));
    assert_eq!(GraphicsGuard::with_guard(&mut lock, 3, |_guard: &GraphicsGuard| ran += 1), None);
    assert_eq!(ran, 1);
    assert_eq!(GraphicsGuard::with_guard(&mut lock, 4, |_guard: &GraphicsGuard| 5), Some(5));
    assert_eq!(lock.depth(), 1);
    assert!(lock.is_active(4));
}

#[test]
fn host_made_objects_are_taken_in_only_inside_the_lock() {
    let mut device = GraphicsDevice::new();
    assert!(!device.adopt_object(1, 0x700));
    assert_eq!(device.violation_count(), 1);
    assert!(device.try_enter(1));
    assert!(!device.adopt_object(1, 0));
    assert!(device.adopt_object(1, 0x700));
    assert!(!device.adopt_object(1, 0x700));
    assert!(!device.adopt_object(2, 0x800));
    assert_eq!(device.violation_count(), 2);
    assert!(device.is_live(0x700));
    assert!(!device.is_live(0x800));
    assert_eq!(device.create_object(1), Some(0x701));
    assert!(device.leave(1));
}

#[test]
fn handles_wrap_what_the_host_returned() {
    let mut device = GraphicsDevice::new();
    assert!(GraphicsEffect::from_raw(&mut device, 1, 0x10).is_none());
    assert_eq!(device.violation_count(), 1);
    assert!(device.try_enter(1));
    assert!(GraphicsEffect::from_raw(&mut device, 1, 0).is_none());
    let effect = GraphicsEffect::from_raw(&mut device, 1, 0x10).unwrap();
    assert_eq!(effect.as_ptr(), 0x10);
    assert!(GraphicsEffect::from_raw(&mut device, 1, 0x10).is_none());
    let texture =
        GraphicsTexture::from_raw(&mut device, 1, 0x20, 64, 32, GraphicsColorFormat::BGRA).unwrap();
    assert_eq!((texture.as_ptr(), texture.width(), texture.height()), (0x20, 64, 32));
    let sampler =
        GraphicsSamplerState::from_raw(&mut device, 1, 0x30, GraphicsSamplerInfo::new()).unwrap();
    assert_eq!(sampler.as_ptr(), 0x30);
    assert!(GraphicsSamplerState::from_raw(&mut device, 2, 0x40, GraphicsSamplerInfo::new())
        .is_none());
    assert_eq!(device.violation_count(), 2);
    assert!(device.is_live(0x10) && device.is_live(0x20) && device.is_live(0x30));
    assert!(effect.destroy(&mut device, 1).is_ok());
    assert!(texture.destroy(&mut device, 1).is_ok());
    assert!(sampler.destroy(&mut device, 1).is_ok());
    assert!(!device.is_live(0x10) && !device.is_live(0x20) && !device.is_live(0x30));
    assert!(device.leave(1));
    assert_eq!(device.violation_count(), 2);
}
