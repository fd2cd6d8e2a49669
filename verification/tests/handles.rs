use obs_wrapper::media::{AudioRef, VideoRef};
use obs_wrapper::module::ModuleRef;
use obs_wrapper::output::OutputRef;
use obs_wrapper::result::Error;
use obs_wrapper::source::{SceneItemRef, SceneRef, SourceRef, SourceType, VideoRenderContext};
use obs_wrapper::wrapper::{NativeObjects, PtrWrapper, PtrWrapperInternal};

#[test]
fn ledger_counts_references() {
    let mut objects = NativeObjects::new();
    assert_eq!(objects.count(0x10), 0);
    assert!(objects.create(0x10));
    assert!(!objects.create(0x10));
    assert!(!objects.create(0));
    assert_eq!(objects.count(0x10), 1);
    assert_eq!(objects.get_ref(0x10), 0x10);
    assert_eq!(objects.get_ref(0x10), 0x10);
    assert_eq!(objects.count(0x10), 3);
    assert_eq!(objects.get_ref(0x20), 0);
    assert_eq!(objects.get_ref(0), 0);
    assert!(objects.release(0x10));
    assert!(objects.release(0x10));
    assert!(objects.contains(0x10));
    assert!(objects.release(0x10));
    assert!(!objects.contains(0x10));
    assert!(!objects.release(0x10));
    assert_eq!(objects.count(0x10), 0);
}

#[test]
fn counted_handle_takes_and_gives_back_a_reference() {
    let mut objects = NativeObjects::new();
    assert!(objects.create(0x40));
    let first = SourceRef::from_raw(&mut objects, 0x40).unwrap();
    assert_eq!(objects.count(0x40), 2);
    assert_eq!(first.as_ptr(), 0x40);
    assert_eq!(first.as_ptr_mut(), 0x40);
    assert_eq!(first.id(), 0x40);
    assert_eq!(first.get_internal(), 0x40);
    let second = first.clone_ref(&mut objects).unwrap();
    assert_eq!(objects.count(0x40), 3);
    first.release_ref(&mut objects);
    assert_eq!(objects.count(0x40), 2);
    second.release_ref(&mut objects);
    assert_eq!(objects.count(0x40), 1);
    assert!(objects.contains(0x40));
}

#[test]
fn handle_on_nothing_is_absent() {
    let mut objects = NativeObjects::new();
    assert!(SourceRef::from_raw(&mut objects, 0).is_none());
    assert!(SourceRef::from_raw(&mut objects, 0x40).is_none());
    assert!(OutputRef::from_raw(&mut objects, 0x40).is_none());
    assert!(SourceRef::from_raw_unchecked(0).is_none());
    assert_eq!(SourceRef::from_raw_unchecked(0x40).unwrap().as_ptr(), 0x40);
    assert_eq!(SourceRef::new_internal(0x44).as_ptr(), 0x44);
    assert_eq!(objects.count(0x40), 0);
}

#[test]
fn into_raw_passes_the_reference_on() {
    let mut objects = NativeObjects::new();
    assert!(objects.create(0x40));
    let handle = OutputRef::from_raw(&mut objects, 0x40).unwrap();
    assert_eq!(objects.count(0x40), 2);
    let raw = handle.into_raw();
    assert_eq!(raw, 0x40);
    assert_eq!(objects.count(0x40), 2);
    let again = OutputRef::from_raw_unchecked(raw).unwrap();
    let other = again.clone_ref(&mut objects).unwrap();
    assert_eq!(objects.count(0x40), 3);
    again.release_ref(&mut objects);
    other.release_ref(&mut objects);
    assert_eq!(objects.count(0x40), 1);
}

#[test]
fn last_release_ends_the_object_and_clone_fails_after() {
    let mut objects = NativeObjects::new();
    assert!(objects.create(0x40));
    let scene = SceneRef::from_raw(&mut objects, 0x40).unwrap();
    assert!(objects.release(0x40));
    assert_eq!(objects.count(0x40), 1);
    let stale = SceneRef::from_raw_unchecked(0x40).unwrap();
    scene.release_ref(&mut objects);
    assert!(!objects.contains(0x40));
    assert!(stale.clone_ref(&mut objects).is_none());
    assert!(!objects.contains(0x40));
}

#[test]
fn scene_items_are_counted() {
    let mut objects = NativeObjects::new();
    assert!(objects.create(0x8));
    let item = SceneItemRef::from_raw(&mut objects, 0x8).unwrap();
    assert_eq!(objects.count(0x8), 2);
    let other = item.clone_ref(&mut objects).unwrap();
    assert_eq!(objects.count(0x8), 3);
    item.release_ref(&mut objects);
    other.release_ref(&mut objects);
    assert_eq!(objects.count(0x8), 1);
}

#[test]
fn target_of_a_filter_gets_its_own_reference() {
    let mut objects = NativeObjects::new();
    assert!(objects.create(0x40));
    assert!(objects.create(0x80));
    let filter = SourceRef::from_raw(&mut objects, 0x40).unwrap();
    let target =
        filter.do_with_target(&mut objects, SourceType::FILTER.to_native(), 0x80).unwrap();
    assert_eq!(target.as_ptr(), 0x80);
    assert_eq!(objects.count(0x80), 2);
    target.release_ref(&mut objects);
    assert_eq!(objects.count(0x80), 1);
    assert!(filter.do_with_target(&mut objects, SourceType::INPUT.to_native(), 0x80).is_none());
    assert!(filter.do_with_target(&mut objects, 9, 0x80).is_none());
    assert!(filter.do_with_target(&mut objects, 1, 0).is_none());
    assert!(filter.do_with_target(&mut objects, 1, 0x90).is_none());
    assert_eq!(objects.count(0x80), 1);
}

#[test]
fn module_ref_rejects_null() {
    assert_eq!(ModuleRef::from_raw(0), Err(Error::NulPointer("obs_module_t")));
    let module = ModuleRef::from_raw(0x77).unwrap();
    assert_eq!(module.get_raw(), 0x77);
}

#[test]
fn new_output_takes_over_the_reference_of_the_host() {
    assert_eq!(OutputRef::new(0).unwrap_err(), Error::NulPointer("obs_output_create"));
    let mut objects = NativeObjects::new();
    assert!(objects.create(0x60));
    let output = OutputRef::new(0x60).unwrap();
    assert_eq!(output.as_ptr(), 0x60);
    assert_eq!(objects.count(0x60), 1);
    output.release_ref(&mut objects);
    assert!(!objects.contains(0x60));
}

#[test]
fn all_outputs_takes_a_reference_on_each_live_output() {
    let mut objects = NativeObjects::new();
    assert!(objects.create(0x10));
    assert!(objects.create(0x20));
    let listed = vec![0x10, 0x30, 0x20, 0, 0x10];
    let outputs = OutputRef::all_outputs(&mut objects, &listed);
    let addresses: Vec<usize> = outputs.iter().map(|o| o.as_ptr()).collect();
    assert_eq!(addresses, vec![0x10, 0x20, 0x10]);
    assert_eq!(objects.count(0x10), 3);
    assert_eq!(objects.count(0x20), 2);
    assert_eq!(objects.count(0x30), 0);
    for output in outputs {
        output.release_ref(&mut objects);
    }
    assert_eq!(objects.count(0x10), 1);
    assert_eq!(objects.count(0x20), 1);
    assert!(OutputRef::all_outputs(&mut objects, &vec![]).is_empty());
}

#[test]
fn weak_handles_take_nothing() {
    let audio = AudioRef::from_raw(0x70);
    let video = VideoRef::from_raw(0x71);
    assert_eq!((audio.pointer, video.pointer), (0x70, 0x71));
    assert_eq!(audio, AudioRef { pointer: 0x70 });
}

#[test]
fn only_a_filter_begins_to_draw() {
    let mut source = SourceRef::from_raw_unchecked(0x40).unwrap();
    let mut render = VideoRenderContext;
    let mut asked = 0;
    assert!(source
        .process_filter(&mut render, SourceType::FILTER.to_native(), || {
            asked += 1;
            true
        })
        .is_some());
    assert!(source
        .process_filter(&mut render, SourceType::FILTER.to_native(), || {
            asked += 1;
            false
        })
        .is_none());
    assert!(source
        .process_filter(&mut render, SourceType::INPUT.to_native(), || {
            asked += 1;
            true
        })
        .is_none());
    assert!(source.process_filter(&mut render, 17, || true).is_none());
    assert_eq!(asked, 2);
}
