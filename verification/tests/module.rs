use obs_wrapper::data::DataObj;
use obs_wrapper::hotkey::{Hotkey, HotkeyCallback};
use obs_wrapper::module::{LoadContext, Module, ModuleRef, ModuleSlot};
use obs_wrapper::output::{CreatableOutputContext, OutputRef, Outputable};
use obs_wrapper::source::{
    CreatableSourceContext, GetNameSource, GlobalContext, SourceCallback, SourceRef, SourceType,
    Sourceable, UpdateSource,
};
use obs_wrapper::string::ObsString;

struct Quiet;

impl HotkeyCallback<TestSource> for Quiet {
    fn fire(&mut self, _hotkey: &mut Hotkey, _data: &mut TestSource) {}
}

impl HotkeyCallback<TestOutput> for Quiet {
    fn fire(&mut self, _hotkey: &mut Hotkey, _data: &mut TestOutput) {}
}

struct TestSource;

impl Sourceable for TestSource {
    type Callback = Quiet;

    fn get_id() -> ObsString {
        ObsString::from_nul_terminted_str("test_source\0")
    }

    fn get_type() -> SourceType {
        SourceType::FILTER
    }

    fn create(_create: &mut CreatableSourceContext<'_, Quiet>, _source: SourceRef) -> Self {
        Self
    }
}

impl GetNameSource for TestSource {
    fn get_name() -> ObsString {
        ObsString::from_nul_terminted_str("Test Source\0")
    }
}

impl UpdateSource for TestSource {
    fn update(&mut self, _settings: &mut DataObj, _context: &mut GlobalContext) {}
}

struct TestOutput;

impl Outputable for TestOutput {
    type Callback = Quiet;

    fn get_id() -> ObsString {
        ObsString::from_nul_terminted_str("test_output\0")
    }

    fn create(_context: &mut CreatableOutputContext<'_, Quiet>, _output: OutputRef) -> Self {
        Self
    }

    fn start(&mut self) -> bool {
        true
    }

    fn stop(&mut self, _ts: u64) {}
}

struct TestModule {
    context: ModuleRef,
    loads: u32,
    unloads: u32,
    post_loads: u32,
    succeed: bool,
}

impl Module for TestModule {
    fn new(context: ModuleRef) -> Self {
        Self { context, loads: 0, unloads: 0, post_loads: 0, succeed: context.get_raw() != 0xbad }
    }

    fn get_ctx(&self) -> &ModuleRef {
        &self.context
    }

    fn load(&mut self, load_context: &mut LoadContext) -> bool {
        self.loads += 1;
        let source = load_context
            .create_source_builder::<TestSource>()
            .enable_get_name()
            .enable_update()
            .build();
        load_context.register_source(source);
        let output = load_context.create_output_builder::<TestOutput>().build();
        load_context.register_output(output);
        self.succeed
    }

    fn unload(&mut self) {
        self.unloads += 1;
    }

    fn post_load(&mut self) {
        self.post_loads += 1;
    }

    fn description() -> ObsString {
        ObsString::from_nul_terminted_str("A great test module.\0")
    }

    fn name() -> ObsString {
        ObsString::from_nul_terminted_str("Test Module\0")
    }

    fn author() -> ObsString {
        ObsString::from_nul_terminted_str("Bennett\0")
    }
}

#[test]
fn load_context_keeps_what_is_registered() {
    let mut context = LoadContext::new();
    assert_eq!((context.source_count(), context.output_count()), (0, 0));
    let source = context.create_source_builder::<TestSource>().enable_update().build();
    context.register_source(source);
    let other = context.create_source_builder::<TestSource>().build();
    context.register_source(other);
    let output = context.create_output_builder::<TestOutput>().build();
    context.register_output(output);
    assert_eq!((context.source_count(), context.output_count()), (2, 1));
    assert_eq!(context.source(0).as_ref().update, Some(SourceCallback::Update));
    assert_eq!(context.source(1).as_ref().update, None);
    assert_eq!(
        context.output(0).as_ref().id,
        ObsString::from_nul_terminted_str("test_output\0")
    );
}

#[test]
fn slot_is_written_once() {
    let mut slot: ModuleSlot<TestModule> = ModuleSlot::new();
    assert_eq!(slot.current_module(), None);
    assert!(!slot.set_pointer(0));
    assert_eq!(slot.current_module(), None);
    assert!(slot.set_pointer(0x1234));
    assert_eq!(slot.current_module(), Some(0x1234));
    assert!(!slot.set_pointer(0x5678));
    assert!(!slot.set_pointer(0));
    assert_eq!(slot.current_module(), Some(0x1234));
}

#[test]
fn entry_points_without_a_module_report_failure() {
    let mut slot: ModuleSlot<TestModule> = ModuleSlot::new();
    assert!(!slot.load());
    assert!(!slot.post_load());
    assert!(!slot.unload());
    assert!(slot.load_context().is_none());
}

#[test]
fn load_keeps_the_descriptors_until_unload() {
    let mut slot: ModuleSlot<TestModule> = ModuleSlot::new();
    assert!(slot.set_pointer(0x1234));
    assert!(slot.load_context().is_none());
    assert!(slot.load());
    {
        let context = slot.load_context().unwrap();
        assert_eq!((context.source_count(), context.output_count()), (1, 1));
        let d = context.source(0).as_ref();
        assert_eq!(d.get_name, Some(SourceCallback::GetName));
        assert_eq!(d.update, Some(SourceCallback::Update));
        assert_eq!(d.video_render, None);
        assert_eq!(d.id, ObsString::from_nul_terminted_str("test_source\0"));
    }
    assert!(!slot.load());
    assert_eq!(slot.load_context().unwrap().source_count(), 1);
    assert!(slot.post_load());
    assert!(slot.unload());
    assert!(slot.load_context().is_none());
    assert_eq!(slot.current_module(), Some(0x1234));
    assert!(slot.unload());
}

#[test]
fn load_hands_on_what_the_module_returns() {
    let mut slot: ModuleSlot<TestModule> = ModuleSlot::new();
    assert!(slot.set_pointer(0xbad));
    assert!(!slot.load());
    assert_eq!(slot.load_context().unwrap().source_count(), 1);
}

#[test]
fn module_metadata() {
    assert_eq!(TestModule::name().to_text(), "Test Module");
    assert_eq!(TestModule::author().to_text(), "Bennett");
    assert_eq!(TestModule::description().to_text(), "A great test module.");
}
