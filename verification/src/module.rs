use vstd::prelude::*;

use crate::output::{OutputDescriptor, OutputInfo, OutputInfoBuilder, Outputable};
use crate::result::{Error, Result};
use crate::source::{SourceDescriptor, SourceInfo, SourceInfoBuilder, Sourceable};
use crate::string::ObsString;

verus! {

/// The host's record of a loaded module, by its address. The handle
/// observes the record and does not own it: making one takes no reference
/// and ending one releases nothing, so it must not be kept beyond the
/// unloading of the module.
#[derive(Debug, Clone, Copy, PartialEq, Eq, Structural)]
pub struct ModuleRef {
    raw: usize,
}

pub type ModuleContext = ModuleRef;

impl ModuleRef {
    /// The address of the record.
    pub closed spec fn addr(&self) -> usize {
        self.raw
    }

    /// Wraps the address of the host's record; a null address is an error.
    pub fn from_raw(raw: usize) -> (r: Result<Self>)
        ensures
            r is Ok <==> raw != 0,
            r matches Ok(module) ==> module.addr() == raw,
            r matches Err(e) ==> e == Error::NulPointer("obs_module_t"),
    {
        if raw == 0 {
            Err(Error::NulPointer("obs_module_t"))
        } else {
            Ok(Self { raw })
        }
    }

    /// Two handles on the same record are the same handle.
    pub proof fn lemma_same_record(self, other: ModuleRef)
        requires
            self.addr() == other.addr(),
        ensures
            self == other,
    {
    }

    /// The address of the host's record.
    #[verifier::when_used_as_spec(addr)]
    pub fn get_raw(&self) -> (r: usize)
        ensures
            r == self.addr(),
    {
        self.raw
    }
}

/// What a module is given while it loads: the way to make descriptors and
/// to register them. The context owns every registered descriptor from
/// then until the module is unloaded.
pub struct LoadContext {
    sources: Vec<SourceInfo>,
    outputs: Vec<OutputInfo>,
}

impl LoadContext {
    /// The descriptors of the registered sources, in the order of their
    /// registration.
    pub closed spec fn sources(&self) -> Seq<SourceDescriptor> {
        Seq::new(self.sources@.len(), |i: int| self.sources@[i]@)
    }

    /// The descriptors of the registered outputs, in the order of their
    /// registration.
    pub closed spec fn outputs(&self) -> Seq<OutputDescriptor> {
        Seq::new(self.outputs@.len(), |i: int| self.outputs@[i]@)
    }

    /// A context in which nothing is registered.
    pub fn new() -> (r: LoadContext)
        ensures
            r.sources() == Seq::<SourceDescriptor>::empty(),
            r.outputs() == Seq::<OutputDescriptor>::empty(),
    {
        let r = LoadContext { sources: Vec::new(), outputs: Vec::new() };
        assert(r.sources() =~= Seq::<SourceDescriptor>::empty());
        assert(r.outputs() =~= Seq::<OutputDescriptor>::empty());
        r
    }

    /// Starts the descriptor of the source type `D`.
    pub fn create_source_builder<D: Sourceable>(&self) -> (r: SourceInfoBuilder<D>)
        ensures
            D::on_get_id(r.info().id),
            D::on_get_type(r.info().type_),
            r.info() == SourceDescriptor::initial(r.info().id, r.info().type_),
    {
        SourceInfoBuilder::new()
    }

    /// Starts the descriptor of the output type `D`.
    pub fn create_output_builder<D: Outputable>(&self) -> (r: OutputInfoBuilder<D>)
        ensures
            D::on_get_id(r.info().id),
            r.info() == OutputDescriptor::initial(r.info().id),
    {
        OutputInfoBuilder::new()
    }

    /// Registers a finished source descriptor.
    pub fn register_source(&mut self, source: SourceInfo)
        ensures
            final(self).sources() == old(self).sources().push(source@),
            final(self).outputs() == old(self).outputs(),
    {
        self.sources.push(source);
        assert(self.sources() =~= old(self).sources().push(source@));
        assert(self.outputs() =~= old(self).outputs());
    }

    /// Registers a finished output descriptor.
    pub fn register_output(&mut self, output: OutputInfo)
        ensures
            final(self).outputs() == old(self).outputs().push(output@),
            final(self).sources() == old(self).sources(),
    {
        self.outputs.push(output);
        assert(self.outputs() =~= old(self).outputs().push(output@));
        assert(self.sources() =~= old(self).sources());
    }

    /// The number of registered sources.
    pub fn source_count(&self) -> (r: usize)
        ensures
            r == self.sources().len(),
    {
        self.sources.len()
    }

    /// The number of registered outputs.
    pub fn output_count(&self) -> (r: usize)
        ensures
            r == self.outputs().len(),
    {
        self.outputs.len()
    }

    /// The `index`-th registered source.
    pub fn source(&self, index: usize) -> (r: &SourceInfo)
        requires
            index < self.sources().len(),
        ensures
            r@ == self.sources()[index as int],
    {
        &self.sources[index]
    }

    /// The `index`-th registered output.
    pub fn output(&self, index: usize) -> (r: &OutputInfo)
        requires
            index < self.outputs().len(),
        ensures
            r@ == self.outputs()[index as int],
    {
        &self.outputs[index]
    }
}

/// A module: what the host loads, and what registers the unit types.
///
/// As for the capability traits, each method comes with a relation, named
/// after it, that says what a call may do; a module that leaves a relation
/// as it is says nothing of the method.
pub trait Module: Sized {
    /// What `new` may return for the host's record `ctx`.
    open spec fn on_new(ctx: ModuleRef, module: Self) -> bool {
        true
    }

    /// What one call of `load` may do: `pre` is the module before the call
    /// and `post` after it, `sources` and `outputs` are what it registered,
    /// `result` is what it returned.
    open spec fn on_load(
        pre: Self,
        post: Self,
        sources: Seq<SourceDescriptor>,
        outputs: Seq<OutputDescriptor>,
        result: bool,
    ) -> bool {
        true
    }

    /// What one call of `unload` may do.
    open spec fn on_unload(pre: Self, post: Self) -> bool {
        true
    }

    /// What one call of `post_load` may do.
    open spec fn on_post_load(pre: Self, post: Self) -> bool {
        true
    }

    /// What `get_ctx` may return for `module`.
    open spec fn on_get_ctx(module: Self, ctx: ModuleRef) -> bool {
        true
    }

    /// Makes the module for the host's record `ctx`.
    fn new(ctx: ModuleRef) -> (module: Self)
        ensures
            Self::on_new(ctx, module),
    ;

    /// The host's record that the module was made for.
    fn get_ctx(&self) -> (ctx: &ModuleRef)
        ensures
            Self::on_get_ctx(*self, *ctx),
    ;

    /// Registers the unit types of the module. Says whether the module
    /// could load.
    fn load(&mut self, load_context: &mut LoadContext) -> (result: bool)
        requires
            old(load_context).sources().len() == 0,
            old(load_context).outputs().len() == 0,
        ensures
            Self::on_load(
                *old(self),
                *final(self),
                final(load_context).sources(),
                final(load_context).outputs(),
                result,
            ),
    ;

    fn unload(&mut self)
        ensures
            Self::on_unload(*old(self), *final(self)),
    ;

    fn post_load(&mut self)
        ensures
            Self::on_post_load(*old(self), *final(self)),
    ;

    fn description() -> ObsString;

    fn name() -> ObsString;

    fn author() -> ObsString;
}

/// The one place of a loaded plugin that holds its module.
///
/// The host drives it through its entry points, in this order:
/// [`set_pointer`](ModuleSlot::set_pointer) once, which makes the module;
/// [`load`](ModuleSlot::load); [`post_load`](ModuleSlot::post_load); and
/// [`unload`](ModuleSlot::unload) at the end. The module is written once
/// and only read afterwards. What `load` registered belongs to the slot
/// until `unload`.
pub struct ModuleSlot<M: Module> {
    module: Option<M>,
    load_context: Option<LoadContext>,
}

impl<M: Module> ModuleSlot<M> {
    /// The module, once it is made.
    pub closed spec fn module(&self) -> Option<M> {
        self.module
    }

    /// Whether the module is loaded and not yet unloaded.
    pub closed spec fn is_loaded(&self) -> bool {
        self.load_context is Some
    }

    /// The source descriptors that the slot owns: those that `load`
    /// registered, until `unload`.
    pub closed spec fn sources(&self) -> Seq<SourceDescriptor> {
        match self.load_context {
            Some(context) => context.sources(),
            None => Seq::empty(),
        }
    }

    /// The output descriptors that the slot owns.
    pub closed spec fn outputs(&self) -> Seq<OutputDescriptor> {
        match self.load_context {
            Some(context) => context.outputs(),
            None => Seq::empty(),
        }
    }

    /// A slot without a module.
    pub fn new() -> (r: Self)
        ensures
            r.module() is None,
            !r.is_loaded(),
            r.sources() == Seq::<SourceDescriptor>::empty(),
            r.outputs() == Seq::<OutputDescriptor>::empty(),
    {
        ModuleSlot { module: None, load_context: None }
    }

    /// Makes the module for the host's record at `raw`, and says whether
    /// it did. The slot is written once: with a module in it, or for a null
    /// address, nothing is made and nothing changes.
    pub fn set_pointer(&mut self, raw: usize) -> (set: bool)
        ensures
            set == (old(self).module() is None && raw != 0),
            set ==> final(self).module() is Some && exists|ctx: ModuleRef|
                ctx.addr() == raw && #[trigger] M::on_new(ctx, final(self).module()->0),
            !set ==> final(self).module() == old(self).module(),
            final(self).is_loaded() == old(self).is_loaded(),
            final(self).sources() == old(self).sources(),
            final(self).outputs() == old(self).outputs(),
    {
        if self.module.is_some() {
            return false;
        }
        match ModuleRef::from_raw(raw) {
            Ok(ctx) => {
                let module = M::new(ctx);
                let ghost made = module;
                self.module = Some(module);
                assert(ctx.addr() == raw && M::on_new(ctx, self.module()->0)) by {
                    assert(self.module() == Some(made));
                }
                true
            },
            Err(_) => false,
        }
    }

    /// The address of the host's record of the module; nothing before the
    /// module is made.
    pub fn current_module(&self) -> (r: Option<usize>)
        ensures
            r is Some <==> self.module() is Some,
            r matches Some(raw) ==> exists|ctx: ModuleRef|
                ctx.addr() == raw && #[trigger] M::on_get_ctx(self.module()->0, ctx),
    {
        match &self.module {
            Some(module) => {
                let ctx = module.get_ctx();
                assert(M::on_get_ctx(*module, *ctx));
                Some(ctx.get_raw())
            },
            None => None,
        }
    }

    /// Loads the module: calls its `load` with a fresh context and keeps
    /// what it registered. Hands on what `load` returned, and `false`,
    /// with nothing called, where there is no module or the module is
    /// loaded already.
    pub fn load(&mut self) -> (result: bool)
        ensures
            old(self).module() is None || old(self).is_loaded() ==> !result && final(self).module()
                == old(self).module() && final(self).is_loaded() == old(self).is_loaded()
                && final(self).sources() == old(self).sources() && final(self).outputs() == old(
                self,
            ).outputs(),
            old(self).module() is Some && !old(self).is_loaded() ==> {
                &&& final(self).module() is Some
                &&& final(self).is_loaded()
                &&& M::on_load(
                    old(self).module()->0,
                    final(self).module()->0,
                    final(self).sources(),
                    final(self).outputs(),
                    result,
                )
            },
    {
        if self.load_context.is_some() {
            return false;
        }
        let result = match &mut self.module {
            Some(module) => {
                let mut context = LoadContext::new();
                let result = module.load(&mut context);
                self.load_context = Some(context);
                result
            },
            None => false,
        };
        result
    }

    /// Calls the module's `post_load`, and says whether there was a module
    /// to call.
    pub fn post_load(&mut self) -> (called: bool)
        ensures
            called == old(self).module() is Some,
            called ==> final(self).module() is Some && M::on_post_load(
                old(self).module()->0,
                final(self).module()->0,
            ),
            !called ==> final(self).module() is None,
            final(self).is_loaded() == old(self).is_loaded(),
            final(self).sources() == old(self).sources(),
            final(self).outputs() == old(self).outputs(),
    {
        match &mut self.module {
            Some(module) => {
                module.post_load();
                true
            },
            None => false,
        }
    }

    /// Calls the module's `unload` and gives up every descriptor that
    /// `load` registered. Says whether there was a module to call.
    pub fn unload(&mut self) -> (called: bool)
        ensures
            called == old(self).module() is Some,
            called ==> final(self).module() is Some && M::on_unload(
                old(self).module()->0,
                final(self).module()->0,
            ),
            !called ==> final(self).module() is None,
            !final(self).is_loaded(),
            final(self).sources() == Seq::<SourceDescriptor>::empty(),
            final(self).outputs() == Seq::<OutputDescriptor>::empty(),
    {
        self.load_context = None;
        match &mut self.module {
            Some(module) => {
                module.unload();
                true
            },
            None => false,
        }
    }

    /// What `load` registered, while the module is loaded.
    pub fn load_context(&self) -> (r: Option<&LoadContext>)
        ensures
            r is Some <==> self.is_loaded(),
            r matches Some(context) ==> context.sources() == self.sources() && context.outputs()
                == self.outputs(),
    {
        self.load_context.as_ref()
    }
}

} // verus!
