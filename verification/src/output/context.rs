use vstd::prelude::*;

use crate::data::DataObj;
use crate::result::{Error, Result};
use crate::string::ObsString;
use crate::wrapper::{
    refs_given, with_ref, with_refs, without_ref, NativeObjects, PtrWrapper, PtrWrapperInternal,
};

verus! {

/// A reference to an output of the host.
///
/// The host counts the references on an output. Making an `OutputRef` from
/// an address takes one, cloning takes another, and each handle gives its
/// reference back when it is released.
#[derive(Debug)]
pub struct OutputRef {
    inner: usize,
}

pub type OutputContext = OutputRef;

impl PtrWrapper for OutputRef {
    closed spec fn addr(&self) -> usize {
        self.inner
    }

    open spec fn counted() -> bool {
        true
    }

    fn get_ref(objects: &mut NativeObjects, ptr: usize) -> (r: usize) {
        objects.get_ref(ptr)
    }

    fn release(objects: &mut NativeObjects, ptr: usize) {
        objects.release(ptr);
    }

    fn from_raw_unchecked(raw: usize) -> (r: Option<Self>) {
        if raw == 0 {
            None
        } else {
            Some(Self { inner: raw })
        }
    }

    fn as_ptr(&self) -> (r: usize) {
        self.inner
    }
}

impl PtrWrapperInternal for OutputRef {
    fn new_internal(ptr: usize) -> (r: Self) {
        Self { inner: ptr }
    }

    fn get_internal(&self) -> (r: usize) {
        self.inner
    }
}

impl OutputRef {
    /// Wraps the address that the host returned for an output it was asked
    /// to make. The output comes with one reference, which the handle takes
    /// over. A null address is an error.
    pub fn new(raw: usize) -> (r: Result<Self>)
        ensures
            r is Ok <==> raw != 0,
            r matches Ok(output) ==> output.addr() == raw,
            r matches Err(e) ==> e == Error::NulPointer("obs_output_create"),
    {
        match Self::from_raw_unchecked(raw) {
            Some(output) => Ok(output),
            None => Err(Error::NulPointer("obs_output_create")),
        }
    }

    /// Handles on the outputs that the host lists in `raws`. The host lists
    /// addresses without giving references, so every handle takes its own;
    /// an address whose output is gone by then is left out.
    pub fn all_outputs(objects: &mut NativeObjects, raws: &Vec<usize>) -> (r: Vec<Self>)
        requires
            old(objects).wf(),
        ensures
            final(objects).wf(),
            final(objects)@ == with_refs(old(objects)@, raws@),
            r@.len() == refs_given(old(objects)@, raws@).len(),
            forall|i: int|
                0 <= i < r@.len() ==> (#[trigger] r@[i]).addr() == refs_given(
                    old(objects)@,
                    raws@,
                )[i],
    {
        let mut outputs: Vec<Self> = Vec::new();
        let mut i: usize = 0;
        while i < raws.len()
            invariant
                i <= raws@.len(),
                objects.wf(),
                objects@ == with_refs(old(objects)@, raws@.take(i as int)),
                outputs@.len() == refs_given(old(objects)@, raws@.take(i as int)).len(),
                forall|k: int|
                    0 <= k < outputs@.len() ==> (#[trigger] outputs@[k]).addr() == refs_given(
                        old(objects)@,
                        raws@.take(i as int),
                    )[k],
            decreases raws@.len() - i,
        {
            proof {
                let next = raws@.take(i + 1);
                assert(next.drop_last() =~= raws@.take(i as int));
                assert(next.last() == raws@[i as int]);
            }
            match Self::from_raw(objects, raws[i]) {
                Some(output) => {
                    outputs.push(output);
                },
                None => {},
            }
            i += 1;
        }
        assert(raws@.take(i as int) =~= raws@);
        outputs
    }

    /// A second handle on the same output, with a reference of its own.
    /// Nothing comes back where the output is gone or its count cannot grow.
    pub fn clone_ref(&self, objects: &mut NativeObjects) -> (r: Option<Self>)
        requires
            old(objects).wf(),
        ensures
            final(objects).wf(),
            final(objects)@ == with_ref(old(objects)@, self.addr()),
            r is Some <==> old(objects)@.contains_key(self.addr()) && old(objects)@[self.addr()]
                < u64::MAX,
            r matches Some(other) ==> other.addr() == self.addr(),
    {
        Self::from_raw(objects, self.inner)
    }

    /// Ends the handle and gives its reference back to the host.
    pub fn release_ref(self, objects: &mut NativeObjects)
        requires
            old(objects).wf(),
        ensures
            final(objects).wf(),
            final(objects)@ == without_ref(old(objects)@, self.addr()),
    {
        Self::release(objects, self.inner);
    }
}

/// What an output is given while it creates an instance: the settings of
/// the new instance and a way to ask for hotkeys.
pub struct CreatableOutputContext<'a, C> {
    hotkey_callbacks: Vec<(ObsString, ObsString, C)>,
    settings: &'a DataObj,
}

impl<'a, C> CreatableOutputContext<'a, C> {
    /// The hotkeys asked for so far, in the order of the requests.
    pub closed spec fn hotkeys(&self) -> Seq<(ObsString, ObsString, C)> {
        self.hotkey_callbacks@
    }

    /// The settings of the new instance.
    pub closed spec fn spec_settings(&self) -> DataObj {
        *self.settings
    }

    /// A context over `settings` in which no hotkey has been asked for.
    pub fn from_raw(settings: &'a DataObj) -> (r: Self)
        ensures
            r.hotkeys() == Seq::<(ObsString, ObsString, C)>::empty(),
            r.spec_settings() == *settings,
    {
        Self { hotkey_callbacks: Vec::new(), settings }
    }

    /// The settings of the new instance.
    pub fn settings(&self) -> (r: &'a DataObj)
        ensures
            *r == self.spec_settings(),
    {
        self.settings
    }

    /// Asks for a hotkey. The host registers it once the instance exists.
    pub fn register_hotkey(&mut self, name: ObsString, description: ObsString, func: C)
        ensures
            final(self).hotkeys() == old(self).hotkeys().push((name, description, func)),
            final(self).spec_settings() == old(self).spec_settings(),
    {
        self.hotkey_callbacks.push((name, description, func));
    }

    /// Ends the context and hands over the hotkeys that were asked for.
    pub fn into_callbacks(self) -> (r: Vec<(ObsString, ObsString, C)>)
        ensures
            r@ == self.hotkeys(),
    {
        self.hotkey_callbacks
    }
}

} // verus!
