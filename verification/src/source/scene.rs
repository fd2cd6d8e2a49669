use vstd::prelude::*;

use crate::wrapper::{with_ref, without_ref, NativeObjects, PtrWrapper, PtrWrapperInternal};

verus! {

/// A reference to a scene of the host, counted like a [`SourceRef`](super::SourceRef).
#[derive(Debug)]
pub struct SceneRef {
    inner: usize,
}

impl PtrWrapper for SceneRef {
    closed spec fn addr(&self) -> usize {
        self.inner
    }

    open spec fn counted() -> bool {
        true
    }

    fn get_ref(objects: &mut NativeObjects, ptr: usize) -> (r: usize) {
        objects.get_ref(ptr)
    }

    fn release(objects: &mut NativeObjects, ptr: usize) {
        objects.release(ptr);
    }

    fn from_raw_unchecked(raw: usize) -> (r: Option<Self>) {
        if raw == 0 {
            None
        } else {
            Some(Self { inner: raw })
        }
    }

    fn as_ptr(&self) -> (r: usize) {
        self.inner
    }
}

impl PtrWrapperInternal for SceneRef {
    fn new_internal(ptr: usize) -> (r: Self) {
        Self { inner: ptr }
    }

    fn get_internal(&self) -> (r: usize) {
        self.inner
    }
}

impl SceneRef {
    /// A second handle on the same scene, with a reference of its own.
    /// Nothing comes back where the scene is gone or its count cannot grow.
    pub fn clone_ref(&self, objects: &mut NativeObjects) -> (r: Option<Self>)
        requires
            old(objects).wf(),
        ensures
            final(objects).wf(),
            final(objects)@ == with_ref(old(objects)@, self.addr()),
            r is Some <==> old(objects)@.contains_key(self.addr()) && old(objects)@[self.addr()]
                < u64::MAX,
            r matches Some(other) ==> other.addr() == self.addr(),
    {
        Self::from_raw(objects, self.inner)
    }
}

impl SceneRef {
    /// Ends the handle and gives its reference back to the host.
    pub fn release_ref(self, objects: &mut NativeObjects)
        requires
            old(objects).wf(),
        ensures
            final(objects).wf(),
            final(objects)@ == without_ref(old(objects)@, self.addr()),
    {
        Self::release(objects, self.inner);
    }
}

/// A reference to an item of a scene, counted like a [`SourceRef`](super::SourceRef).
#[derive(Debug)]
pub struct SceneItemRef {
    inner: usize,
}

impl PtrWrapper for SceneItemRef {
    closed spec fn addr(&self) -> usize {
        self.inner
    }

    open spec fn counted() -> bool {
        true
    }

    fn get_ref(objects: &mut NativeObjects, ptr: usize) -> (r: usize) {
        objects.get_ref(ptr)
    }

    fn release(objects: &mut NativeObjects, ptr: usize) {
        objects.release(ptr);
    }

    fn from_raw_unchecked(raw: usize) -> (r: Option<Self>) {
        if raw == 0 {
            None
        } else {
            Some(Self { inner: raw })
        }
    }

    fn as_ptr(&self) -> (r: usize) {
        self.inner
    }
}

impl PtrWrapperInternal for SceneItemRef {
    fn new_internal(ptr: usize) -> (r: Self) {
        Self { inner: ptr }
    }

    fn get_internal(&self) -> (r: usize) {
        self.inner
    }
}

impl SceneItemRef {
    /// A second handle on the same item, with a reference of its own.
    /// Nothing comes back where the item is gone or its count cannot grow.
    pub fn clone_ref(&self, objects: &mut NativeObjects) -> (r: Option<Self>)
        requires
            old(objects).wf(),
        ensures
            final(objects).wf(),
            final(objects)@ == with_ref(old(objects)@, self.addr()),
            r is Some <==> old(objects)@.contains_key(self.addr()) && old(objects)@[self.addr()]
                < u64::MAX,
            r matches Some(other) ==> other.addr() == self.addr(),
    {
        Self::from_raw(objects, self.inner)
    }
}

impl SceneItemRef {
    /// Ends the handle and gives its reference back to the host.
    pub fn release_ref(self, objects: &mut NativeObjects)
        requires
            old(objects).wf(),
        ensures
            final(objects).wf(),
            final(objects)@ == without_ref(old(objects)@, self.addr()),
    {
        Self::release(objects, self.inner);
    }
}

} // verus!
