use std::collections::HashMap;
use vstd::prelude::*;

verus! {

broadcast use vstd::std_specs::hash::group_hash_axioms;

/// The host's objects of one kind: for every live object, by its address,
/// the number of references that are held on it.
///
/// An object lives as long as somebody holds a reference. The host removes
/// it when the last reference is released; no handle decides that.
pub struct NativeObjects {
    counts: HashMap<usize, u64>,
}

impl View for NativeObjects {
    type V = Map<usize, u64>;

    closed spec fn view(&self) -> Map<usize, u64> {
        self.counts@
    }
}

/// The ledger after one more reference was taken on `ptr`.
pub open spec fn with_ref(objects: Map<usize, u64>, ptr: usize) -> Map<usize, u64> {
    if objects.contains_key(ptr) && objects[ptr] < u64::MAX {
        objects.insert(ptr, (objects[ptr] + 1) as u64)
    } else {
        objects
    }
}

/// The ledger after one reference on `ptr` was released.
pub open spec fn without_ref(objects: Map<usize, u64>, ptr: usize) -> Map<usize, u64> {
    if !objects.contains_key(ptr) {
        objects
    } else if objects[ptr] <= 1 {
        objects.remove(ptr)
    } else {
        objects.insert(ptr, (objects[ptr] - 1) as u64)
    }
}

/// The ledger after a reference was taken on each address of `raws`, in
/// their order.
pub open spec fn with_refs(objects: Map<usize, u64>, raws: Seq<usize>) -> Map<usize, u64>
    decreases raws.len(),
{
    if raws.len() == 0 {
        objects
    } else {
        with_ref(with_refs(objects, raws.drop_last()), raws.last())
    }
}

/// Those addresses of `raws`, in their order, on which a reference could
/// be taken when references are taken on all of them in turn.
pub open spec fn refs_given(objects: Map<usize, u64>, raws: Seq<usize>) -> Seq<usize>
    decreases raws.len(),
{
    if raws.len() == 0 {
        Seq::empty()
    } else {
        let before = with_refs(objects, raws.drop_last());
        let rest = refs_given(objects, raws.drop_last());
        if before.contains_key(raws.last()) && before[raws.last()] < u64::MAX {
            rest.push(raws.last())
        } else {
            rest
        }
    }
}

impl NativeObjects {
    /// No object sits at the null address, and every live object is
    /// referenced.
    pub open spec fn wf(&self) -> bool {
        &&& !self@.contains_key(0)
        &&& forall|p: usize| self@.contains_key(p) ==> self@[p] >= 1
    }

    /// The number of references held on the object at `ptr`: zero where no
    /// object lives.
    pub open spec fn refs(&self, ptr: usize) -> nat {
        if self@.contains_key(ptr) {
            self@[ptr] as nat
        } else {
            0
        }
    }

    pub fn new() -> (r: Self)
        ensures
            r@ == Map::<usize, u64>::empty(),
            r.wf(),
    {
        NativeObjects { counts: HashMap::new() }
    }

    /// Whether an object lives at `ptr`.
    pub fn contains(&self, ptr: usize) -> (r: bool)
        ensures
            r == self@.contains_key(ptr),
    {
        self.counts.contains_key(&ptr)
    }

    /// The number of references held on the object at `ptr`.
    pub fn count(&self, ptr: usize) -> (r: u64)
        ensures
            r == self.refs(ptr),
    {
        match self.counts.get(&ptr) {
            Some(n) => *n,
            None => 0,
        }
    }

    /// Records an object that the host has just created at `ptr`, with the
    /// one reference that its creator holds. Refused, with nothing changed,
    /// for the null address and for an address that is in use.
    pub fn create(&mut self, ptr: usize) -> (ok: bool)
        requires
            old(self).wf(),
        ensures
            final(self).wf(),
            ok == (ptr != 0 && !old(self)@.contains_key(ptr)),
            ok ==> final(self)@ == old(self)@.insert(ptr, 1),
            !ok ==> final(self)@ == old(self)@,
    {
        if ptr == 0 || self.counts.contains_key(&ptr) {
            return false;
        }
        self.counts.insert(ptr, 1);
        true
    }

    /// Takes one more reference on the object at `ptr` and returns `ptr`.
    /// Returns null, with nothing changed, where no object lives at `ptr`
    /// or its count cannot grow.
    pub fn get_ref(&mut self, ptr: usize) -> (r: usize)
        requires
            old(self).wf(),
        ensures
            final(self).wf(),
            final(self)@ == with_ref(old(self)@, ptr),
            r == if old(self)@.contains_key(ptr) && old(self)@[ptr] < u64::MAX {
                ptr
            } else {
                0
            },
    {
        let n = self.count(ptr);
        if n == 0 || n == u64::MAX {
            return 0;
        }
        self.counts.insert(ptr, n + 1);
        ptr
    }

    /// Releases one reference on the object at `ptr`; the object goes with
    /// its last reference. Tells whether there was a reference to release.
    pub fn release(&mut self, ptr: usize) -> (released: bool)
        requires
            old(self).wf(),
        ensures
            final(self).wf(),
            final(self)@ == without_ref(old(self)@, ptr),
            released == old(self)@.contains_key(ptr),
    {
        let n = self.count(ptr);
        if n == 0 {
            return false;
        }
        if n == 1 {
            self.counts.remove(&ptr);
        } else {
            self.counts.insert(ptr, n - 1);
        }
        true
    }
}

/// Taking a reference and releasing it again leaves every count as it was.
pub proof fn lemma_ref_then_release(objects: Map<usize, u64>, ptr: usize)
    requires
        forall|p: usize| objects.contains_key(p) ==> objects[p] >= 1,
    ensures
        objects.contains_key(ptr) && objects[ptr] < u64::MAX ==> without_ref(
            with_ref(objects, ptr),
            ptr,
        ) == objects,
{
    if objects.contains_key(ptr) && objects[ptr] < u64::MAX {
        assert(without_ref(with_ref(objects, ptr), ptr) =~= objects);
    }
}

/// A handle on one object of the host, by its address.
///
/// The three ways to hold an object differ in `COUNTED` and in who calls
/// `release`. A counted handle takes a reference of its own when it is made
/// from an address or cloned, and gives it back when it is released. An
/// owning handle takes over the one reference of a fresh object and
/// releases it. A weak handle does neither, and is not a `PtrWrapper`.
pub trait PtrWrapper: Sized {
    /// The address of the object.
    spec fn addr(&self) -> usize;

    /// Whether making a handle from an address takes a reference.
    spec fn counted() -> bool;

    /// Takes the reference that a new handle on `ptr` needs and returns the
    /// address to wrap: null where the object is gone.
    fn get_ref(objects: &mut NativeObjects, ptr: usize) -> (r: usize)
        requires
            old(objects).wf(),
        ensures
            final(objects).wf(),
            Self::counted() ==> final(objects)@ == with_ref(old(objects)@, ptr) && r == (if old(
                objects,
            )@.contains_key(ptr) && old(objects)@[ptr] < u64::MAX {
                ptr
            } else {
                0
            }),
            !Self::counted() ==> final(objects)@ == old(objects)@ && r == ptr,
    ;

    /// Gives back the reference of a handle on `ptr`.
    fn release(objects: &mut NativeObjects, ptr: usize)
        requires
            old(objects).wf(),
        ensures
            final(objects).wf(),
            final(objects)@ == without_ref(old(objects)@, ptr),
    ;

    /// Wraps the address `raw`, taking a reference where the handle is
    /// counted. Nothing comes back for null or for an object that is gone.
    fn from_raw(objects: &mut NativeObjects, raw: usize) -> (r: Option<Self>)
        requires
            old(objects).wf(),
        ensures
            final(objects).wf(),
            Self::counted() ==> final(objects)@ == with_ref(old(objects)@, raw) && (r is Some
                <==> old(objects)@.contains_key(raw) && old(objects)@[raw] < u64::MAX),
            !Self::counted() ==> final(objects)@ == old(objects)@ && (r is Some <==> raw != 0),
            r matches Some(w) ==> w.addr() == raw,
    {
        let ptr = Self::get_ref(objects, raw);
        Self::from_raw_unchecked(ptr)
    }

    /// Wraps an address whose reference the caller already holds.
    fn from_raw_unchecked(raw: usize) -> (r: Option<Self>)
        ensures
            r is Some <==> raw != 0,
            r matches Some(w) ==> w.addr() == raw,
    ;

    /// The address of the object.
    fn as_ptr(&self) -> (r: usize)
        ensures
            r == self.addr(),
    ;

    /// Gives up the handle without releasing its reference, which passes
    /// to whoever takes the address.
    fn into_raw(self) -> (r: usize)
        ensures
            r == self.addr(),
    {
        self.as_ptr()
    }

    /// The address of the object, for calls that change it.
    fn as_ptr_mut(&self) -> (r: usize)
        ensures
            r == self.addr(),
    {
        self.as_ptr()
    }
}

/// The inside of a handle: how it is made from an address and read back.
pub trait PtrWrapperInternal: PtrWrapper {
    fn new_internal(ptr: usize) -> (r: Self)
        ensures
            r.addr() == ptr,
    ;

    fn get_internal(&self) -> (r: usize)
        ensures
            r == self.addr(),
    ;
}

} // verus!
