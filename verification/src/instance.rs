use std::collections::HashMap;
use vstd::prelude::*;

use crate::hotkey::{Hotkey, HotkeyCallback};
use crate::string::ObsString;

verus! {

broadcast use vstd::std_specs::hash::group_hash_axioms;

/// What the bridge keeps for one running instance of a unit: the unit's own
/// state, the callbacks of its registered hotkeys by the ids that the host
/// issued, and the hotkeys that it asked for and that the host has not
/// registered yet.
pub struct DataWrapper<D, C> {
    pub(crate) data: D,
    pub(crate) hotkey_callbacks: HashMap<u64, C>,
    pub(crate) queued: Vec<(ObsString, ObsString, C)>,
}

/// A [`DataWrapper`] as a plain value.
pub ghost struct InstanceView<D, C> {
    pub data: D,
    pub hotkeys: Map<u64, C>,
    pub queued: Seq<(ObsString, ObsString, C)>,
}

impl<D, C> View for DataWrapper<D, C> {
    type V = InstanceView<D, C>;

    open(crate) spec fn view(&self) -> InstanceView<D, C> {
        InstanceView { data: self.data, hotkeys: self.hotkey_callbacks@, queued: self.queued@ }
    }
}

/// The callbacks by id once the host has issued `ids`, in the order of the
/// requests, for the hotkeys in `queued`. Where the host issues an id
/// twice, the later request has it.
pub open spec fn register_all<C>(
    hotkeys: Map<u64, C>,
    ids: Seq<u64>,
    queued: Seq<(ObsString, ObsString, C)>,
) -> Map<u64, C>
    decreases queued.len(),
{
    if queued.len() == 0 || ids.len() == 0 {
        hotkeys
    } else {
        register_all(hotkeys.insert(ids[0], queued[0].2), ids.drop_first(), queued.drop_first())
    }
}

impl<D, C> DataWrapper<D, C> {
    /// Wraps the state of a fresh instance: no hotkey is registered, and
    /// `queued` waits for the host.
    pub fn new(data: D, queued: Vec<(ObsString, ObsString, C)>) -> (r: Self)
        ensures
            r@ == (InstanceView { data, hotkeys: Map::<u64, C>::empty(), queued: queued@ }),
    {
        DataWrapper { data, hotkey_callbacks: HashMap::new(), queued }
    }

    /// The unit's own state.
    pub fn data(&self) -> (r: &D)
        ensures
            *r == self@.data,
    {
        &self.data
    }

    /// The hotkeys that wait to be registered with the host.
    pub fn queued(&self) -> (r: &Vec<(ObsString, ObsString, C)>)
        ensures
            r@ == self@.queued,
    {
        &self.queued
    }

    /// Whether a callback is stored under `id`.
    pub fn has_hotkey(&self, id: u64) -> (r: bool)
        ensures
            r == self@.hotkeys.contains_key(id),
    {
        self.hotkey_callbacks.contains_key(&id)
    }

    /// The number of registered hotkeys.
    pub fn hotkey_count(&self) -> (r: usize)
        ensures
            r == self@.hotkeys.len(),
    {
        self.hotkey_callbacks.len()
    }

    /// Gives the state back and drops the rest.
    pub fn into_data(self) -> (r: D)
        ensures
            r == self@.data,
    {
        self.data
    }

    /// Stores the callback of every waiting hotkey under the id that the
    /// host issued for it: `ids` holds the ids in the order of the requests.
    /// Refused, with nothing changed, unless there is one id per request.
    pub fn register_callbacks(&mut self, ids: &Vec<u64>) -> (ok: bool)
        ensures
            ok == (ids@.len() == old(self)@.queued.len()),
            ok ==> final(self)@ == (InstanceView {
                hotkeys: register_all(old(self)@.hotkeys, ids@, old(self)@.queued),
                queued: Seq::<(ObsString, ObsString, C)>::empty(),
                ..old(self)@
            }),
            !ok ==> final(self)@ == old(self)@,
    {
        if ids.len() != self.queued.len() {
            return false;
        }
        let mut i: usize = 0;
        assert(ids@.skip(0) =~= ids@);
        while i < ids.len()
            invariant
                i <= ids@.len(),
                self.queued@.len() == ids@.len() - i,
                self@.data == old(self)@.data,
                register_all(self@.hotkeys, ids@.skip(i as int), self@.queued) == register_all(
                    old(self)@.hotkeys,
                    ids@,
                    old(self)@.queued,
                ),
            decreases ids@.len() - i,
        {
            let ghost before = self@;
            let entry = self.queued.remove(0);
            self.hotkey_callbacks.insert(ids[i], entry.2);
            proof {
                let rest = ids@.skip(i as int);
                assert(rest[0] == ids@[i as int]);
                assert(rest.drop_first() =~= ids@.skip(i + 1));
                assert(before.queued.drop_first() =~= self@.queued);
            }
            i += 1;
        }
        assert(self@.queued =~= Seq::<(ObsString, ObsString, C)>::empty());
        true
    }
}

impl<D, C: HotkeyCallback<D>> DataWrapper<D, C> {
    /// Fires the callback that is registered under the hotkey's id, with
    /// the unit's state. Does nothing for an id that is not registered.
    pub fn fire(&mut self, hotkey: &mut Hotkey) -> (fired: bool)
        ensures
            fired == old(self)@.hotkeys.contains_key(old(hotkey).id),
            final(self)@.queued == old(self)@.queued,
            !fired ==> final(self)@ == old(self)@ && *final(hotkey) == *old(hotkey),
            fired ==> final(self)@.hotkeys == old(self)@.hotkeys.insert(
                old(hotkey).id,
                final(self)@.hotkeys[old(hotkey).id],
            ) && C::fired(
                old(self)@.hotkeys[old(hotkey).id],
                *old(hotkey),
                old(self)@.data,
                final(self)@.hotkeys[old(hotkey).id],
                final(self)@.data,
            ),
    {
        let id = hotkey.id;
        match self.hotkey_callbacks.remove(&id) {
            Some(callback) => {
                let mut callback = callback;
                callback.fire(hotkey, &mut self.data);
                self.hotkey_callbacks.insert(id, callback);
                assert(self@.hotkeys =~= old(self)@.hotkeys.insert(id, callback));
                true
            },
            None => {
                assert(self@.hotkeys =~= old(self)@.hotkeys);
                false
            },
        }
    }
}

/// The running instances of one unit type, each under the handle that the
/// host knows it by.
///
/// A handle is a number from 1 upwards; 0 is the null handle. Handles are
/// issued in order and never again: the handle of a destroyed instance
/// stays dead, so that a late call with it finds nothing.
pub struct InstanceTable<D, C> {
    pub(crate) slots: Vec<Option<DataWrapper<D, C>>>,
}

/// An [`InstanceTable`] as a plain value: at index `h - 1`, the instance
/// with the handle `h`, or nothing where that instance was destroyed.
pub type TableView<D, C> = Seq<Option<InstanceView<D, C>>>;

impl<D, C> View for InstanceTable<D, C> {
    type V = Seq<Option<InstanceView<D, C>>>;

    open(crate) spec fn view(&self) -> Seq<Option<InstanceView<D, C>>> {
        Seq::new(
            self.slots@.len(),
            |i: int|
                match self.slots@[i] {
                    Some(wrapper) => Some(wrapper@),
                    None => None,
                },
        )
    }
}

/// Whether `handle` names a running instance.
pub open spec fn is_live<D, C>(table: TableView<D, C>, handle: usize) -> bool {
    1 <= handle <= table.len() && table[handle - 1] is Some
}

/// The instance that `handle` names.
pub open spec fn instance<D, C>(table: TableView<D, C>, handle: usize) -> InstanceView<D, C>
    recommends
        is_live(table, handle),
{
    table[handle - 1]->0
}

/// The table with `instance` under `handle` and every other handle as it was.
pub open spec fn with_instance<D, C>(
    table: TableView<D, C>,
    handle: usize,
    instance: InstanceView<D, C>,
) -> TableView<D, C> {
    table.update(handle - 1, Some(instance))
}

/// The table with the state `data` in the instance that `handle` names and
/// everything else as it was.
pub open spec fn with_data<D, C>(table: TableView<D, C>, handle: usize, data: D) -> TableView<
    D,
    C,
> {
    with_instance(table, handle, InstanceView { data, ..instance(table, handle) })
}

/// Whether `post` is `pre` but for the state of the instance that `handle`
/// names: the same handles run, every other instance is as it was, and the
/// instance keeps its hotkeys.
pub open spec fn same_but_data<D, C>(
    pre: TableView<D, C>,
    post: TableView<D, C>,
    handle: usize,
) -> bool {
    post == with_data(pre, handle, instance(post, handle).data)
}

/// The table once the instance that `handle` names is destroyed.
pub open spec fn without_instance<D, C>(table: TableView<D, C>, handle: usize) -> TableView<D, C> {
    table.update(handle - 1, None)
}

/// The number of running instances.
pub open spec fn live_count<D, C>(table: TableView<D, C>) -> nat
    decreases table.len(),
{
    if table.len() == 0 {
        0
    } else {
        live_count(table.drop_last()) + if table.last() is Some {
            1nat
        } else {
            0nat
        }
    }
}

impl<D, C> InstanceTable<D, C> {
    /// A table without instances, in which no handle has been issued.
    pub fn new() -> (r: Self)
        ensures
            r@ == TableView::<D, C>::empty(),
    {
        let r = InstanceTable { slots: Vec::new() };
        assert(r@ =~= TableView::<D, C>::empty());
        r
    }

    /// The number of handles issued so far.
    pub fn issued(&self) -> (r: usize)
        ensures
            r == self@.len(),
    {
        self.slots.len()
    }

    /// Whether every handle that the machine can represent has been issued.
    pub fn is_full(&self) -> (r: bool)
        ensures
            r == (self@.len() >= usize::MAX),
    {
        self.slots.len() >= usize::MAX
    }

    /// Whether `handle` names a running instance.
    pub fn contains(&self, handle: usize) -> (r: bool)
        ensures
            r == is_live(self@, handle),
    {
        if handle == 0 || handle > self.slots.len() {
            return false;
        }
        self.slots[handle - 1].is_some()
    }

    /// The instance that `handle` names, if it runs.
    pub fn get(&self, handle: usize) -> (r: Option<&DataWrapper<D, C>>)
        ensures
            r is Some <==> is_live(self@, handle),
            r matches Some(wrapper) ==> wrapper@ == instance(self@, handle),
    {
        if handle == 0 || handle > self.slots.len() {
            return None;
        }
        self.slots[handle - 1].as_ref()
    }

    /// Takes `wrapper` in under the next handle and returns the handle.
    pub fn insert(&mut self, wrapper: DataWrapper<D, C>) -> (handle: usize)
        requires
            old(self)@.len() < usize::MAX,
        ensures
            handle == old(self)@.len() + 1,
            final(self)@ == old(self)@.push(Some(wrapper@)),
            is_live(final(self)@, handle),
            instance(final(self)@, handle) == wrapper@,
    {
        self.slots.push(Some(wrapper));
        assert(self@ =~= old(self)@.push(Some(wrapper@)));
        self.slots.len()
    }

    /// Takes the instance that `handle` names out of the table. The handle
    /// is dead from then on: a second call finds nothing and changes
    /// nothing.
    pub fn remove(&mut self, handle: usize) -> (r: Option<DataWrapper<D, C>>)
        ensures
            r is Some <==> is_live(old(self)@, handle),
            r matches Some(wrapper) ==> wrapper@ == instance(old(self)@, handle) && final(self)@
                == without_instance(old(self)@, handle),
            r is None ==> final(self)@ == old(self)@,
            !is_live(final(self)@, handle),
    {
        if handle == 0 || handle > self.slots.len() {
            return None;
        }
        let mut taken: Option<DataWrapper<D, C>> = None;
        std::mem::swap(&mut self.slots[handle - 1], &mut taken);
        proof {
            if taken is Some {
                assert(self@ =~= without_instance(old(self)@, handle));
            } else {
                assert(self@ =~= old(self)@);
            }
        }
        taken
    }

    /// Stores the callbacks of the hotkeys that the instance under `handle`
    /// waits for, each under the id that the host issued for it, as
    /// [`DataWrapper::register_callbacks`] does. Refused, with nothing
    /// changed, for a handle that names no running instance and unless
    /// there is one id per request.
    pub fn register_callbacks(&mut self, handle: usize, ids: &Vec<u64>) -> (ok: bool)
        ensures
            ok == (is_live(old(self)@, handle) && ids@.len() == instance(
                old(self)@,
                handle,
            ).queued.len()),
            ok ==> final(self)@ == with_instance(
                old(self)@,
                handle,
                InstanceView {
                    hotkeys: register_all(
                        instance(old(self)@, handle).hotkeys,
                        ids@,
                        instance(old(self)@, handle).queued,
                    ),
                    queued: Seq::<(ObsString, ObsString, C)>::empty(),
                    ..instance(old(self)@, handle)
                },
            ),
            !ok ==> final(self)@ == old(self)@,
    {
        if handle == 0 || handle > self.slots.len() {
            return false;
        }
        let ok = match &mut self.slots[handle - 1] {
            Some(wrapper) => wrapper.register_callbacks(ids),
            None => false,
        };
        proof {
            if ok {
                assert(self@ =~= with_instance(old(self)@, handle, instance(self@, handle)));
            } else {
                assert(self@ =~= old(self)@);
            }
        }
        ok
    }

    /// The number of running instances.
    pub fn live(&self) -> (r: usize)
        ensures
            r == live_count(self@),
    {
        let mut n: usize = 0;
        let mut i: usize = 0;
        assert(self@.take(0) =~= TableView::<D, C>::empty());
        while i < self.slots.len()
            invariant
                i <= self.slots@.len(),
                n <= i,
                n == live_count(self@.take(i as int)),
            decreases self.slots@.len() - i,
        {
            proof {
                let next = self@.take(i + 1);
                assert(next.drop_last() =~= self@.take(i as int));
                assert(next.last() == self@[i as int]);
            }
            if self.slots[i].is_some() {
                n += 1;
            }
            i += 1;
        }
        assert(self@.take(i as int) =~= self@);
        n
    }
}

/// What the creation of an instance does to the table: `handle` is the
/// next handle, it names a running instance afterwards, and every handle
/// issued before is as it was.
pub open spec fn creates<D, C>(pre: TableView<D, C>, post: TableView<D, C>, handle: usize) -> bool {
    &&& handle == pre.len() + 1
    &&& post.len() == pre.len() + 1
    &&& post[handle - 1] is Some
    &&& forall|i: int| 0 <= i < pre.len() ==> post[i] == pre[i]
}

/// What a call that borrows an instance does to the table: no handle is
/// issued, and exactly the instances that ran before run after it.
pub open spec fn borrows<D, C>(pre: TableView<D, C>, post: TableView<D, C>) -> bool {
    &&& post.len() == pre.len()
    &&& forall|i: int| 0 <= i < pre.len() ==> (post[i] is Some <==> pre[i] is Some)
}

/// What the destruction of the instance that `handle` names does to the
/// table.
pub open spec fn destroys<D, C>(pre: TableView<D, C>, post: TableView<D, C>, handle: usize) -> bool {
    is_live(pre, handle) && post == without_instance(pre, handle)
}

/// A call that changes one running instance borrows.
pub proof fn lemma_change_borrows<D, C>(pre: TableView<D, C>, post: TableView<D, C>, handle: usize)
    requires
        is_live(pre, handle),
        post == with_instance(pre, handle, instance(post, handle)),
    ensures
        borrows(pre, post),
{
}

/// The number of running instances depends only on which handles run.
pub proof fn lemma_live_count_by_liveness<D, C>(a: TableView<D, C>, b: TableView<D, C>)
    requires
        a.len() == b.len(),
        forall|i: int| 0 <= i < a.len() ==> (a[i] is Some <==> b[i] is Some),
    ensures
        live_count(a) == live_count(b),
    decreases a.len(),
{
    if a.len() > 0 {
        lemma_live_count_by_liveness(a.drop_last(), b.drop_last());
    }
}

/// Destroying a running instance leaves one instance fewer; creating one
/// leaves one more.
pub proof fn lemma_live_count_steps<D, C>(pre: TableView<D, C>, post: TableView<D, C>, handle: usize)
    ensures
        creates(pre, post, handle) ==> live_count(post) == live_count(pre) + 1,
        destroys(pre, post, handle) ==> live_count(post) + 1 == live_count(pre),
    decreases pre.len(),
{
    if creates(pre, post, handle) {
        assert(post.drop_last() =~= pre);
    }
    if destroys(pre, post, handle) {
        if handle == pre.len() {
            assert(post.drop_last() =~= pre.drop_last());
        } else {
            lemma_live_count_steps(pre.drop_last(), post.drop_last(), handle);
            assert(post.drop_last() =~= without_instance(pre.drop_last(), handle));
        }
    }
}

/// The life of one instance. `trace` holds the table before the creation,
/// after it, after each of any number of calls that borrow, in whatever
/// order, and after the destruction. Then the handle names a running
/// instance at every point strictly between creation and destruction and
/// none after it; every other handle runs at the end if and only if it ran
/// at the start; and as many instances run at the end as at the start.
pub proof fn lemma_round_trip<D, C>(trace: Seq<TableView<D, C>>, handle: usize)
    requires
        trace.len() >= 3,
        creates(trace[0], trace[1], handle),
        forall|i: int| 1 <= i < trace.len() - 2 ==> borrows(#[trigger] trace[i], trace[i + 1]),
        destroys(trace[trace.len() - 2], trace[trace.len() - 1], handle),
    ensures
        forall|i: int| 1 <= i <= trace.len() - 2 ==> is_live(#[trigger] trace[i], handle),
        !is_live(trace.last(), handle),
        !is_live(trace[0], handle),
        forall|other: usize|
            other != handle ==> (is_live(trace.last(), other) <==> is_live(trace[0], other)),
        live_count(trace.last()) == live_count(trace[0]),
{
    let n = trace.len() - 2;
    lemma_borrowed_run(trace, n);
    let before = trace[n];
    let end = trace.last();
    assert forall|other: usize| other != handle implies (is_live(end, other) <==> is_live(
        trace[0],
        other,
    )) by {
        if 1 <= other <= before.len() {
            assert(end[other - 1] == before[other - 1]);
            assert(before[other - 1] is Some <==> trace[1][other - 1] is Some);
        }
    }
    lemma_live_count_steps(trace[0], trace[1], handle);
    lemma_live_count_steps(before, end, handle);
    lemma_live_count_by_liveness(trace[1], before);
}

/// Calls that borrow keep the run of instances: after any number of them,
/// the same handles run as after the first table of the run.
proof fn lemma_borrowed_run<D, C>(trace: Seq<TableView<D, C>>, upto: int)
    requires
        1 <= upto <= trace.len() - 2,
        forall|i: int| 1 <= i < trace.len() - 2 ==> borrows(#[trigger] trace[i], trace[i + 1]),
    ensures
        forall|i: int| 1 <= i <= upto ==> borrows(trace[1], #[trigger] trace[i]),
    decreases upto,
{
    if upto > 1 {
        lemma_borrowed_run(trace, upto - 1);
        assert(borrows(trace[upto - 1], trace[upto]));
    }
}

} // verus!
