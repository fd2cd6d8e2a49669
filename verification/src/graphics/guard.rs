use vstd::prelude::*;

verus! {

/// The lock of the graphics device.
///
/// This is not a plain mutex: it is reentrant. The thread that holds the
/// lock may enter again, any number of times, and gives the lock up when
/// it has left as often as it entered. Handles on device objects rely on
/// that: each enters on its own, whether or not its caller is already
/// inside.
pub struct GraphicsLock {
    owner: u64,
    depth: u64,
    left: Ghost<nat>,
}

/// A [`GraphicsLock`] as a plain value: who holds it, if anybody, how often
/// the holder has entered without leaving, and how many enters and how
/// many leaves have taken effect since the lock was made.
pub ghost struct LockView {
    pub owner: Option<u64>,
    pub depth: nat,
    pub entered: nat,
    pub left: nat,
}

/// Something a thread does to the lock.
pub ghost enum LockEvent {
    Enter(u64),
    Leave(u64),
}

impl LockView {
    /// A lock that nobody holds and nobody has entered yet.
    pub open spec fn free() -> LockView {
        LockView { owner: None, depth: 0, entered: 0, left: 0 }
    }

    /// The lock is free exactly when nobody is inside, and the depth is
    /// the number of enters that no leave has answered yet.
    pub open spec fn wf(self) -> bool {
        &&& self.owner is None <==> self.depth == 0
        &&& self.entered == self.left + self.depth
    }

    /// The lock after `thread` went in and came out again: held as
    /// before, with one more enter and one more leave.
    pub open spec fn passed(self) -> LockView {
        LockView { entered: self.entered + 1, left: self.left + 1, ..self }
    }

    /// Whether `thread` is inside.
    pub open spec fn held_by(self, thread: u64) -> bool {
        self.owner == Some(thread)
    }

    /// Whether the event takes effect: an enter, where the lock is free or
    /// the thread is already inside, and the depth can still be counted; a
    /// leave, where the thread is inside. An enter that does not take
    /// effect is one that has to wait.
    pub open spec fn accepts(self, event: LockEvent) -> bool {
        match event {
            LockEvent::Enter(thread) => (self.owner is None || self.held_by(thread)) && self.depth
                < u64::MAX,
            LockEvent::Leave(thread) => self.held_by(thread),
        }
    }

    /// The lock after the event. An event that does not take effect
    /// changes nothing.
    pub open spec fn after(self, event: LockEvent) -> LockView {
        if !self.accepts(event) {
            self
        } else {
            match event {
                LockEvent::Enter(thread) => LockView {
                    owner: Some(thread),
                    depth: self.depth + 1,
                    entered: self.entered + 1,
                    left: self.left,
                },
                LockEvent::Leave(thread) => LockView {
                    owner: if self.depth <= 1 {
                        None
                    } else {
                        self.owner
                    },
                    depth: (self.depth - 1) as nat,
                    entered: self.entered,
                    left: self.left + 1,
                },
            }
        }
    }

    /// The lock after the events, in their order.
    pub open spec fn run(self, events: Seq<LockEvent>) -> LockView
        decreases events.len(),
    {
        if events.len() == 0 {
            self
        } else {
            self.run(events.drop_last()).after(events.last())
        }
    }

    /// How many of the events are enters that took effect.
    pub open spec fn enters(self, events: Seq<LockEvent>) -> nat
        decreases events.len(),
    {
        if events.len() == 0 {
            0
        } else {
            let before = self.run(events.drop_last());
            self.enters(events.drop_last()) + if events.last() is Enter && before.accepts(
                events.last(),
            ) {
                1nat
            } else {
                0nat
            }
        }
    }

    /// How many of the events are leaves that took effect.
    pub open spec fn leaves(self, events: Seq<LockEvent>) -> nat
        decreases events.len(),
    {
        if events.len() == 0 {
            0
        } else {
            let before = self.run(events.drop_last());
            self.leaves(events.drop_last()) + if events.last() is Leave && before.accepts(
                events.last(),
            ) {
                1nat
            } else {
                0nat
            }
        }
    }
}

impl View for GraphicsLock {
    type V = LockView;

    closed spec fn view(&self) -> LockView {
        LockView {
            owner: if self.depth == 0 {
                None
            } else {
                Some(self.owner)
            },
            depth: self.depth as nat,
            entered: self.left@ + self.depth as nat,
            left: self.left@,
        }
    }
}

impl GraphicsLock {
    /// A lock that nobody holds.
    pub fn new() -> (r: Self)
        ensures
            r@ == LockView::free(),
    {
        GraphicsLock { owner: 0, depth: 0, left: Ghost(0) }
    }

    /// Every lock is well formed, and its depth can be counted.
    pub proof fn lemma_wf(&self)
        ensures
            self@.wf(),
            self@.depth <= u64::MAX,
    {
    }

    /// Enters for `thread` if that takes effect at once, and says whether
    /// it did. Where it did not, the thread has to wait and try again.
    pub fn try_enter(&mut self, thread: u64) -> (entered: bool)
        ensures
            entered == old(self)@.accepts(LockEvent::Enter(thread)),
            final(self)@ == old(self)@.after(LockEvent::Enter(thread)),
    {
        if self.depth == 0 {
            self.owner = thread;
            self.depth = 1;
            true
        } else if self.owner == thread && self.depth < u64::MAX {
            self.depth = self.depth + 1;
            true
        } else {
            false
        }
    }

    /// Leaves for `thread`, and says whether the thread was inside. A
    /// thread that is not inside changes nothing by leaving.
    pub fn leave(&mut self, thread: u64) -> (left: bool)
        ensures
            left == old(self)@.accepts(LockEvent::Leave(thread)),
            final(self)@ == old(self)@.after(LockEvent::Leave(thread)),
    {
        if self.depth > 0 && self.owner == thread {
            self.depth = self.depth - 1;
            self.left = Ghost(self.left@ + 1);
            true
        } else {
            false
        }
    }

    /// Whether `thread` is inside.
    pub fn is_active(&self, thread: u64) -> (r: bool)
        ensures
            r == self@.held_by(thread),
    {
        self.depth > 0 && self.owner == thread
    }

    /// How often the holder has entered without leaving.
    pub fn depth(&self) -> (r: u64)
        ensures
            r == self@.depth,
    {
        self.depth
    }
}

/// Proof of being inside the graphics device: made by entering, ended by
/// leaving. A guard knows which enter made it.
pub struct GraphicsGuard {
    thread: u64,
    serial: Ghost<nat>,
}

impl GraphicsGuard {
    /// The thread that entered.
    pub closed spec fn thread(&self) -> u64 {
        self.thread
    }

    /// The number of the enter that made the guard, counted over all
    /// enters that took effect on the lock, from one.
    pub closed spec fn serial(&self) -> nat {
        self.serial@
    }

    /// Enters the device for `thread`. Nothing comes back where the thread
    /// has to wait.
    pub fn enter(lock: &mut GraphicsLock, thread: u64) -> (r: Option<GraphicsGuard>)
        ensures
            r is Some <==> old(lock)@.accepts(LockEvent::Enter(thread)),
            r matches Some(guard) ==> guard.thread() == thread && guard.serial() == old(
                lock,
            )@.entered + 1,
            final(lock)@ == old(lock)@.after(LockEvent::Enter(thread)),
    {
        if lock.try_enter(thread) {
            Some(GraphicsGuard { thread, serial: Ghost(lock@.entered) })
        } else {
            None
        }
    }

    /// Ends the guard and leaves the device for the thread that entered.
    pub fn leave(self, lock: &mut GraphicsLock) -> (left: bool)
        ensures
            left == old(lock)@.accepts(LockEvent::Leave(self.thread())),
            final(lock)@ == old(lock)@.after(LockEvent::Leave(self.thread())),
    {
        lock.leave(self.thread)
    }

    /// Runs `f` inside the device: enters for `thread`, calls `f`, and
    /// leaves again, whatever `f` returned. Afterwards the lock is held as
    /// it was before, and it has seen one more enter and one more leave.
    /// Where the thread has to wait, `f` is not called, nothing comes back
    /// and the lock is as it was.
    pub fn with_enter<T, F: FnOnce() -> T>(lock: &mut GraphicsLock, thread: u64, f: F) -> (r: Option<
        T,
    >)
        requires
            f.requires(()),
        ensures
            r is Some <==> old(lock)@.accepts(LockEvent::Enter(thread)),
            r matches Some(value) ==> f.ensures((), value),
            r is Some ==> final(lock)@ == old(lock)@.passed(),
            r is None ==> final(lock)@ == old(lock)@,
    {
        proof {
            lock.lemma_wf();
        }
        match Self::enter(lock, thread) {
            Some(guard) => {
                let value = f();
                guard.leave(lock);
                Some(value)
            },
            None => None,
        }
    }

    /// Runs `f` inside the device and hands it the guard: enters for
    /// `thread`, calls `f` with the guard that this enter made, and leaves
    /// again, whatever `f` returned. Afterwards the lock is held as it was
    /// before, and it has seen one more enter and one more leave. Where
    /// the thread has to wait, `f` is not called, nothing comes back and
    /// the lock is as it was.
    pub fn with_guard<T, F: FnOnce(&GraphicsGuard) -> T>(
        lock: &mut GraphicsLock,
        thread: u64,
        f: F,
    ) -> (r: Option<T>)
        requires
            forall|guard: GraphicsGuard|
                guard.thread() == thread && guard.serial() == old(lock)@.entered + 1
                    ==> #[trigger] f.requires((&guard,)),
        ensures
            r is Some <==> old(lock)@.accepts(LockEvent::Enter(thread)),
            r is Some ==> exists|guard: GraphicsGuard|
                guard.thread() == thread && guard.serial() == old(lock)@.entered + 1
                    && #[trigger] f.ensures((&guard,), r->0),
            r is Some ==> final(lock)@ == old(lock)@.passed(),
            r is None ==> final(lock)@ == old(lock)@,
    {
        proof {
            lock.lemma_wf();
        }
        let entered = Self::enter(lock, thread);
        match entered {
            Some(guard) => {
                let value = f(&guard);
                let ghost made = guard;
                guard.leave(lock);
                let r = Some(value);
                assert(made.thread() == thread && made.serial() == old(lock)@.entered + 1
                    && f.ensures((&made,), r->0));
                r
            },
            None => None,
        }
    }
}

/// Entering and leaving at once leaves the lock held as it was, with one
/// more enter and one more leave.
pub proof fn lemma_enter_then_leave(lock: LockView, thread: u64)
    requires
        lock.wf(),
        lock.accepts(LockEvent::Enter(thread)),
    ensures
        lock.after(LockEvent::Enter(thread)).accepts(LockEvent::Leave(thread)),
        lock.after(LockEvent::Enter(thread)).after(LockEvent::Leave(thread)) == lock.passed(),
{
}

/// While one thread is inside, no other thread gets in or changes the lock.
pub proof fn lemma_excludes_others(lock: LockView, holder: u64, other: u64, event: LockEvent)
    requires
        lock.wf(),
        lock.held_by(holder),
        other != holder,
        event == LockEvent::Enter(other) || event == LockEvent::Leave(other),
    ensures
        !lock.accepts(event),
        lock.after(event) == lock,
{
}

/// Enters and leaves balance. After any events, from any threads and in
/// any order, the lock has counted exactly the enters and the leaves that
/// took effect, and the depth has grown by the one and shrunk by the
/// other. So whenever the lock is free at the start and free at the end, as
/// many enters took effect as leaves.
pub proof fn lemma_balance(lock: LockView, events: Seq<LockEvent>)
    requires
        lock.wf(),
    ensures
        lock.run(events).wf(),
        lock.run(events).entered == lock.entered + lock.enters(events),
        lock.run(events).left == lock.left + lock.leaves(events),
        lock.run(events).depth + lock.leaves(events) == lock.depth + lock.enters(events),
        lock.depth == 0 && lock.run(events).depth == 0 ==> lock.enters(events) == lock.leaves(
            events,
        ),
    decreases events.len(),
{
    if events.len() > 0 {
        lemma_balance(lock, events.drop_last());
    }
}

} // verus!
