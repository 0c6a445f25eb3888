//! The host-owned handle and the registry that stands for raw handles.
//!
//! The native host cannot be trusted with a raw address, so each live engine
//! instance sits in a slot of a registry and the host holds an opaque
//! non-zero index.  Zero plays the role of the null handle; destroying it, or
//! a handle that was already destroyed, is a defensive no-op.

use crate::engine::{Engine, ShutdownOutcome};
use crate::runtime::{arc_clone, arc_try_unwrap};
use std::sync::Arc;
use vstd::prelude::*;

verus! {

/// What a destroy call found: a null handle (no-op), a handle that names no
/// live instance (no-op), an engine that was stopped, or an engine state
/// still shared with someone else, which is reported instead of stopped.
#[derive(Clone, Copy, Debug, PartialEq, Eq, Structural)]
pub enum DestroyOutcome {
    NullHandle,
    UnknownHandle,
    EngineStopped(ShutdownOutcome),
    EngineShared,
}

/// One engine instance as the host sees it: a shared reference to the engine
/// state and the counter that numbers opened channels.
pub struct RawEngine {
    engine: Arc<Engine>,
    channel_counter: usize,
}

impl RawEngine {
    /// How many channels this instance has opened so far.
    pub closed spec fn counter(self) -> nat {
        self.channel_counter as nat
    }

    /// The filename of the engine state this instance holds.
    pub closed spec fn engine_view(self) -> Seq<char> {
        self.engine@
    }

    fn new(engine: Engine) -> (raw: RawEngine)
        ensures
            raw.counter() == 0,
            raw.engine_view() == engine@,
    {
        RawEngine { engine: Arc::new(engine), channel_counter: 0 }
    }

    /// A new shared reference to the engine state; the state's reference
    /// count grows by one and the caller may keep the reference as long as
    /// it likes.
    pub fn engine(&self) -> (r: Arc<Engine>)
        ensures
            r@ == self.engine_view(),
    {
        arc_clone(&self.engine)
    }

    /// How many channels this instance has opened so far.
    pub fn channel_count(&self) -> (n: usize)
        ensures
            n == self.counter(),
    {
        self.channel_counter
    }

    /// The next channel identifier: identifiers are handed out as 1, 2, 3,
    /// ... so each opened channel gets a distinct positive number.
    pub fn channel_opened(&mut self) -> (id: usize)
        requires
            old(self).counter() < usize::MAX,
        ensures
            id == old(self).counter() + 1,
            final(self).counter() == old(self).counter() + 1,
            final(self).engine_view() == old(self).engine_view(),
    {
        self.channel_counter = self.channel_counter + 1;
        self.channel_counter
    }

    fn teardown(self) -> (out: DestroyOutcome)
        ensures
            out is EngineStopped || out == DestroyOutcome::EngineShared,
    {
        settle_teardown(arc_try_unwrap(self.engine))
    }
}

/// Decides the end of a teardown from the attempt to reclaim sole ownership
/// of the engine state: only a state that came back out alone is shut down;
/// a state with other outstanding references is reported and left alive.
pub fn settle_teardown(reclaimed: Result<Engine, Arc<Engine>>) -> (out: DestroyOutcome)
    ensures
        (out is EngineStopped) == (reclaimed is Ok),
        (out == DestroyOutcome::EngineShared) == (reclaimed is Err),
{
    match reclaimed {
        Ok(engine) => DestroyOutcome::EngineStopped(engine.shutdown()),
        Err(_) => DestroyOutcome::EngineShared,
    }
}

/// The table of live engine instances, keyed by opaque non-zero handles.
pub struct EngineRegistry {
    slots: Vec<Option<RawEngine>>,
}

impl EngineRegistry {
    /// The slot a handle names, or `None` for the null handle, a handle that
    /// was never issued, or one whose instance was already destroyed.
    pub closed spec fn slot(self, h: usize) -> Option<RawEngine> {
        if 1 <= h <= self.slots@.len() {
            self.slots@[h - 1]
        } else {
            None
        }
    }

    /// A handle is live while its slot still holds an instance.
    pub open spec fn live(self, h: usize) -> bool {
        self.slot(h) is Some
    }

    /// The channel counter of a live handle.
    pub open spec fn counter_of(self, h: usize) -> nat {
        self.slot(h)->Some_0.counter()
    }

    /// The filename of a live handle's engine state.
    pub open spec fn engine_view_of(self, h: usize) -> Seq<char> {
        self.slot(h)->Some_0.engine_view()
    }

    /// How many handles were ever issued.
    pub closed spec fn issued(self) -> nat {
        self.slots@.len()
    }

    pub fn new() -> (r: EngineRegistry)
        ensures
            r.issued() == 0,
    {
        EngineRegistry { slots: Vec::new() }
    }

    /// How many handles were ever issued, as a value a caller can test
    /// before asking for one more.
    pub fn issued_count(&self) -> (n: usize)
        ensures
            n == self.issued(),
    {
        self.slots.len()
    }

    /// The channel counter of the instance a handle names, or `None` when
    /// the handle names no live instance.
    pub fn channel_count(&self, h: usize) -> (r: Option<usize>)
        ensures
            (r is Some) == self.live(h),
            r matches Some(n) ==> n == self.counter_of(h),
    {
        if h >= 1 && h <= self.slots.len() {
            match &self.slots[h - 1] {
                Some(raw) => Some(raw.channel_count()),
                None => None,
            }
        } else {
            None
        }
    }

    /// Registers a fresh engine instance and returns its handle, a non-zero
    /// number no earlier instance was given; the new instance has opened no
    /// channels yet and every other slot stays as it was.
    pub fn create(&mut self, engine: Engine) -> (h: usize)
        requires
            old(self).issued() < usize::MAX,
        ensures
            h == old(self).issued() + 1,
            h >= 1,
            final(self).issued() == h,
            final(self).live(h),
            final(self).counter_of(h) == 0,
            final(self).engine_view_of(h) == engine@,
            forall|g: usize| g != h ==> final(self).slot(g) == old(self).slot(g),
    {
        self.slots.push(Some(RawEngine::new(engine)));
        self.slots.len()
    }

    /// A new shared reference to the engine state a handle names, or `None`
    /// when the handle is null, unknown or already destroyed.
    pub fn engine(&self, h: usize) -> (r: Option<Arc<Engine>>)
        ensures
            (r is Some) == self.live(h),
            r matches Some(e) ==> e@ == self.engine_view_of(h),
    {
        if h >= 1 && h <= self.slots.len() {
            match &self.slots[h - 1] {
                Some(raw) => Some(raw.engine()),
                None => None,
            }
        } else {
            None
        }
    }

    /// Draws the next channel identifier of the instance a handle names, or
    /// `None` when the handle names no live instance, which changes nothing.
    pub fn open_channel(&mut self, h: usize) -> (r: Option<usize>)
        requires
            old(self).live(h) ==> old(self).counter_of(h) < usize::MAX,
        ensures
            (r is Some) == old(self).live(h),
            old(self).live(h) ==> {
                &&& r == Some((old(self).counter_of(h) + 1) as usize)
                &&& final(self).live(h)
                &&& final(self).counter_of(h) == old(self).counter_of(h) + 1
                &&& final(self).engine_view_of(h) == old(self).engine_view_of(h)
                &&& final(self).issued() == old(self).issued()
                &&& forall|g: usize| g != h ==> final(self).slot(g) == old(self).slot(g)
            },
            !old(self).live(h) ==> final(self).issued() == old(self).issued() && (forall|g: usize|
                final(self).slot(g) == old(self).slot(g)),
    {
        if h >= 1 && h <= self.slots.len() {
            let i = h - 1;
            let slot = self.slots.remove(i);
            match slot {
                Some(mut raw) => {
                    let id = raw.channel_opened();
                    self.slots.insert(i, Some(raw));
                    proof {
                        assert(self.slots@ =~= old(self).slots@.update(i as int, self.slots@[i as int]));
                    }
                    Some(id)
                },
                None => {
                    self.slots.insert(i, None);
                    proof {
                        assert(self.slots@ =~= old(self).slots@);
                    }
                    None
                },
            }
        } else {
            None
        }
    }

    /// Destroys the instance a handle names.  A null or unknown handle is a
    /// defensive no-op; otherwise the slot is vacated, and the engine state
    /// is shut down only when this registry held its last reference — a
    /// state still shared with someone else is reported, never force-dropped.
    pub fn destroy(&mut self, h: usize) -> (out: DestroyOutcome)
        ensures
            h == 0 ==> out == DestroyOutcome::NullHandle,
            !old(self).live(h) ==> final(self).issued() == old(self).issued() && (forall|g: usize|
                final(self).slot(g) == old(self).slot(g)),
            h != 0 && !old(self).live(h) ==> out == DestroyOutcome::UnknownHandle,
            old(self).live(h) ==> {
                &&& out is EngineStopped || out == DestroyOutcome::EngineShared
                &&& !final(self).live(h)
                &&& final(self).issued() == old(self).issued()
                &&& forall|g: usize| g != h ==> final(self).slot(g) == old(self).slot(g)
            },
    {
        if h == 0 {
            return DestroyOutcome::NullHandle;
        }
        if h > self.slots.len() {
            return DestroyOutcome::UnknownHandle;
        }
        let i = h - 1;
        let slot = self.slots.remove(i);
        self.slots.insert(i, None);
        proof {
            assert(self.slots@ =~= old(self).slots@.update(i as int, None));
        }
        match slot {
            Some(raw) => raw.teardown(),
            None => DestroyOutcome::UnknownHandle,
        }
    }
}

/// The set of channel identifiers that `n` successive allocations yield when
/// the counter starts at `start`.
pub open spec fn channel_ids(start: nat, n: nat) -> Set<nat> {
    Set::new(|v: nat| start < v <= start + n)
}

/// Channel identifiers never repeat: starting from counter value `start`,
/// the `k`-th of `n` successive allocations yields `start + k + 1` (the value
/// `channel_opened` promises), and those values form a set of exactly `n`
/// distinct positive numbers.
pub proof fn lemma_channel_ids_unique(start: nat, n: nat)
    ensures
        channel_ids(start, n).finite(),
        channel_ids(start, n).len() == n,
        forall|v: nat| channel_ids(start, n).contains(v) ==> v >= 1,
        forall|k: nat| k < n ==> #[trigger] channel_ids(start, n).contains(start + k + 1),
    decreases n,
{
    if n == 0 {
        assert(channel_ids(start, 0) =~= Set::<nat>::empty());
    } else {
        lemma_channel_ids_unique(start, (n - 1) as nat);
        assert(channel_ids(start, n) =~= channel_ids(start, (n - 1) as nat).insert(start + n));
    }
}

} // verus!

