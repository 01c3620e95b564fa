//! Ownership of per-instance context across the host boundary.
//!
//! A context value is created by typed code when an instance comes to life
//! (a file is opened, a device is probed), lives in a slot that the host
//! provides for the instance, is lent to every callback in between, and is
//! handed back to typed code exactly once when the instance goes away.
//!
//! [`ContextHandle`] is the token that owns the value while the host holds
//! it. It can be neither copied nor cloned, so taking the value back
//! consumes the only handle there is. [`ContextSlot`] is the host's slot;
//! its view, a [`Lifecycle`], records where in its life the instance stands.

use vstd::prelude::*;

verus! {

/// Exclusive ownership of one context value, in the form the host stores.
pub struct ContextHandle<T> {
    value: T,
}

impl<T> View for ContextHandle<T> {
    type V = T;

    /// The context value that the handle owns.
    closed spec fn view(&self) -> T {
        self.value
    }
}

impl<T> ContextHandle<T> {
    /// Gives up `value` to a new handle.
    pub fn into_handle(value: T) -> (handle: Self)
        ensures
            handle@ == value,
    {
        ContextHandle { value }
    }

    /// Takes the context back. The handle is consumed: no second call can
    /// name it.
    pub fn from_handle(self) -> (value: T)
        ensures
            value == self@,
    {
        self.value
    }

    /// Lends the context for as long as the handle itself is borrowed.
    pub fn borrow_handle(&self) -> (value: &T)
        ensures
            *value == self@,
    {
        &self.value
    }
}

/// Where an instance stands in its life, and the context it owns while open.
pub enum Lifecycle<T> {
    /// No context was stored yet.
    Unopened,
    /// The instance is open and owns the context.
    Open(T),
    /// The context was taken back; nothing may touch the instance again.
    Released,
}

/// What can happen to the slot of an instance.
pub enum SlotEvent<T> {
    /// Typed code produced the context and the slot takes ownership of it.
    Store(T),
    /// A callback borrows the context for the length of one call.
    Borrow,
    /// The context is taken back for good.
    Reclaim,
}

impl<T> Lifecycle<T> {
    /// Whether the protocol allows `event` in this state.
    pub open spec fn enabled(self, event: SlotEvent<T>) -> bool {
        match event {
            SlotEvent::Store(_) => self is Unopened,
            SlotEvent::Borrow => self is Open,
            SlotEvent::Reclaim => self is Open,
        }
    }

    /// The state after `event`. An event that is not enabled changes nothing.
    pub open spec fn next(self, event: SlotEvent<T>) -> Lifecycle<T> {
        if !self.enabled(event) {
            self
        } else {
            match event {
                SlotEvent::Store(value) => Lifecycle::Open(value),
                SlotEvent::Borrow => self,
                SlotEvent::Reclaim => Lifecycle::Released,
            }
        }
    }

    /// The context that `event` hands to typed code: a borrow and the
    /// reclamation of an open instance hand out its context.
    pub open spec fn output(self, event: SlotEvent<T>) -> Option<T> {
        match (self, event) {
            (Lifecycle::Open(value), SlotEvent::Borrow) => Some(value),
            (Lifecycle::Open(value), SlotEvent::Reclaim) => Some(value),
            _ => None,
        }
    }

    /// The state after all the events of `trace`, in order.
    pub open spec fn after(self, trace: Seq<SlotEvent<T>>) -> Lifecycle<T>
        decreases trace.len(),
    {
        if trace.len() == 0 {
            self
        } else {
            self.after(trace.drop_last()).next(trace.last())
        }
    }

    /// Whether every event of `trace` is enabled when its turn comes.
    pub open spec fn accepts(self, trace: Seq<SlotEvent<T>>) -> bool {
        forall|i: int|
            0 <= i < trace.len() ==> #[trigger] self.after(trace.take(i)).enabled(trace[i])
    }
}

/// The slot in which the host keeps the context of one instance.
pub struct ContextSlot<T> {
    state: Lifecycle<ContextHandle<T>>,
}

impl<T> View for ContextSlot<T> {
    type V = Lifecycle<T>;

    /// The state of the instance, with the context in place of its handle.
    closed spec fn view(&self) -> Lifecycle<T> {
        match self.state {
            Lifecycle::Unopened => Lifecycle::Unopened,
            Lifecycle::Open(handle) => Lifecycle::Open(handle@),
            Lifecycle::Released => Lifecycle::Released,
        }
    }
}

impl<T> ContextSlot<T> {
    /// A slot for an instance that was not opened yet.
    pub fn new() -> (slot: Self)
        ensures
            slot@ is Unopened,
    {
        ContextSlot { state: Lifecycle::Unopened }
    }

    /// Whether the slot owns a context.
    pub fn is_open(&self) -> (open: bool)
        ensures
            open == (self@ is Open),
    {
        match &self.state {
            Lifecycle::Open(_) => true,
            _ => false,
        }
    }

    /// Whether no context was stored in the slot yet.
    pub fn is_unopened(&self) -> (unopened: bool)
        ensures
            unopened == (self@ is Unopened),
    {
        match &self.state {
            Lifecycle::Unopened => true,
            _ => false,
        }
    }

    /// Opens the instance: the slot takes ownership of `value`.
    pub fn store(&mut self, value: T)
        requires
            old(self)@.enabled(SlotEvent::Store(value)),
        ensures
            final(self)@ == old(self)@.next(SlotEvent::Store(value)),
    {
        self.state = Lifecycle::Open(ContextHandle::into_handle(value));
    }

    /// Lends the context of an open instance. The slot is unchanged.
    pub fn borrow(&self) -> (value: &T)
        requires
            self@.enabled(SlotEvent::Borrow),
        ensures
            Some(*value) == self@.output(SlotEvent::Borrow),
    {
        match &self.state {
            Lifecycle::Open(handle) => handle.borrow_handle(),
            _ => vstd::pervasive::unreached(),
        }
    }

    /// Ends the instance: the context leaves the slot, which can never be
    /// read or reclaimed again.
    pub fn reclaim(&mut self) -> (value: T)
        requires
            old(self)@.enabled(SlotEvent::Reclaim),
        ensures
            final(self)@ == old(self)@.next(SlotEvent::Reclaim),
            Some(value) == old(self)@.output(SlotEvent::Reclaim),
    {
        let mut taken = Lifecycle::Released;
        core::mem::swap(&mut self.state, &mut taken);
        match taken {
            Lifecycle::Open(handle) => handle.from_handle(),
            _ => vstd::pervasive::unreached(),
        }
    }
}

/// Once the context was taken back, the protocol allows nothing more: no
/// borrow, no second reclamation, no new context.
pub proof fn lemma_released_is_final<T>(event: SlotEvent<T>)
    ensures
        !Lifecycle::<T>::Released.enabled(event),
{
}

/// The first events of an accepted trace are an accepted trace too.
pub proof fn lemma_prefix_accepted<T>(start: Lifecycle<T>, trace: Seq<SlotEvent<T>>, n: int)
    requires
        start.accepts(trace),
        0 <= n <= trace.len(),
    ensures
        start.accepts(trace.take(n)),
{
    let prefix = trace.take(n);
    assert forall|i: int| 0 <= i < prefix.len() implies #[trigger] start.after(
        prefix.take(i),
    ).enabled(prefix[i]) by {
        assert(prefix.take(i) == trace.take(i));
        assert(start.after(trace.take(i)).enabled(trace[i]));
    }
}

/// The state that an accepted trace leaves behind: nothing happened yet, or
/// the instance is open with the very context that the first event stored,
/// or a reclamation was the last event.
proof fn lemma_state_of_accepted_trace<T>(trace: Seq<SlotEvent<T>>)
    requires
        Lifecycle::<T>::Unopened.accepts(trace),
    ensures
        trace.len() == 0 ==> Lifecycle::<T>::Unopened.after(trace) is Unopened,
        trace.len() > 0 ==> trace[0] is Store,
        trace.len() > 0 && !(trace.last() is Reclaim) ==> Lifecycle::<T>::Unopened.after(trace)
            == Lifecycle::Open(trace[0]->Store_0),
        trace.len() > 0 && trace.last() is Reclaim ==> Lifecycle::<T>::Unopened.after(trace)
            is Released,
    decreases trace.len(),
{
    let start = Lifecycle::<T>::Unopened;
    if trace.len() > 0 {
        let shorter = trace.drop_last();
        assert(shorter == trace.take(trace.len() - 1));
        lemma_prefix_accepted(start, trace, trace.len() - 1);
        lemma_state_of_accepted_trace(shorter);
        assert(start.after(trace.take(trace.len() - 1)).enabled(trace[trace.len() - 1]));
        if shorter.len() > 0 {
            assert(shorter[0] == trace[0]);
        }
    }
}

/// The shape of every run that the protocol accepts from a fresh slot.
///
/// The first event, and only the first, stores a context. Every later event
/// is a borrow or the reclamation, and hands out exactly the context that was
/// stored. A reclamation is the last event of the run, so it happens at most
/// once and no borrow follows it.
pub proof fn lemma_exactly_once<T>(trace: Seq<SlotEvent<T>>, i: int)
    requires
        Lifecycle::<T>::Unopened.accepts(trace),
        0 <= i < trace.len(),
    ensures
        trace[i] is Store <==> i == 0,
        trace[i] is Reclaim ==> i == trace.len() - 1,
        i > 0 ==> Lifecycle::<T>::Unopened.after(trace.take(i)).output(trace[i]) == Some(
            trace[0]->Store_0,
        ),
{
    let start = Lifecycle::<T>::Unopened;
    let before = trace.take(i);
    assert(start.after(before).enabled(trace[i]));
    lemma_prefix_accepted(start, trace, i);
    lemma_state_of_accepted_trace(before);
    if i > 0 {
        assert(before[0] == trace[0]);
    }
    if trace[i] is Reclaim && i < trace.len() - 1 {
        let longer = trace.take(i + 1);
        lemma_prefix_accepted(start, trace, i + 1);
        lemma_state_of_accepted_trace(longer);
        assert(longer.last() == trace[i]);
        assert(start.after(trace.take(i + 1)).enabled(trace[i + 1]));
    }
}

} // verus!
