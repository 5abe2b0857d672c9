//! A discrete-event simulation kernel.
//!
//! A simulation is modelled as a set of *components* reacting to *events*
//! delivered at logical timestamps. The kernel drives simulated time forward
//! by executing events in timestamp order, lets components schedule further
//! events, and gives them a shared scratch space (a value store plus queues)
//! through which they communicate.
//!
//! The building blocks are [`State`], [`Scheduler`], [`Components`], and the
//! [`Simulation`] facade that aggregates one of each. Values, queues and
//! components are addressed through the typed handles [`Key`], [`QueueId`]
//! and [`ComponentId`], whose phantom type parameter makes mismatched
//! operations ill-formed at compile time.
//!
//! All identifiers are minted by the aggregate that owns them, from its own
//! counter: a handle is meaningful only together with the [`State`] or
//! [`Components`] registry that minted it, and must not be mixed with
//! another instance.

use vstd::prelude::*;

use std::marker::PhantomData;

mod component;
mod execute;
mod queue;
mod scheduler;
mod state;
mod time;

pub use component::{Component, Components, HandlerView};
pub use execute::{max_time, policy_ens, EndCondition, Execute, Executor, ExecutorWithSideEffect};
pub use queue::{
    desc_insert_idx, fifo_pushed_all, lemma_bounded_capacity, lemma_fifo_receive_order,
    lemma_fifo_send_order, lemma_priority_receive_order, lemma_priority_send_order, sorted_desc,
    Fifo, PriorityQueue, PushError, Queue, Ranked,
};
pub use scheduler::{
    entries_sorted, lemma_schedule_fifo_order, time_insert_idx, EventEntry, EventEntryTyped,
    Scheduler,
};
pub use state::{lemma_key_safety, State};
pub use time::{
    lemma_duration_fits, lemma_duration_injective, Duration, NANOS_PER_MILLI, NANOS_PER_SEC,
};

verus! {

/// A type-safe identifier of a component. This is an analogue of [`Key`] used
/// specifically for components.
///
/// The phantom parameter is the event type the component reacts to, so only
/// events of that type can be scheduled on it.
#[derive(Debug, PartialEq, Eq, Hash)]
pub struct ComponentId<E> {
    pub(crate) id: usize,
    _marker: PhantomData<E>,
}

impl<E> View for ComponentId<E> {
    type V = nat;

    closed spec fn view(&self) -> nat {
        self.id as nat
    }
}

impl<E> ComponentId<E> {
    pub(crate) fn new(id: usize) -> (r: Self)
        ensures
            r@ == id,
    {
        ComponentId { id, _marker: PhantomData }
    }
}

impl<E> Clone for ComponentId<E> {
    fn clone(&self) -> (r: Self)
        ensures
            r == *self,
    {
        ComponentId { id: self.id, _marker: PhantomData }
    }
}

impl<E> Copy for ComponentId<E> {}

/// A type-safe key used to fetch values from the value store.
///
/// A key can be constructed only by inserting a value into a [`State`], which
/// mints a fresh identifier; the key stays valid for the lifetime of that
/// state unless the value is removed. A key minted by one state must not be
/// used with another.
///
/// The phantom parameter ties the key to the type of the stored value, so a
/// key obtained for one value type cannot read a value of another type.
#[derive(Debug, PartialEq, Eq, Hash)]
pub struct Key<V> {
    pub(crate) id: usize,
    _marker: PhantomData<V>,
}

impl<V> View for Key<V> {
    type V = nat;

    closed spec fn view(&self) -> nat {
        self.id as nat
    }
}

impl<V> Key<V> {
    pub(crate) fn new(id: usize) -> (r: Self)
        ensures
            r@ == id,
    {
        Key { id, _marker: PhantomData }
    }
}

impl<V> Clone for Key<V> {
    fn clone(&self) -> (r: Self)
        ensures
            r == *self,
    {
        Key { id: self.id, _marker: PhantomData }
    }
}

impl<V> Copy for Key<V> {}

/// A type-safe identifier of a queue. This is an analogue of [`Key`] used
/// specifically for queues.
///
/// The phantom parameter is the concrete queue type, so operations on the
/// queue infer the item type from the handle.
#[derive(Debug, PartialEq, Eq, Hash)]
pub struct QueueId<Q> {
    pub(crate) id: usize,
    _marker: PhantomData<Q>,
}

impl<Q> View for QueueId<Q> {
    type V = nat;

    closed spec fn view(&self) -> nat {
        self.id as nat
    }
}

impl<Q> QueueId<Q> {
    pub(crate) fn new(id: usize) -> (r: Self)
        ensures
            r@ == id,
    {
        QueueId { id, _marker: PhantomData }
    }
}

impl<Q> Clone for QueueId<Q> {
    fn clone(&self) -> (r: Self)
        ensures
            r == *self,
    {
        QueueId { id: self.id, _marker: PhantomData }
    }
}

impl<Q> Copy for QueueId<Q> {}

/// A component identifier is determined by its view: two identifiers with
/// the same numeric value are equal.
pub proof fn lemma_component_id_injective<E>(a: ComponentId<E>, b: ComponentId<E>)
    requires
        a@ == b@,
    ensures
        a == b,
{
}

/// A key is determined by its view: two keys with the same numeric value
/// are equal.
pub proof fn lemma_key_injective<V>(a: Key<V>, b: Key<V>)
    requires
        a@ == b@,
    ensures
        a == b,
{
}

/// A queue identifier is determined by its view: two identifiers with the
/// same numeric value are equal.
pub proof fn lemma_queue_id_injective<Q>(a: QueueId<Q>, b: QueueId<Q>)
    requires
        a@ == b@,
    ensures
        a == b,
{
}

/// Simulation struct that puts the parts of a simulation together: one
/// [`State`], one [`Scheduler`] and one [`Components`] registry, all typed by
/// the component type `C`.
///
/// See the [crate-level documentation](index.html) for more information.
pub struct Simulation<C: Component> {
    /// Simulation state.
    pub state: State<C::Value, C::Queues>,
    /// Event scheduler.
    pub scheduler: Scheduler<C::Event>,
    /// Component container.
    pub components: Components<C>,
}

impl<C: Component> Simulation<C> {
    /// Performs one step of the simulation. Returns `true` if there was in
    /// fact an event available to process, and `false` otherwise, which
    /// signifies that the simulation ended.
    ///
    /// The earliest entry is popped — the clock advances to its time — and
    /// its event is dispatched to the component it addresses: the handler's
    /// effect, the component's [`Component::process_ens`], relates the
    /// moment after the pop to the moment `step` returns. An entry addressed
    /// to an identifier this simulation's registry did not mint — a handle
    /// mixed in from elsewhere — is discarded with nothing else changed.
    pub fn step(&mut self) -> (r: bool)
        ensures
            old(self).scheduler.entries().len() == 0 ==> r == false && *final(self) == *old(
                self,
            ),
            old(self).scheduler.entries().len() > 0 ==> ({
                let e = old(self).scheduler.entries()[0];
                let cs = old(self).components@;
                let pre = (HandlerView {
                    entries: old(self).scheduler.entries().drop_first(),
                    now: e.time@,
                    store: old(self).state.store_view(),
                    queues: old(self).state.queues_view(),
                });
                let post = (HandlerView {
                    entries: final(self).scheduler.entries(),
                    now: final(self).scheduler.now(),
                    store: final(self).state.store_view(),
                    queues: final(self).state.queues_view(),
                });
                &&& r == true
                &&& final(self).scheduler.now() == e.time@
                &&& final(self).scheduler.now() >= old(self).scheduler.now()
                &&& final(self).scheduler.pops() == old(self).scheduler.pops() + 1
                &&& (e.component@ < cs.len() ==> cs[e.component@ as int].process_ens(
                    e.component,
                    e.event,
                    pre,
                    post,
                ))
                &&& (e.component@ >= cs.len() ==> post.entries == pre.entries
                    && final(self).state == old(self).state)
            }),
            final(self).components == old(self).components,
    {
        match self.scheduler.pop() {
            Some(entry) => {
                if entry.component_idx() < self.components.len() {
                    self.components.process_event_entry(
                        entry,
                        &mut self.scheduler,
                        &mut self.state,
                    );
                }
                true
            },
            None => false,
        }
    }

    /// Runs the simulation until no events are left: on return the scheduler
    /// is empty, unless `usize::MAX` events were dispatched first — the
    /// loop's bound, which no practical simulation reaches. Time never
    /// decreases.
    ///
    /// A simulation whose components keep scheduling further events needs
    /// not terminate before that bound.
    pub fn run(&mut self)
        ensures
            final(self).scheduler.now() >= old(self).scheduler.now(),
            final(self).scheduler.pops() >= old(self).scheduler.pops(),
            final(self).components == old(self).components,
            final(self).scheduler.entries().len() == 0 || final(self).scheduler.pops() >= old(
                self,
            ).scheduler.pops() + usize::MAX,
    {
        let mut fuel: usize = usize::MAX;
        let mut more = self.step();
        while more && fuel > 0
            invariant
                self.scheduler.now() >= old(self).scheduler.now(),
                self.scheduler.pops() >= old(self).scheduler.pops(),
                self.components == old(self).components,
                more ==> self.scheduler.pops() >= old(self).scheduler.pops() + 1 + (usize::MAX
                    - fuel),
                !more ==> self.scheduler.entries().len() == 0,
            decreases fuel,
        {
            fuel = fuel - 1;
            more = self.step();
        }
    }

    /// Adds a new component.
    #[must_use]
    pub fn add_component(&mut self, component: C) -> (r: ComponentId<C::Event>)
        ensures
            r@ == old(self).components@.len(),
            final(self).components@ == old(self).components@.push(component),
            final(self).state == old(self).state,
            final(self).scheduler == old(self).scheduler,
    {
        self.components.add_component(component)
    }

    /// Adds a new queue.
    #[must_use]
    pub fn add_queue(&mut self, queue: C::Queues) -> (r: QueueId<C::Queues>)
        ensures
            r@ == old(self).state.queues_view().len(),
            final(self).state.queues_view() == old(self).state.queues_view().push(queue),
            final(self).state.store_view() == old(self).state.store_view(),
            final(self).scheduler == old(self).scheduler,
            final(self).components == old(self).components,
    {
        self.state.add_queue(queue)
    }

    /// Schedules a new event to be delivered to `component` at `time` from
    /// now. The new entry goes behind every entry due at or before that
    /// moment, so simultaneous events keep schedule order.
    pub fn schedule(&mut self, time: Duration, component: ComponentId<C::Event>, event: C::Event)
        requires
            old(self).scheduler.now() + time@ <= u64::MAX,
        ensures
            final(self).scheduler.now() == old(self).scheduler.now(),
            ({
                let t = old(self).scheduler.now() + time@;
                let pos = scheduler::time_insert_idx(old(self).scheduler.entries(), t);
                let entry = final(self).scheduler.entries()[pos];
                &&& final(self).scheduler.entries() == old(self).scheduler.entries().insert(
                    pos,
                    entry,
                )
                &&& entry.time@ == t
                &&& entry.component == component
                &&& entry.event == event
            }),
            final(self).state == old(self).state,
            final(self).components == old(self).components,
    {
        self.scheduler.schedule(time, component, event);
    }
}

impl<C, T> Simulation<C> where C: Component<Queues = Fifo<T>> {
    /// Adds a new bounded FIFO queue of the given capacity.
    #[must_use]
    pub fn add_bounded_queue(&mut self, capacity: usize) -> (r: QueueId<Fifo<T>>)
        ensures
            r@ == old(self).state.queues_view().len(),
            final(self).state.queues_view().len() == old(self).state.queues_view().len() + 1,
            final(self).state.queues_view()[r@ as int].contents() == Seq::<T>::empty(),
            final(self).state.queues_view()[r@ as int].cap() == capacity,
            forall|j: int|
                0 <= j < old(self).state.queues_view().len()
                    ==> final(self).state.queues_view()[j] == #[trigger] old(
                    self,
                ).state.queues_view()[j],
            final(self).state.store_view() == old(self).state.store_view(),
            final(self).scheduler == old(self).scheduler,
            final(self).components == old(self).components,
    {
        self.state.add_queue(Fifo::bounded(capacity))
    }
}

impl<C: Component> Default for Simulation<C> {
    /// An empty simulation: no stored values, no queues, no upcoming events,
    /// no components, and the clock at zero.
    fn default() -> (r: Self)
        ensures
            r.state.store_view() == Seq::<Option<C::Value>>::empty(),
            r.state.queues_view() == Seq::<C::Queues>::empty(),
            r.scheduler.entries() == Seq::<EventEntry<C::Event>>::empty(),
            r.scheduler.now() == 0,
            r.components@ == Seq::<C>::empty(),
    {
        Simulation {
            state: State::default(),
            scheduler: Scheduler::default(),
            components: Components::default(),
        }
    }
}

} // verus!
