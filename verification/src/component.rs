//! Components and their registry.

use vstd::prelude::*;

use crate::queue::Queue;
use crate::scheduler::{EventEntry, Scheduler};
use crate::state::State;
use crate::ComponentId;

verus! {

/// A view of the parts of a simulation a handler works on: the scheduler's
/// entries and clock, and the state's stored values and queues. It exists
/// only in specifications, to relate the moment before a dispatch to the
/// moment after it.
pub struct HandlerView<E, V, Q> {
    /// The scheduler's upcoming entries, earliest first.
    pub entries: Seq<EventEntry<E>>,
    /// The simulation time, in nanoseconds.
    pub now: nat,
    /// The slots of the value store.
    pub store: Seq<Option<V>>,
    /// The registered queues, in registration order.
    pub queues: Seq<Q>,
}

/// Interface of a simulation component.
///
/// A component declares the type of event it reacts to, together with the
/// value type and the queue type of the state it works on. A handler runs to
/// completion before any other event is considered; it may read and write the
/// state, exchange queue items, and schedule further events. Handlers do not
/// move the clock and do not pop events: only the scheduler advances time,
/// when an event is popped for dispatch.
pub trait Component: Sized {
    /// The type of event the component reacts to.
    type Event;

    /// The type of the values the simulation state stores.
    type Value;

    /// The type of the queues the simulation state registers.
    type Queues: Queue;

    /// What one invocation of the handler does: relates the view of the
    /// simulation before the call to the view after it. Dispatch promises
    /// exactly this of the addressed component, so a component with a
    /// verified handler can expose its effect here. By default nothing is
    /// promised.
    open spec fn process_ens(
        &self,
        self_id: ComponentId<Self::Event>,
        event: Self::Event,
        pre: HandlerView<Self::Event, Self::Value, Self::Queues>,
        post: HandlerView<Self::Event, Self::Value, Self::Queues>,
    ) -> bool {
        true
    }

    /// Reacts to `event`. A component has access to the following elements
    /// of the simulation:
    /// - `self_id`: the identifier of this component, used to schedule
    ///   events to itself; it is passed in because the identifier is only
    ///   known once the component has been registered.
    /// - `event`: the occurring event.
    /// - `scheduler`: used to read the time and schedule new events.
    /// - `state`: used to access queues and values in the value store.
    fn process_event(
        &self,
        self_id: ComponentId<Self::Event>,
        event: &Self::Event,
        scheduler: &mut Scheduler<Self::Event>,
        state: &mut State<Self::Value, Self::Queues>,
    )
        ensures
            final(scheduler).now() == old(scheduler).now(),
            final(scheduler).pops() == old(scheduler).pops(),
            self.process_ens(
                self_id,
                *event,
                (HandlerView {
                    entries: old(scheduler).entries(),
                    now: old(scheduler).now(),
                    store: old(state).store_view(),
                    queues: old(state).queues_view(),
                }),
                (HandlerView {
                    entries: final(scheduler).entries(),
                    now: final(scheduler).now(),
                    store: final(state).store_view(),
                    queues: final(state).queues_view(),
                }),
            ),
    ;
}

/// Container holding the registered components.
///
/// A component's numeric identifier is its position in registration order;
/// components can only be added, never removed, so identifiers stay valid
/// for the lifetime of the registry. An identifier is meaningful only
/// together with the registry that minted it.
pub struct Components<C> {
    components: Vec<C>,
}

impl<C> View for Components<C> {
    type V = Seq<C>;

    closed spec fn view(&self) -> Seq<C> {
        self.components@
    }
}

impl<C: Component> Components<C> {
    /// The number of registered components.
    pub fn len(&self) -> (r: usize)
        ensures
            r == self@.len(),
    {
        self.components.len()
    }

    /// Registers a new component and returns its identifier.
    pub fn add_component(&mut self, component: C) -> (r: ComponentId<C::Event>)
        ensures
            r@ == old(self)@.len(),
            final(self)@ == old(self)@.push(component),
    {
        let id = self.components.len();
        self.components.push(component);
        ComponentId::new(id)
    }

    /// Delivers the event of `entry` to the component it is addressed to:
    /// invokes that component's handler with the entry's identifier and
    /// payload, so the handler's effect — its [`Component::process_ens`] —
    /// relates the scheduler and state before the call to those after it.
    /// The registry itself is never changed by a dispatch.
    ///
    /// Addressing an entry to an identifier this registry did not mint is a
    /// programmer error, excluded here; the simulation facade checks the
    /// index before forwarding an entry.
    pub fn process_event_entry(
        &self,
        entry: EventEntry<C::Event>,
        scheduler: &mut Scheduler<C::Event>,
        state: &mut State<C::Value, C::Queues>,
    )
        requires
            entry.component@ < self@.len(),
        ensures
            final(scheduler).now() == old(scheduler).now(),
            final(scheduler).pops() == old(scheduler).pops(),
            self@[entry.component@ as int].process_ens(
                entry.component,
                entry.event,
                (HandlerView {
                    entries: old(scheduler).entries(),
                    now: old(scheduler).now(),
                    store: old(state).store_view(),
                    queues: old(state).queues_view(),
                }),
                (HandlerView {
                    entries: final(scheduler).entries(),
                    now: final(scheduler).now(),
                    store: final(state).store_view(),
                    queues: final(state).queues_view(),
                }),
            ),
    {
        let idx = entry.component_idx();
        let component = &self.components[idx];
        component.process_event(entry.component, &entry.event, scheduler, state);
    }
}

impl<C> Default for Components<C> {
    /// A registry with no components.
    fn default() -> (r: Self)
        ensures
            r@ == Seq::<C>::empty(),
    {
        Components { components: Vec::new() }
    }
}

} // verus!
