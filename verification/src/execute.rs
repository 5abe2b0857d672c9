//! Execution drivers with termination policies.
//!
//! An [`Executor`] runs a whole simulation under one of three policies:
//! until no events are left, no longer than a given time, or for at most a
//! given number of steps. A side effect can be attached that observes the
//! simulation after each successful step.
//!
//! The drivers' loops give up after `usize::MAX` dispatches, a bound no
//! practical simulation reaches; where a contract below cannot promise its
//! policy's stopping condition unconditionally, that escape shows up as a
//! pop-count disjunct.

use vstd::prelude::*;

use crate::component::Component;
use crate::time::Duration;
use crate::Simulation;

verus! {

/// The later of two times, in nanoseconds.
pub open spec fn max_time(a: nat, b: nat) -> nat {
    if a >= b {
        a
    } else {
        b
    }
}

/// When an executor stops.
#[derive(Debug, Clone, Copy, PartialEq, Eq)]
pub enum EndCondition {
    /// Stop once the next event would be due after this time.
    Time(Duration),
    /// Stop once no events are left.
    EmptyQueue,
    /// Stop after this many steps, or earlier if no events are left.
    Steps(usize),
}

/// What running a simulation to completion under `end_condition` promises.
///
/// Always: time never decreases, dispatching only pops events, and the
/// component registry is untouched. Under `Time(t)`: the clock ends at or
/// below `t` (or where it started, if that was already later), and on return
/// the queue is empty or its next entry is due after `t` — nothing due at or
/// before `t` is left behind. Under `EmptyQueue`: the queue is empty on
/// return. Under `Steps(n)`: exactly `n` events were dispatched, or fewer
/// and the queue is empty.
pub open spec fn policy_ens<C: Component>(
    end_condition: EndCondition,
    pre: Simulation<C>,
    post: Simulation<C>,
) -> bool {
    &&& post.scheduler.now() >= pre.scheduler.now()
    &&& post.scheduler.pops() >= pre.scheduler.pops()
    &&& post.components == pre.components
    &&& match end_condition {
        EndCondition::Time(t) => {
            &&& post.scheduler.now() <= max_time(t@, pre.scheduler.now())
            &&& (post.scheduler.entries().len() == 0 || post.scheduler.entries()[0].time@ > t@
                || post.scheduler.pops() >= pre.scheduler.pops() + usize::MAX)
        },
        EndCondition::EmptyQueue => post.scheduler.entries().len() == 0
            || post.scheduler.pops() >= pre.scheduler.pops() + usize::MAX,
        EndCondition::Steps(n) => {
            &&& post.scheduler.pops() <= pre.scheduler.pops() + n
            &&& (post.scheduler.pops() == pre.scheduler.pops() + n || post.scheduler.entries().len()
                == 0)
        },
    }
}

/// Simulation execution trait.
pub trait Execute<C: Component>: Sized {
    /// What the executor asks of its own configuration.
    spec fn execute_req(&self) -> bool;

    /// What executing promises, relating the simulation before and after.
    spec fn execute_ens(&self, pre: Simulation<C>, post: Simulation<C>) -> bool;

    /// Executes the simulation until some stopping condition is reached.
    /// The condition is implementation-specific.
    fn execute(self, sim: &mut Simulation<C>)
        requires
            self.execute_req(),
        ensures
            self.execute_ens(*old(sim), *final(sim)),
    ;
}

/// Executor for simple execution of an entire simulation, with a choice of
/// termination policy.
///
/// See the [crate-level documentation](index.html) for examples.
#[derive(Debug, Clone, Copy, PartialEq, Eq)]
pub struct Executor {
    /// When the executor stops.
    pub end_condition: EndCondition,
}

impl Executor {
    /// The simulation will end only once there are no events left in the
    /// queue.
    #[must_use]
    pub fn unbound() -> (r: Self)
        ensures
            r == (Executor { end_condition: EndCondition::EmptyQueue }),
    {
        Executor { end_condition: EndCondition::EmptyQueue }
    }

    /// The simulation will be run no longer than the given time. It may
    /// terminate early if no events are available; the clock then stays at
    /// the last dispatched event's time, not at `time`.
    #[must_use]
    pub fn timed(time: Duration) -> (r: Self)
        ensures
            r == (Executor { end_condition: EndCondition::Time(time) }),
    {
        Executor { end_condition: EndCondition::Time(time) }
    }

    /// The simulation will execute at most this many steps; it stops early
    /// if no events are left.
    #[must_use]
    pub fn steps(steps: usize) -> (r: Self)
        ensures
            r == (Executor { end_condition: EndCondition::Steps(steps) }),
    {
        Executor { end_condition: EndCondition::Steps(steps) }
    }

    /// Registers a side effect that is called *after* each successful
    /// simulation step, with an immutable view of the simulation. It is
    /// never called on the step that found the queue empty.
    #[must_use]
    pub fn side_effect<F>(self, func: F) -> (r: ExecutorWithSideEffect<F>)
        ensures
            r == (ExecutorWithSideEffect { end_condition: self.end_condition, side_effect: func }),
    {
        ExecutorWithSideEffect { end_condition: self.end_condition, side_effect: func }
    }
}

impl<C: Component> Execute<C> for Executor {
    open spec fn execute_req(&self) -> bool {
        true
    }

    /// Exactly [`policy_ens`] for this executor's end condition.
    open spec fn execute_ens(&self, pre: Simulation<C>, post: Simulation<C>) -> bool {
        policy_ens(self.end_condition, pre, post)
    }

    fn execute(self, sim: &mut Simulation<C>) {
        run_with(sim, self.end_condition, |_s: &Simulation<C>| {});
    }
}

/// An [`Executor`] together with a side effect called after each successful
/// step.
pub struct ExecutorWithSideEffect<F> {
    /// When the executor stops.
    pub end_condition: EndCondition,
    /// Called after each successful step with a view of the simulation.
    pub side_effect: F,
}

impl<C: Component, F: Fn(&Simulation<C>)> Execute<C> for ExecutorWithSideEffect<F> {
    /// The side effect must be callable on any simulation view.
    open spec fn execute_req(&self) -> bool {
        forall|s: &Simulation<C>| call_requires(self.side_effect, (s,))
    }

    /// [`policy_ens`] for this executor's end condition; moreover, whenever
    /// at least one event was dispatched, the side effect has observed the
    /// final state — it is called after every successful step, the last one
    /// included, and never on the step that found the queue empty.
    open spec fn execute_ens(&self, pre: Simulation<C>, post: Simulation<C>) -> bool {
        &&& policy_ens(self.end_condition, pre, post)
        &&& (post.scheduler.pops() > pre.scheduler.pops() ==> call_ensures(
            self.side_effect,
            (&post,),
            (),
        ))
    }

    fn execute(self, sim: &mut Simulation<C>) {
        run_with(sim, self.end_condition, self.side_effect);
    }
}

/// Runs `sim` under the given end condition, calling `side_effect` after
/// each successful step (and never on the step that found the queue empty),
/// so that after a run with at least one dispatch the side effect has
/// observed the final state.
fn run_with<C: Component, F: Fn(&Simulation<C>)>(
    sim: &mut Simulation<C>,
    end_condition: EndCondition,
    side_effect: F,
)
    requires
        forall|s: &Simulation<C>| call_requires(side_effect, (s,)),
    ensures
        policy_ens(end_condition, *old(sim), *final(sim)),
        ({
            let post = *final(sim);
            post.scheduler.pops() > old(sim).scheduler.pops() ==> call_ensures(
                side_effect,
                (&post,),
                (),
            )
        }),
{
    match end_condition {
        EndCondition::Time(time) => execute_until(sim, time, side_effect),
        EndCondition::EmptyQueue => execute_until_empty(sim, side_effect),
        EndCondition::Steps(steps) => execute_steps(sim, steps, side_effect),
    }
}

/// Steps until no events are left, calling `side_effect` after each
/// successful step: on return the queue is empty, unless `usize::MAX` events
/// were dispatched first.
fn execute_until_empty<C: Component, F: Fn(&Simulation<C>)>(
    sim: &mut Simulation<C>,
    side_effect: F,
)
    requires
        forall|s: &Simulation<C>| call_requires(side_effect, (s,)),
    ensures
        final(sim).scheduler.now() >= old(sim).scheduler.now(),
        final(sim).scheduler.pops() >= old(sim).scheduler.pops(),
        final(sim).components == old(sim).components,
        final(sim).scheduler.entries().len() == 0 || final(sim).scheduler.pops() >= old(sim).scheduler.pops() + usize::MAX,
        ({
            let post = *final(sim);
            post.scheduler.pops() > old(sim).scheduler.pops() ==> call_ensures(
                side_effect,
                (&post,),
                (),
            )
        }),
{
    let mut fuel: usize = usize::MAX;
    let mut more = sim.step();
    if more {
        side_effect(&*sim);
    }
    while more && fuel > 0
        invariant
            forall|s: &Simulation<C>| call_requires(side_effect, (s,)),
            sim.scheduler.now() >= old(sim).scheduler.now(),
            sim.scheduler.pops() >= old(sim).scheduler.pops(),
            sim.components == old(sim).components,
            more ==> sim.scheduler.pops() >= old(sim).scheduler.pops() + 1 + (usize::MAX - fuel),
            !more ==> sim.scheduler.entries().len() == 0,
            ({
                let cur = *sim;
                cur.scheduler.pops() > old(sim).scheduler.pops() ==> call_ensures(
                    side_effect,
                    (&cur,),
                    (),
                )
            }),
        decreases fuel,
    {
        fuel = fuel - 1;
        more = sim.step();
        if more {
            side_effect(&*sim);
        }
    }
}

/// Whether the next scheduled event is due at or before `time`.
fn next_within<C: Component>(sim: &Simulation<C>, time: Duration) -> (r: bool)
    ensures
        r == (sim.scheduler.entries().len() > 0 && sim.scheduler.entries()[0].time@ <= time@),
{
    match sim.scheduler.peek() {
        Some(entry) => entry.time.as_nanos() <= time.as_nanos(),
        None => false,
    }
}

/// Steps while the next event is due at or before `time`, calling
/// `side_effect` after each successful step. No dispatched event is due
/// after `time`, so the clock never passes it; on return the queue is empty
/// or its next entry is due after `time`, unless `usize::MAX` events were
/// dispatched first.
fn execute_until<C: Component, F: Fn(&Simulation<C>)>(
    sim: &mut Simulation<C>,
    time: Duration,
    side_effect: F,
)
    requires
        forall|s: &Simulation<C>| call_requires(side_effect, (s,)),
    ensures
        final(sim).scheduler.now() >= old(sim).scheduler.now(),
        final(sim).scheduler.pops() >= old(sim).scheduler.pops(),
        final(sim).components == old(sim).components,
        final(sim).scheduler.now() <= max_time(time@, old(sim).scheduler.now()),
        final(sim).scheduler.entries().len() == 0 || final(sim).scheduler.entries()[0].time@
            > time@ || final(sim).scheduler.pops() >= old(sim).scheduler.pops() + usize::MAX,
        ({
            let post = *final(sim);
            post.scheduler.pops() > old(sim).scheduler.pops() ==> call_ensures(
                side_effect,
                (&post,),
                (),
            )
        }),
{
    let mut fuel: usize = usize::MAX;
    let mut more = next_within(sim, time);
    while more && fuel > 0
        invariant
            forall|s: &Simulation<C>| call_requires(side_effect, (s,)),
            sim.scheduler.now() >= old(sim).scheduler.now(),
            sim.scheduler.now() <= max_time(time@, old(sim).scheduler.now()),
            sim.components == old(sim).components,
            sim.scheduler.pops() == old(sim).scheduler.pops() + (usize::MAX - fuel),
            more == (sim.scheduler.entries().len() > 0 && sim.scheduler.entries()[0].time@
                <= time@),
            ({
                let cur = *sim;
                cur.scheduler.pops() > old(sim).scheduler.pops() ==> call_ensures(
                    side_effect,
                    (&cur,),
                    (),
                )
            }),
        decreases fuel,
    {
        fuel = fuel - 1;
        let stepped = sim.step();
        if stepped {
            side_effect(&*sim);
        }
        more = next_within(sim, time);
    }
}

/// Steps at most `steps` times, calling `side_effect` after each successful
/// step: exactly `steps` events are dispatched, or fewer and the queue is
/// empty on return.
fn execute_steps<C: Component, F: Fn(&Simulation<C>)>(
    sim: &mut Simulation<C>,
    steps: usize,
    side_effect: F,
)
    requires
        forall|s: &Simulation<C>| call_requires(side_effect, (s,)),
    ensures
        final(sim).scheduler.now() >= old(sim).scheduler.now(),
        final(sim).scheduler.pops() >= old(sim).scheduler.pops(),
        final(sim).components == old(sim).components,
        final(sim).scheduler.pops() <= old(sim).scheduler.pops() + steps,
        final(sim).scheduler.pops() == old(sim).scheduler.pops() + steps || final(sim).scheduler.entries().len() == 0,
        ({
            let post = *final(sim);
            post.scheduler.pops() > old(sim).scheduler.pops() ==> call_ensures(
                side_effect,
                (&post,),
                (),
            )
        }),
{
    let mut i: usize = 0;
    let mut more = true;
    while more && i < steps
        invariant
            forall|s: &Simulation<C>| call_requires(side_effect, (s,)),
            sim.scheduler.now() >= old(sim).scheduler.now(),
            sim.scheduler.pops() >= old(sim).scheduler.pops(),
            sim.components == old(sim).components,
            i <= steps,
            more ==> sim.scheduler.pops() == old(sim).scheduler.pops() + i,
            !more ==> sim.scheduler.entries().len() == 0 && sim.scheduler.pops() + 1 == old(sim).scheduler.pops() + i,
            ({
                let cur = *sim;
                cur.scheduler.pops() > old(sim).scheduler.pops() ==> call_ensures(
                    side_effect,
                    (&cur,),
                    (),
                )
            }),
        decreases steps - i,
    {
        i = i + 1;
        more = sim.step();
        if more {
            side_effect(&*sim);
        }
    }
}

} // verus!
