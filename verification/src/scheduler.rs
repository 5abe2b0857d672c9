//! The event scheduler and the simulation clock.
//!
//! The scheduler keeps the current simulation time and the queue of upcoming
//! events, ordered by the time at which they are due. Entries due at the same
//! time leave in the order they were scheduled. Popping an entry advances the
//! clock to the entry's time; time never decreases.

use vstd::prelude::*;

use crate::time::Duration;
use crate::ComponentId;

verus! {

/// Entry type stored in the scheduler: an event value, the identifier of the
/// component it is addressed to, and the absolute simulation time at which it
/// is due.
#[derive(Debug)]
pub struct EventEntry<E> {
    /// The absolute simulation time at which the entry is due.
    pub time: Duration,
    /// The component the event is addressed to.
    pub component: ComponentId<E>,
    /// The event payload.
    pub event: E,
}

impl<E> EventEntry<E> {
    /// Builds an entry due at the absolute time `time`.
    pub fn new(time: Duration, component: ComponentId<E>, event: E) -> (r: Self)
        ensures
            r == (EventEntry { time, component, event }),
    {
        EventEntry { time, component, event }
    }

    /// The absolute simulation time at which the entry is due.
    pub fn time(&self) -> (r: Duration)
        ensures
            r == self.time,
    {
        self.time
    }

    /// The numeric index of the component the event is addressed to.
    pub fn component_idx(&self) -> (r: usize)
        ensures
            r == self.component@,
    {
        self.component.id
    }

    /// Views the entry together with a typed handle of its component.
    ///
    /// The scheduler is typed throughout, so the view always succeeds; the
    /// option mirrors the shape a type-erased store would give.
    pub fn downcast(&self) -> (r: Option<EventEntryTyped<'_, E>>)
        ensures
            r == Some(
                (EventEntryTyped {
                    time: self.time,
                    component_id: self.component,
                    component_idx: self.component@ as usize,
                    event: &self.event,
                }),
            ),
    {
        Some(
            EventEntryTyped {
                time: self.time,
                component_id: self.component,
                component_idx: self.component.id,
                event: &self.event,
            },
        )
    }
}

/// A typed view of an [`EventEntry`].
#[derive(Debug)]
pub struct EventEntryTyped<'e, E> {
    /// The absolute simulation time at which the entry is due.
    pub time: Duration,
    /// The typed identifier of the component the event is addressed to.
    pub component_id: ComponentId<E>,
    /// The numeric index of that component.
    pub component_idx: usize,
    /// The event payload.
    pub event: &'e E,
}

/// Holds when the entries of `s` are in non-decreasing time order.
pub open spec fn entries_sorted<E>(s: Seq<EventEntry<E>>) -> bool {
    forall|i: int, j: int|
        #![trigger s[i].time@, s[j].time@]
        0 <= i <= j < s.len() ==> s[i].time@ <= s[j].time@
}

/// The position at which an entry due at `t` enters the queue: after every
/// entry due at or before `t`, so that entries due at the same time keep
/// the order in which they were scheduled.
pub open spec fn time_insert_idx<E>(s: Seq<EventEntry<E>>, t: nat) -> int
    decreases s.len(),
{
    if s.len() == 0 {
        0
    } else if s[0].time@ <= t {
        1 + time_insert_idx(s.drop_first(), t)
    } else {
        0
    }
}

/// Bounds and boundary facts of [`time_insert_idx`]: the index is within the
/// sequence, every entry before it is due at or before `t`, and the entry at
/// the index (if any) is due after `t`.
proof fn lemma_time_insert_idx_facts<E>(s: Seq<EventEntry<E>>, t: nat)
    ensures
        0 <= time_insert_idx(s, t) <= s.len(),
        forall|k: int| 0 <= k < time_insert_idx(s, t) ==> #[trigger] s[k].time@ <= t,
        time_insert_idx(s, t) < s.len() ==> s[time_insert_idx(s, t)].time@ > t,
    decreases s.len(),
{
    if s.len() > 0 && s[0].time@ <= t {
        lemma_time_insert_idx_facts(s.drop_first(), t);
        assert forall|k: int| 0 <= k < time_insert_idx(s, t) implies #[trigger] s[k].time@
            <= t by {
            if k > 0 {
                assert(s.drop_first()[k - 1].time@ <= t);
            }
        }
    }
}

/// [`time_insert_idx`] is the only index with the boundary facts above.
proof fn lemma_time_insert_idx_unique<E>(s: Seq<EventEntry<E>>, t: nat, i: int)
    requires
        0 <= i <= s.len(),
        forall|k: int| 0 <= k < i ==> #[trigger] s[k].time@ <= t,
        i < s.len() ==> s[i].time@ > t,
    ensures
        i == time_insert_idx(s, t),
    decreases s.len(),
{
    if s.len() == 0 {
    } else if s[0].time@ <= t {
        assert(i >= 1);
        assert forall|k: int| 0 <= k < i - 1 implies #[trigger] s.drop_first()[k].time@
            <= t by {
            assert(s[k + 1].time@ <= t);
        }
        lemma_time_insert_idx_unique(s.drop_first(), t, i - 1);
    } else {
        assert(i == 0);
    }
}

/// Inserting an entry due at `e.time` at [`time_insert_idx`] keeps the queue
/// in non-decreasing time order.
proof fn lemma_time_insert_sorted<E>(s: Seq<EventEntry<E>>, e: EventEntry<E>)
    requires
        entries_sorted(s),
    ensures
        entries_sorted(s.insert(time_insert_idx(s, e.time@), e)),
{
    let idx = time_insert_idx(s, e.time@);
    lemma_time_insert_idx_facts(s, e.time@);
    s.insert_ensures(idx, e);
    let u = s.insert(idx, e);
    assert forall|i: int, j: int|
        #![trigger u[i].time@, u[j].time@]
        0 <= i <= j < u.len() implies u[i].time@ <= u[j].time@ by {
        if j < idx {
            assert(u[i] == s[i]);
            assert(u[j] == s[j]);
            assert(s[i].time@ <= s[j].time@);
        } else if i < idx && j == idx {
            assert(u[i] == s[i]);
            assert(u[j] == e);
            assert(s[i].time@ <= e.time@);
        } else if i < idx && j > idx {
            assert(u[i] == s[i]);
            assert(u[j] == s[j - 1]);
            assert(s[i].time@ <= s[j - 1].time@);
        } else if i == idx && j == idx {
        } else if i == idx && j > idx {
            assert(u[i] == e);
            assert(u[j] == s[j - 1]);
            assert(idx <= j - 1 < s.len());
            assert(e.time@ < s[idx].time@);
            assert(s[idx].time@ <= s[j - 1].time@);
        } else {
            assert(u[i] == s[i - 1]);
            assert(u[j] == s[j - 1]);
            assert(s[i - 1].time@ <= s[j - 1].time@);
        }
    }
}

/// Ordering law: of two events scheduled at the same clock reading with the
/// same delay — so due at the same time — the one scheduled first sits
/// strictly nearer the front of the queue, and is therefore popped first.
///
/// `s` is the queue before the two schedules, `e1` the entry scheduled first
/// and `e2` the entry scheduled second.
pub proof fn lemma_schedule_fifo_order<E>(
    s: Seq<EventEntry<E>>,
    e1: EventEntry<E>,
    e2: EventEntry<E>,
)
    requires
        e1.time@ == e2.time@,
    ensures
        ({
            let pos1 = time_insert_idx(s, e1.time@);
            let s1 = s.insert(pos1, e1);
            let pos2 = time_insert_idx(s1, e2.time@);
            let s2 = s1.insert(pos2, e2);
            &&& pos1 < pos2
            &&& s2[pos1] == e1
            &&& s2[pos2] == e2
        }),
{
    let t = e1.time@;
    let pos1 = time_insert_idx(s, t);
    lemma_time_insert_idx_facts(s, t);
    s.insert_ensures(pos1, e1);
    let s1 = s.insert(pos1, e1);
    let pos2 = time_insert_idx(s1, t);
    lemma_time_insert_idx_facts(s1, t);
    s1.insert_ensures(pos2, e2);
    if pos2 <= pos1 {
        assert(s1[pos2].time@ > t);
        assert(s1[pos1] == e1);
        if pos2 < pos1 {
            assert(s1[pos2] == s[pos2]);
            assert(s[pos2].time@ <= t);
        }
        assert(false);
    }
}

/// Scheduler: keeps the current simulation time and the upcoming events.
///
/// Events are due at absolute times; [`Scheduler::pop`] removes the earliest
/// entry (ties in schedule order) and advances the clock to its time, so the
/// clock never decreases.
pub struct Scheduler<E> {
    events: Vec<EventEntry<E>>,
    clock: Duration,
    popped: Ghost<nat>,
}

impl<E> Scheduler<E> {
    /// Entries are kept sorted by due time, entries due at the same time in
    /// schedule order, and no entry is due before the current clock.
    #[verifier::type_invariant]
    spec fn inv(self) -> bool {
        &&& entries_sorted(self.events@)
        &&& forall|i: int|
            0 <= i < self.events@.len() ==> self.clock@ <= #[trigger] self.events@[i].time@
    }

    /// The upcoming entries, earliest first.
    pub closed spec fn entries(&self) -> Seq<EventEntry<E>> {
        self.events@
    }

    /// The current simulation time, in nanoseconds.
    pub closed spec fn now(&self) -> nat {
        self.clock@
    }

    /// How many entries have been popped from this scheduler so far. The
    /// counter is ghost: it exists only in specifications, and exposes how
    /// much work a driver did where its queue cannot say (it may have grown
    /// meanwhile).
    pub closed spec fn pops(&self) -> nat {
        self.popped@
    }

    /// Schedules `event` to be delivered to `component` at `self.time() +
    /// time`. The new entry goes behind every entry due at or before that
    /// moment, so simultaneous events keep schedule order.
    pub fn schedule(&mut self, time: Duration, component: ComponentId<E>, event: E)
        requires
            old(self).now() + time@ <= u64::MAX,
        ensures
            final(self).now() == old(self).now(),
            final(self).pops() == old(self).pops(),
            ({
                let t = old(self).now() + time@;
                let pos = time_insert_idx(old(self).entries(), t);
                let entry = final(self).entries()[pos];
                &&& final(self).entries() == old(self).entries().insert(pos, entry)
                &&& entry.time@ == t
                &&& entry.component == component
                &&& entry.event == event
            }),
    {
        proof {
            use_type_invariant(&*self);
        }
        let t_ns = self.clock.as_nanos() + time.as_nanos();
        let entry = EventEntry { time: Duration::from_nanos(t_ns), component, event };
        let ghost s = self.events@;
        let mut idx: usize = 0;
        loop
            invariant_except_break
                idx <= self.events@.len(),
                forall|k: int| 0 <= k < idx ==> #[trigger] self.events@[k].time@ <= t_ns,
                self.events@ == s,
            ensures
                idx <= self.events@.len(),
                forall|k: int| 0 <= k < idx ==> #[trigger] self.events@[k].time@ <= t_ns,
                idx < self.events@.len() ==> self.events@[idx as int].time@ > t_ns,
                self.events@ == s,
            decreases self.events@.len() - idx,
        {
            if idx >= self.events.len() {
                break;
            }
            if self.events[idx].time.as_nanos() > t_ns {
                break;
            }
            idx += 1;
        }
        proof {
            lemma_time_insert_idx_unique(self.events@, t_ns as nat, idx as int);
            lemma_time_insert_sorted(self.events@, entry);
            self.events@.insert_ensures(idx as int, entry);
        }
        let mut events: Vec<EventEntry<E>> = Vec::new();
        std::mem::swap(&mut events, &mut self.events);
        events.insert(idx, entry);
        self.events = events;
    }

    /// Schedules `event` to be delivered to `component` at `self.time()`.
    pub fn schedule_now(&mut self, component: ComponentId<E>, event: E)
        ensures
            final(self).now() == old(self).now(),
            final(self).pops() == old(self).pops(),
            ({
                let pos = time_insert_idx(old(self).entries(), old(self).now());
                let entry = final(self).entries()[pos];
                &&& final(self).entries() == old(self).entries().insert(pos, entry)
                &&& entry.time@ == old(self).now()
                &&& entry.component == component
                &&& entry.event == event
            }),
    {
        proof {
            crate::time::lemma_duration_fits(self.clock);
        }
        self.schedule(Duration::default(), component, event);
    }

    /// Returns the current simulation time: the latest value of the clock at
    /// the moment of the read. The scheduler owns the clock, and only
    /// [`Scheduler::pop`] moves it, so any number of readers may observe it
    /// here, through a shared reference; no reader can mutate time.
    pub fn time(&self) -> (r: Duration)
        ensures
            r@ == self.now(),
    {
        self.clock
    }

    /// Removes and returns the earliest scheduled entry, or `None` if none
    /// are left, and advances the clock to the entry's time.
    ///
    /// After a successful pop the clock equals the popped entry's time and is
    /// at least its prior reading: time is monotonic.
    pub fn pop(&mut self) -> (r: Option<EventEntry<E>>)
        ensures
            old(self).entries().len() == 0 ==> r is None && *final(self) == *old(self),
            old(self).entries().len() > 0 ==> ({
                &&& r == Some(old(self).entries()[0])
                &&& final(self).entries() == old(self).entries().drop_first()
                &&& final(self).now() == old(self).entries()[0].time@
                &&& final(self).now() >= old(self).now()
                &&& final(self).pops() == old(self).pops() + 1
            }),
    {
        proof {
            use_type_invariant(&*self);
        }
        if self.events.len() > 0 {
            let mut events: Vec<EventEntry<E>> = Vec::new();
            std::mem::swap(&mut events, &mut self.events);
            let entry = events.remove(0);
            proof {
                assert(events@ =~= old(self).events@.drop_first());
                assert forall|i: int, j: int|
                    #![trigger events@[i].time@, events@[j].time@]
                    0 <= i <= j < events@.len() implies events@[i].time@ <= events@[j].time@ by {
                    assert(old(self).events@[i + 1].time@ <= old(self).events@[j + 1].time@);
                }
            }
            self.events = events;
            self.clock = entry.time;
            self.popped = Ghost(self.popped@ + 1);
            proof {
                assert forall|i: int|
                    0 <= i < self.events@.len() implies self.clock@
                    <= #[trigger] self.events@[i].time@ by {
                    assert(old(self).events@[0].time@ <= old(self).events@[i + 1].time@);
                }
            }
            Some(entry)
        } else {
            None
        }
    }

    /// Observes the earliest scheduled entry without advancing the clock.
    pub fn peek(&self) -> (r: Option<&EventEntry<E>>)
        ensures
            self.entries().len() == 0 ==> r is None,
            self.entries().len() > 0 ==> r == Some(&self.entries()[0]),
    {
        if self.events.len() > 0 {
            Some(&self.events[0])
        } else {
            None
        }
    }
}

impl<E> Default for Scheduler<E> {
    /// A scheduler with no events, the clock at zero, and nothing popped
    /// yet.
    fn default() -> (r: Self)
        ensures
            r.entries() == Seq::<EventEntry<E>>::empty(),
            r.now() == 0,
            r.pops() == 0,
    {
        Scheduler { events: Vec::new(), clock: Duration::default(), popped: Ghost(0) }
    }
}

} // verus!
