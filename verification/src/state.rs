//! The simulation state: a value store and a queue registry.
//!
//! Components communicate only through the state: values are stored under
//! typed [`Key`]s minted at insertion, queues under typed [`QueueId`]s minted
//! at registration. Identifiers are local to the state that minted them; a
//! handle must not be mixed with another state. Queues can only be added,
//! never removed; values may be removed, which returns the owned value.

use vstd::prelude::*;

use crate::queue::{PushError, Queue};
use crate::{Key, QueueId};

verus! {

/// State of a simulation holding all queues and stored values.
///
/// The store is modelled as a sequence of slots: slot `i` belongs to the key
/// minted by the `i`-th insertion and reads `None` once the value was
/// removed. The queues are modelled as a sequence in registration order.
pub struct State<V, Q> {
    store: Vec<Option<V>>,
    queues: Vec<Q>,
}

impl<V, Q: Queue> State<V, Q> {
    /// The slots of the value store, in insertion order; a slot is `None`
    /// once its value was removed.
    pub closed spec fn store_view(&self) -> Seq<Option<V>> {
        self.store@
    }

    /// The registered queues, in registration order.
    pub closed spec fn queues_view(&self) -> Seq<Q> {
        self.queues@
    }

    /// Inserts a value into the value store; the returned key is the only
    /// way to reach the value again, and stays valid for the lifetime of
    /// this state unless the value is removed.
    #[must_use]
    pub fn insert(&mut self, value: V) -> (r: Key<V>)
        ensures
            r@ == old(self).store_view().len(),
            final(self).store_view() == old(self).store_view().push(Some(value)),
            final(self).queues_view() == old(self).queues_view(),
    {
        let id = self.store.len();
        self.store.push(Some(value));
        Key::new(id)
    }

    /// Removes the value held under `key` and returns it, transferring
    /// ownership; returns `None` if the value was already removed.
    pub fn remove(&mut self, key: Key<V>) -> (r: Option<V>)
        ensures
            final(self).queues_view() == old(self).queues_view(),
            key@ < old(self).store_view().len() ==> ({
                &&& r == old(self).store_view()[key@ as int]
                &&& final(self).store_view() == old(self).store_view().update(
                    key@ as int,
                    None::<V>,
                )
            }),
            key@ >= old(self).store_view().len() ==> r is None && *final(self) == *old(self),
    {
        if key.id < self.store.len() {
            let slot = vstd::std_specs::vec::vec_index_mut(&mut self.store, key.id);
            slot.take()
        } else {
            None
        }
    }

    /// Borrows the value held under `key`, or returns `None` if the value
    /// was removed.
    pub fn get(&self, key: Key<V>) -> (r: Option<&V>)
        ensures
            r is Some <==> (key@ < self.store_view().len() && self.store_view()[key@ as int]
                is Some),
            r is Some ==> *r.unwrap() == self.store_view()[key@ as int].unwrap(),
    {
        if key.id < self.store.len() {
            match &self.store[key.id] {
                Some(v) => Some(v),
                None => None,
            }
        } else {
            None
        }
    }

    /// Exclusively borrows the value held under `key`, or returns `None` if
    /// the value was removed. Writes through the borrow update the stored
    /// value.
    pub fn get_mut(&mut self, key: Key<V>) -> (r: Option<&mut V>)
        ensures
            final(self).queues_view() == old(self).queues_view(),
            r is Some <==> (key@ < old(self).store_view().len() && old(self).store_view()[key@
                as int] is Some),
            r is Some ==> *r.unwrap() == old(self).store_view()[key@ as int].unwrap()
                && final(self).store_view() == old(self).store_view().update(
                key@ as int,
                Some(*final(r.unwrap())),
            ),
            r is None ==> final(self).store_view() =~= old(self).store_view(),
    {
        if key.id < self.store.len() {
            let slot = vstd::std_specs::vec::vec_index_mut(&mut self.store, key.id);
            if slot.is_some() {
                slot.as_mut()
            } else {
                None
            }
        } else {
            None
        }
    }

    /// Installs a queue and returns its identifier. Queues cannot be
    /// removed, so the identifier stays valid for the lifetime of this
    /// state.
    pub fn add_queue(&mut self, queue: Q) -> (r: QueueId<Q>)
        ensures
            r@ == old(self).queues_view().len(),
            final(self).queues_view() == old(self).queues_view().push(queue),
            final(self).store_view() == old(self).store_view(),
    {
        let id = self.queues.len();
        self.queues.push(queue);
        QueueId::new(id)
    }

    /// Sends `value` to the queue `queue`. This is a shorthand for
    /// `queue_mut(queue).push(value)`.
    ///
    /// # Errors
    ///
    /// Returns an error exactly when the queue is full.
    pub fn send(&mut self, queue: QueueId<Q>, value: Q::Item) -> (r: Result<(), PushError>)
        requires
            queue@ < old(self).queues_view().len(),
        ensures
            ({
                let q = old(self).queues_view()[queue@ as int];
                &&& q.contents().len() <= q.cap()
                &&& final(self).queues_view()[queue@ as int].contents().len() <= q.cap()
                &&& final(self).store_view() == old(self).store_view()
                &&& final(self).queues_view().len() == old(self).queues_view().len()
                &&& (forall|j: int|
                    0 <= j < old(self).queues_view().len() && j != queue@ as int
                        ==> final(self).queues_view()[j] == #[trigger] old(self).queues_view()[j])
                &&& final(self).queues_view()[queue@ as int].cap() == q.cap()
                &&& (r is Ok <==> q.contents().len() < q.cap())
                &&& (q.contents().len() < q.cap() ==> final(self).queues_view()[queue@
                    as int].contents() == q.pushed(value))
                &&& (q.contents().len() >= q.cap() ==> final(self).queues_view()[queue@ as int]
                    == q)
            }),
    {
        let q = vstd::std_specs::vec::vec_index_mut(&mut self.queues, queue.id);
        q.push(value)
    }

    /// Pops the next value from the queue `queue`, or returns `None` if the
    /// queue is empty. This is a shorthand for `queue_mut(queue).pop()`.
    pub fn recv(&mut self, queue: QueueId<Q>) -> (r: Option<Q::Item>)
        requires
            queue@ < old(self).queues_view().len(),
        ensures
            ({
                let q = old(self).queues_view()[queue@ as int];
                &&& q.contents().len() <= q.cap()
                &&& final(self).queues_view()[queue@ as int].contents().len() <= q.cap()
                &&& final(self).store_view() == old(self).store_view()
                &&& final(self).queues_view().len() == old(self).queues_view().len()
                &&& (forall|j: int|
                    0 <= j < old(self).queues_view().len() && j != queue@ as int
                        ==> final(self).queues_view()[j] == #[trigger] old(self).queues_view()[j])
                &&& final(self).queues_view()[queue@ as int].cap() == q.cap()
                &&& (q.contents().len() == 0 ==> r is None && final(self).queues_view()[queue@
                    as int] == q)
                &&& (q.contents().len() > 0 ==> r == Some(q.contents()[0])
                    && final(self).queues_view()[queue@ as int].contents()
                        == q.contents().drop_first())
            }),
    {
        let q = vstd::std_specs::vec::vec_index_mut(&mut self.queues, queue.id);
        q.pop()
    }

    /// The number of elements in the queue `queue`. This is a shorthand for
    /// `queue(queue).len()`.
    pub fn len(&self, queue: QueueId<Q>) -> (r: usize)
        requires
            queue@ < self.queues_view().len(),
        ensures
            r == self.queues_view()[queue@ as int].contents().len(),
    {
        self.queue(queue).len()
    }

    /// Borrows the queue held under `queue`, for queue-specific operations
    /// the shorthands do not expose.
    pub fn queue(&self, queue: QueueId<Q>) -> (r: &Q)
        requires
            queue@ < self.queues_view().len(),
        ensures
            *r == self.queues_view()[queue@ as int],
    {
        &self.queues[queue.id]
    }

    /// Exclusively borrows the queue held under `queue`, for queue-specific
    /// operations the shorthands do not expose.
    pub fn queue_mut(&mut self, queue: QueueId<Q>) -> (r: &mut Q)
        requires
            queue@ < old(self).queues_view().len(),
        ensures
            *r == old(self).queues_view()[queue@ as int],
            final(self).queues_view() == old(self).queues_view().update(
                queue@ as int,
                *final(r),
            ),
            final(self).store_view() == old(self).store_view(),
    {
        vstd::std_specs::vec::vec_index_mut(&mut self.queues, queue.id)
    }
}

impl<V, Q: Queue> Default for State<V, Q> {
    /// A state with no stored values and no queues.
    fn default() -> (r: Self)
        ensures
            r.store_view() == Seq::<Option<V>>::empty(),
            r.queues_view() == Seq::<Q>::empty(),
    {
        State { store: Vec::new(), queues: Vec::new() }
    }
}

/// Key safety: a key minted by an insertion reads back the inserted value,
/// keeps doing so across operations under any other key, and reads as none
/// once the value is removed.
///
/// `s` is the store before the insertion, so the minted key is slot
/// `s.len()`; `j` with new contents `w` stands for any later operation under
/// another key.
pub proof fn lemma_key_safety<V>(s: Seq<Option<V>>, v: V, j: int, w: Option<V>)
    requires
        0 <= j < s.len(),
    ensures
        s.push(Some(v))[s.len() as int] == Some(v),
        s.push(Some(v)).update(j, w)[s.len() as int] == Some(v),
        s.push(Some(v)).update(s.len() as int, None::<V>)[s.len() as int] is None,
{
}

} // verus!
