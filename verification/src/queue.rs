//! Queues used by the simulation state.
//!
//! A queue is anything that can push an item (possibly failing when a
//! capacity bound is reached), pop the next item, and report its length.
//! The kernel ships two implementations: [`Fifo`], which returns items in
//! insertion order, and [`PriorityQueue`], which returns the greatest item
//! first per the item order given by [`Ranked`]. Both are unbounded by
//! default and can be capped with `bounded`.

use vstd::prelude::*;

verus! {

/// Error returned when an attempt to push an element to a queue fails
/// because the queue has reached its capacity.
#[derive(Debug, PartialEq, Eq, Clone, Copy)]
pub struct PushError;

impl PushError {
    /// A human-readable description of the error.
    pub fn message(&self) -> (r: &'static str)
        ensures
            r@ == "queue reached its capacity"@,
    {
        "queue reached its capacity"
    }
}

/// A total order on queue items, given by an integer rank.
///
/// [`PriorityQueue`] returns items of greatest rank first.
pub trait Ranked {
    /// The rank of the item; items of greater rank leave a priority queue
    /// earlier.
    spec fn rank(&self) -> int;

    /// Compares the ranks of two items.
    fn le_rank(&self, other: &Self) -> (r: bool)
        ensures
            r == (self.rank() <= other.rank()),
    ;
}

impl Ranked for i32 {
    open spec fn rank(&self) -> int {
        *self as int
    }

    fn le_rank(&self, other: &Self) -> (r: bool) {
        *self <= *other
    }
}

impl Ranked for i64 {
    open spec fn rank(&self) -> int {
        *self as int
    }

    fn le_rank(&self, other: &Self) -> (r: bool) {
        *self <= *other
    }
}

impl Ranked for u32 {
    open spec fn rank(&self) -> int {
        *self as int
    }

    fn le_rank(&self, other: &Self) -> (r: bool) {
        *self <= *other
    }
}

impl Ranked for u64 {
    open spec fn rank(&self) -> int {
        *self as int
    }

    fn le_rank(&self, other: &Self) -> (r: bool) {
        *self <= *other
    }
}

impl Ranked for usize {
    open spec fn rank(&self) -> int {
        *self as int
    }

    fn le_rank(&self, other: &Self) -> (r: bool) {
        *self <= *other
    }
}

/// Trait implemented by the queues used in the simulation.
///
/// The abstract model of a queue is the sequence [`Queue::contents`] of its
/// items in pop order, together with a capacity bound [`Queue::cap`]. What a
/// successful push does to the contents is given by [`Queue::pushed`].
pub trait Queue: Sized {
    /// The type of the items held by the queue.
    type Item;

    /// The items currently in the queue, in the order `pop` returns them.
    spec fn contents(&self) -> Seq<Self::Item>;

    /// The maximum number of items the queue can hold.
    spec fn cap(&self) -> nat;

    /// The contents after a successful push of `value`.
    spec fn pushed(&self, value: Self::Item) -> Seq<Self::Item>;

    /// A successful push grows the queue by exactly one item.
    proof fn pushed_len(&self, value: Self::Item)
        ensures
            self.pushed(value).len() == self.contents().len() + 1,
    ;

    /// Adds an element to the queue; fails exactly when the queue is full.
    /// The queue never holds more items than its capacity.
    fn push(&mut self, value: Self::Item) -> (r: Result<(), PushError>)
        ensures
            old(self).contents().len() <= old(self).cap(),
            final(self).contents().len() <= final(self).cap(),
            final(self).cap() == old(self).cap(),
            r is Ok <==> old(self).contents().len() < old(self).cap(),
            old(self).contents().len() < old(self).cap() ==> final(self).contents() == old(
                self,
            ).pushed(value) && final(self).contents().len() == old(self).contents().len() + 1,
            old(self).contents().len() >= old(self).cap() ==> *final(self) == *old(self),
    ;

    /// Removes the next element and returns it, or `None` if the queue is
    /// empty.
    fn pop(&mut self) -> (r: Option<Self::Item>)
        ensures
            old(self).contents().len() <= old(self).cap(),
            final(self).contents().len() <= final(self).cap(),
            final(self).cap() == old(self).cap(),
            old(self).contents().len() == 0 ==> r is None && *final(self) == *old(self),
            old(self).contents().len() > 0 ==> r == Some(old(self).contents()[0])
                && final(self).contents() == old(self).contents().drop_first(),
    ;

    /// Returns the number of elements in the queue, never more than the
    /// capacity.
    fn len(&self) -> (r: usize)
        ensures
            r == self.contents().len(),
            self.contents().len() <= self.cap(),
    ;

    /// Returns `true` if there are no elements in the queue.
    fn is_empty(&self) -> (r: bool)
        ensures
            r == (self.contents().len() == 0),
    {
        self.len() == 0
    }
}

/// A first-in first-out queue with an optional capacity bound.
///
/// Items leave in the order they entered. By default the capacity is
/// `usize::MAX`, which makes the queue unbounded in practice;
/// [`Fifo::bounded`] caps the size, and further pushes fail with
/// [`PushError`].
pub struct Fifo<T> {
    inner: Vec<T>,
    capacity: usize,
}

impl<T> Fifo<T> {
    /// The queue never holds more items than its capacity.
    #[verifier::type_invariant]
    spec fn inv(self) -> bool {
        self.inner@.len() <= self.capacity as nat
    }

    /// Creates a new queue with limited capacity.
    pub fn bounded(capacity: usize) -> (r: Self)
        ensures
            r.contents() == Seq::<T>::empty(),
            r.cap() == capacity,
    {
        Fifo { inner: Vec::new(), capacity }
    }

    /// Returns the capacity of the queue.
    pub fn capacity(&self) -> (r: usize)
        ensures
            r == self.cap(),
    {
        self.capacity
    }
}

impl<T> Default for Fifo<T> {
    /// An empty queue with capacity `usize::MAX`.
    fn default() -> (r: Self)
        ensures
            r.contents() == Seq::<T>::empty(),
            r.cap() == usize::MAX,
    {
        Fifo { inner: Vec::new(), capacity: usize::MAX }
    }
}

impl<T> Queue for Fifo<T> {
    type Item = T;

    closed spec fn contents(&self) -> Seq<T> {
        self.inner@
    }

    closed spec fn cap(&self) -> nat {
        self.capacity as nat
    }

    /// A FIFO appends pushed items at the back.
    open spec fn pushed(&self, value: T) -> Seq<T> {
        self.contents().push(value)
    }

    proof fn pushed_len(&self, value: T) {
    }

    fn push(&mut self, value: T) -> (r: Result<(), PushError>) {
        proof {
            use_type_invariant(&*self);
        }
        if self.inner.len() < self.capacity {
            let mut inner: Vec<T> = Vec::new();
            std::mem::swap(&mut inner, &mut self.inner);
            inner.push(value);
            self.inner = inner;
            Ok(())
        } else {
            Err(PushError)
        }
    }

    fn pop(&mut self) -> (r: Option<T>) {
        proof {
            use_type_invariant(&*self);
        }
        if self.inner.len() > 0 {
            let mut inner: Vec<T> = Vec::new();
            std::mem::swap(&mut inner, &mut self.inner);
            let v = inner.remove(0);
            proof {
                assert(inner@ =~= old(self).inner@.drop_first());
            }
            self.inner = inner;
            Some(v)
        } else {
            None
        }
    }

    fn len(&self) -> (r: usize) {
        proof {
            use_type_invariant(&*self);
            assert(self.contents().len() <= self.cap());
        }
        self.inner.len()
    }
}

/// Holds when the items of `s` are in non-increasing rank order.
pub open spec fn sorted_desc<T: Ranked>(s: Seq<T>) -> bool {
    forall|i: int, j: int|
        #![trigger s[i].rank(), s[j].rank()]
        0 <= i <= j < s.len() ==> s[i].rank() >= s[j].rank()
}

/// The position at which an item of rank `r` enters a queue in
/// non-increasing rank order: after every item of rank at least `r`.
///
/// Among items of equal rank the new one therefore comes last; which of two
/// equal-rank items leaves first is not part of the queue's contract.
pub open spec fn desc_insert_idx<T: Ranked>(s: Seq<T>, r: int) -> int
    decreases s.len(),
{
    if s.len() == 0 {
        0
    } else if s[0].rank() >= r {
        1 + desc_insert_idx(s.drop_first(), r)
    } else {
        0
    }
}

/// Bounds and boundary facts of [`desc_insert_idx`]: the index is within the
/// sequence, every item before it has rank at least `r`, and the item at the
/// index (if any) has rank below `r`.
proof fn lemma_desc_insert_idx_facts<T: Ranked>(s: Seq<T>, r: int)
    ensures
        0 <= desc_insert_idx(s, r) <= s.len(),
        forall|k: int| 0 <= k < desc_insert_idx(s, r) ==> #[trigger] s[k].rank() >= r,
        desc_insert_idx(s, r) < s.len() ==> s[desc_insert_idx(s, r)].rank() < r,
    decreases s.len(),
{
    if s.len() > 0 && s[0].rank() >= r {
        lemma_desc_insert_idx_facts(s.drop_first(), r);
        assert forall|k: int| 0 <= k < desc_insert_idx(s, r) implies #[trigger] s[k].rank()
            >= r by {
            if k > 0 {
                assert(s.drop_first()[k - 1].rank() >= r);
            }
        }
    }
}

/// [`desc_insert_idx`] is the only index with the boundary facts above.
proof fn lemma_desc_insert_idx_unique<T: Ranked>(s: Seq<T>, r: int, i: int)
    requires
        0 <= i <= s.len(),
        forall|k: int| 0 <= k < i ==> #[trigger] s[k].rank() >= r,
        i < s.len() ==> s[i].rank() < r,
    ensures
        i == desc_insert_idx(s, r),
    decreases s.len(),
{
    if s.len() == 0 {
    } else if s[0].rank() >= r {
        assert(i >= 1);
        assert forall|k: int| 0 <= k < i - 1 implies #[trigger] s.drop_first()[k].rank()
            >= r by {
            assert(s[k + 1].rank() >= r);
        }
        lemma_desc_insert_idx_unique(s.drop_first(), r, i - 1);
    } else {
        assert(i == 0);
    }
}

/// Inserting at [`desc_insert_idx`] keeps the sequence in non-increasing
/// rank order.
proof fn lemma_desc_insert_sorted<T: Ranked>(s: Seq<T>, v: T)
    requires
        sorted_desc(s),
    ensures
        sorted_desc(s.insert(desc_insert_idx(s, v.rank()), v)),
{
    let idx = desc_insert_idx(s, v.rank());
    lemma_desc_insert_idx_facts(s, v.rank());
    s.insert_ensures(idx, v);
    let t = s.insert(idx, v);
    assert forall|i: int, j: int|
        #![trigger t[i].rank(), t[j].rank()]
        0 <= i <= j < t.len() implies t[i].rank() >= t[j].rank() by {
        if j < idx {
            assert(t[i] == s[i]);
            assert(t[j] == s[j]);
            assert(s[i].rank() >= s[j].rank());
        } else if i < idx && j == idx {
            assert(t[i] == s[i]);
            assert(t[j] == v);
            assert(s[i].rank() >= v.rank());
        } else if i < idx && j > idx {
            assert(t[i] == s[i]);
            assert(t[j] == s[j - 1]);
            assert(s[i].rank() >= s[j - 1].rank());
        } else if i == idx && j == idx {
        } else if i == idx && j > idx {
            assert(t[i] == v);
            assert(t[j] == s[j - 1]);
            assert(idx <= j - 1 < s.len());
            assert(v.rank() > s[idx].rank());
            assert(s[idx].rank() >= s[j - 1].rank());
        } else {
            assert(t[i] == s[i - 1]);
            assert(t[j] == s[j - 1]);
            assert(s[i - 1].rank() >= s[j - 1].rank());
        }
    }
}

/// A queue that returns the item of greatest rank first.
///
/// Ties among items of equal rank are broken arbitrarily. By default the
/// capacity is `usize::MAX`, which makes the queue unbounded in practice;
/// [`PriorityQueue::bounded`] caps the size, and further pushes fail with
/// [`PushError`].
pub struct PriorityQueue<T: Ranked> {
    inner: Vec<T>,
    capacity: usize,
}

impl<T: Ranked> PriorityQueue<T> {
    /// The items are kept in non-increasing rank order, so the front item
    /// is always one of greatest rank; the queue never holds more items than
    /// its capacity.
    #[verifier::type_invariant]
    spec fn inv(self) -> bool {
        &&& sorted_desc(self.inner@)
        &&& self.inner@.len() <= self.capacity as nat
    }

    /// Creates a new queue with limited capacity.
    pub fn bounded(capacity: usize) -> (r: Self)
        ensures
            r.contents() == Seq::<T>::empty(),
            r.cap() == capacity,
    {
        PriorityQueue { inner: Vec::new(), capacity }
    }

    /// Returns the capacity of the queue.
    pub fn capacity(&self) -> (r: usize)
        ensures
            r == self.cap(),
    {
        self.capacity
    }
}

impl<T: Ranked> Default for PriorityQueue<T> {
    /// An empty queue with capacity `usize::MAX`.
    fn default() -> (r: Self)
        ensures
            r.contents() == Seq::<T>::empty(),
            r.cap() == usize::MAX,
    {
        PriorityQueue { inner: Vec::new(), capacity: usize::MAX }
    }
}

impl<T: Ranked> Queue for PriorityQueue<T> {
    type Item = T;

    closed spec fn contents(&self) -> Seq<T> {
        self.inner@
    }

    closed spec fn cap(&self) -> nat {
        self.capacity as nat
    }

    /// A priority queue inserts a pushed item after every item of rank at
    /// least its own, keeping the contents in non-increasing rank order.
    open spec fn pushed(&self, value: T) -> Seq<T> {
        self.contents().insert(desc_insert_idx(self.contents(), value.rank()), value)
    }

    proof fn pushed_len(&self, value: T) {
        lemma_desc_insert_idx_facts(self.contents(), value.rank());
        self.contents().insert_ensures(desc_insert_idx(self.contents(), value.rank()), value);
    }

    fn push(&mut self, value: T) -> (r: Result<(), PushError>) {
        proof {
            use_type_invariant(&*self);
        }
        if self.inner.len() < self.capacity {
            let mut idx: usize = 0;
            loop
                invariant_except_break
                    idx <= self.inner@.len(),
                    forall|k: int| 0 <= k < idx ==> #[trigger] self.inner@[k].rank()
                        >= value.rank(),
                ensures
                    idx <= self.inner@.len(),
                    forall|k: int| 0 <= k < idx ==> #[trigger] self.inner@[k].rank()
                        >= value.rank(),
                    idx < self.inner@.len() ==> self.inner@[idx as int].rank() < value.rank(),
                decreases self.inner@.len() - idx,
            {
                if idx >= self.inner.len() {
                    break;
                }
                if !value.le_rank(&self.inner[idx]) {
                    break;
                }
                idx += 1;
            }
            proof {
                lemma_desc_insert_idx_unique(self.inner@, value.rank(), idx as int);
                lemma_desc_insert_sorted(self.inner@, value);
            }
            let mut inner: Vec<T> = Vec::new();
            std::mem::swap(&mut inner, &mut self.inner);
            inner.insert(idx, value);
            self.inner = inner;
            Ok(())
        } else {
            Err(PushError)
        }
    }

    fn pop(&mut self) -> (r: Option<T>) {
        proof {
            use_type_invariant(&*self);
        }
        if self.inner.len() > 0 {
            let mut inner: Vec<T> = Vec::new();
            std::mem::swap(&mut inner, &mut self.inner);
            let v = inner.remove(0);
            proof {
                assert(inner@ =~= old(self).inner@.drop_first());
            }
            self.inner = inner;
            Some(v)
        } else {
            None
        }
    }

    fn len(&self) -> (r: usize) {
        proof {
            use_type_invariant(&*self);
            assert(self.contents().len() <= self.cap());
        }
        self.inner.len()
    }
}

/// The contents of a FIFO holding `init` after every item of `xs` has been
/// pushed in order, each push within capacity: a chain of [`Fifo::pushed`].
pub open spec fn fifo_pushed_all<T>(init: Seq<T>, xs: Seq<T>) -> Seq<T>
    decreases xs.len(),
{
    if xs.len() == 0 {
        init
    } else {
        fifo_pushed_all(init.push(xs[0]), xs.drop_first())
    }
}

/// Queue conservation, FIFO, send side: pushing the items of `xs` in order
/// onto a FIFO holding `init` queues them behind `init`, in push order.
pub proof fn lemma_fifo_send_order<T>(init: Seq<T>, xs: Seq<T>)
    ensures
        fifo_pushed_all(init, xs) == init + xs,
    decreases xs.len(),
{
    if xs.len() == 0 {
        assert(fifo_pushed_all(init, xs) =~= init + xs);
    } else {
        lemma_fifo_send_order(init.push(xs[0]), xs.drop_first());
        assert(init.push(xs[0]) + xs.drop_first() =~= init + xs);
    }
}

/// Queue conservation, FIFO, receive side: after `k` pops from a queue
/// holding `s`, the next pop returns `s[k]` and leaves the items after it.
/// With [`lemma_fifo_send_order`]: items return in the order they were sent.
pub proof fn lemma_fifo_receive_order<T>(s: Seq<T>, k: int)
    requires
        0 <= k < s.len(),
    ensures
        s.skip(k)[0] == s[k],
        s.skip(k).drop_first() == s.skip(k + 1),
{
    assert(s.skip(k).drop_first() =~= s.skip(k + 1));
}

/// Queue conservation, priority, send side: a push into contents in
/// non-increasing rank order (as [`PriorityQueue::pushed`] places it) keeps
/// them in non-increasing rank order. Every reachable contents of a
/// [`PriorityQueue`] is therefore sorted, starting from the empty one.
pub proof fn lemma_priority_send_order<T: Ranked>(s: Seq<T>, v: T)
    requires
        sorted_desc(s),
    ensures
        sorted_desc(s.insert(desc_insert_idx(s, v.rank()), v)),
{
    lemma_desc_insert_sorted(s, v);
}

/// Queue conservation, priority, receive side: from contents in
/// non-increasing rank order, `pop` returns a front item whose rank is at
/// least that of every remaining item, and leaves the rest sorted — so
/// successive pops return items of non-increasing rank.
pub proof fn lemma_priority_receive_order<T: Ranked>(s: Seq<T>)
    requires
        sorted_desc(s),
    ensures
        forall|i: int| 0 <= i < s.len() ==> s[0].rank() >= #[trigger] s[i].rank(),
        s.len() > 0 ==> sorted_desc(s.drop_first()),
{
    if s.len() > 0 {
        assert forall|i: int, j: int|
            #![trigger s.drop_first()[i].rank(), s.drop_first()[j].rank()]
            0 <= i <= j < s.drop_first().len() implies s.drop_first()[i].rank()
            >= s.drop_first()[j].rank() by {
            assert(s.drop_first()[i] == s[i + 1]);
            assert(s.drop_first()[j] == s[j + 1]);
            assert(s[i + 1].rank() >= s[j + 1].rank());
        }
    }
}

/// Bounded capacity: a queue holding as many items as its capacity rejects
/// the next push, and a successful pop makes room for exactly one more push.
pub proof fn lemma_bounded_capacity<Q: Queue>(q: &Q)
    requires
        q.contents().len() == q.cap(),
        q.cap() > 0,
    ensures
        q.contents().len() >= q.cap(),
        q.contents().drop_first().len() < q.cap(),
        q.contents().drop_first().len() + 1 == q.cap(),
{
}

} // verus!
