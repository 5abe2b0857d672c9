use simrs::{Fifo, PriorityQueue, PushError, Queue};

#[test]
fn queue_test_unbounded_queue() {
    let mut queue = Fifo::<i32>::default();
    assert_eq!(queue.len(), 0);
    assert!(queue.is_empty());
    assert!(queue.push(0).is_ok());
    assert_eq!(queue.len(), 1);
    assert!(!queue.is_empty());
    assert!(queue.push(1).is_ok());
    assert_eq!(queue.len(), 2);
    assert_eq!(queue.pop(), Some(0));
    assert_eq!(queue.len(), 1);
    assert_eq!(queue.pop(), Some(1));
    assert_eq!(queue.len(), 0);
    assert_eq!(queue.pop(), None);
}

#[test]
fn queue_test_bounded_queue() {
    let mut queue = Fifo::<i32>::bounded(2);
    assert_eq!(queue.len(), 0);
    assert!(queue.is_empty());
    assert!(queue.push(0).is_ok());
    assert_eq!(queue.len(), 1);
    assert!(!queue.is_empty());
    assert!(queue.push(1).is_ok());
    assert_eq!(queue.len(), 2);
    let err = queue.push(2).err();
    assert!(err.is_some());
    let err = err.unwrap();
    assert_eq!(err.message(), "queue reached its capacity");
    assert_eq!(queue.pop(), Some(0));
    assert_eq!(queue.len(), 1);
    assert!(queue.push(2).is_ok());
    assert_eq!(queue.len(), 2);
    assert_eq!(queue.pop(), Some(1));
    assert_eq!(queue.len(), 1);
    assert_eq!(queue.pop(), Some(2));
    assert_eq!(queue.len(), 0);
    assert_eq!(queue.pop(), None);
}

#[test]
fn test_priority_queue() -> Result<(), PushError> {
    let queue = PriorityQueue::<i32>::default();
    assert_eq!(queue.capacity(), usize::MAX);
    let mut queue = PriorityQueue::<i32>::bounded(2);
    assert_eq!(queue.capacity(), 2);

    assert_eq!(queue.len(), 0);
    queue.push(1)?;
    assert_eq!(queue.len(), 1);
    queue.push(2)?;
    assert_eq!(queue.len(), 2);

    assert_eq!(queue.push(2).err(), Some(PushError));

    assert_eq!(queue.len(), 2);
    assert_eq!(queue.pop(), Some(2));
    assert_eq!(queue.len(), 1);
    assert_eq!(queue.pop(), Some(1));
    assert_eq!(queue.len(), 0);

    Ok(())
}

// A priority queue returns the greatest item first: push 2, 1, 3 and the pop
// sequence is 3, 2, 1, none.
#[test]
fn priority_queue_pops_greatest_first() {
    let mut queue = PriorityQueue::<i32>::default();
    assert!(queue.push(2).is_ok());
    assert!(queue.push(1).is_ok());
    assert!(queue.push(3).is_ok());
    assert_eq!(queue.pop(), Some(3));
    assert_eq!(queue.pop(), Some(2));
    assert_eq!(queue.pop(), Some(1));
    assert_eq!(queue.pop(), None);
}

// A queue of capacity zero rejects every push.
#[test]
fn zero_capacity_queue_rejects_push() {
    let mut fifo = Fifo::<i32>::bounded(0);
    assert_eq!(fifo.push(1), Err(PushError));
    assert_eq!(fifo.pop(), None);
    let mut heap = PriorityQueue::<i32>::bounded(0);
    assert_eq!(heap.push(1), Err(PushError));
    assert_eq!(heap.pop(), None);
}

// A full FIFO rejects the next push; one pop makes room for exactly one more.
#[test]
fn fifo_pop_makes_room_for_one_push() {
    let mut queue = Fifo::<i32>::bounded(1);
    assert!(queue.push(7).is_ok());
    assert_eq!(queue.push(8), Err(PushError));
    assert_eq!(queue.pop(), Some(7));
    assert!(queue.push(8).is_ok());
    assert_eq!(queue.push(9), Err(PushError));
}

// Items of equal rank are conserved: pushing duplicates returns them all.
#[test]
fn priority_queue_keeps_equal_items() {
    let mut queue = PriorityQueue::<i32>::default();
    assert!(queue.push(5).is_ok());
    assert!(queue.push(5).is_ok());
    assert!(queue.push(4).is_ok());
    assert_eq!(queue.pop(), Some(5));
    assert_eq!(queue.pop(), Some(5));
    assert_eq!(queue.pop(), Some(4));
    assert_eq!(queue.pop(), None);
}
