use simrs::{
    Component, ComponentId, Duration, Executor, Execute, Fifo, Key, QueueId, Scheduler,
    Simulation, State,
};

use std::cell::RefCell;
use std::rc::Rc;

#[derive(Debug, PartialEq, Eq)]
struct Product;

#[derive(Debug, Clone, Copy, PartialEq, Eq)]
enum PcEvent {
    Fire,
    Received,
    Finished,
}

enum Slot {
    Count(usize),
    Job(Option<Product>),
}

enum PcComponent {
    Producer {
        outgoing: QueueId<Fifo<Product>>,
        consumer: ComponentId<PcEvent>,
        count: Key<Slot>,
        log: Rc<RefCell<Vec<String>>>,
    },
    Consumer {
        incoming: QueueId<Fifo<Product>>,
        working_on: Key<Slot>,
        log: Rc<RefCell<Vec<String>>>,
    },
}

impl Component for PcComponent {
    type Event = PcEvent;
    type Value = Slot;
    type Queues = Fifo<Product>;

    fn process_event(
        &self,
        self_id: ComponentId<PcEvent>,
        event: &PcEvent,
        scheduler: &mut Scheduler<PcEvent>,
        state: &mut State<Slot, Fifo<Product>>,
    ) {
        match self {
            PcComponent::Producer { outgoing, consumer, count, log } => {
                if let PcEvent::Fire = event {
                    let produced = match state.get_mut(*count).unwrap() {
                        Slot::Count(n) => {
                            if *n < 10 {
                                *n += 1;
                                true
                            } else {
                                false
                            }
                        }
                        Slot::Job(_) => unreachable!(),
                    };
                    if produced {
                        state.send(*outgoing, Product).unwrap();
                        log.borrow_mut().push(String::from("Produced"));
                        scheduler.schedule(Duration::default(), *consumer, PcEvent::Received);
                        scheduler.schedule(Duration::from_secs(1), self_id, PcEvent::Fire);
                    }
                }
            }
            PcComponent::Consumer { incoming, working_on, log } => match event {
                PcEvent::Received => {
                    let idle = match state.get(*working_on).unwrap() {
                        Slot::Job(job) => job.is_none(),
                        Slot::Count(_) => unreachable!(),
                    };
                    if idle {
                        if let Some(product) = state.recv(*incoming) {
                            match state.get_mut(*working_on).unwrap() {
                                Slot::Job(job) => *job = Some(product),
                                Slot::Count(_) => unreachable!(),
                            }
                            scheduler.schedule(Duration::from_secs(1), self_id, PcEvent::Finished);
                        }
                    }
                }
                PcEvent::Finished => {
                    let product = match state.get_mut(*working_on).unwrap() {
                        Slot::Job(job) => job.take().unwrap(),
                        Slot::Count(_) => unreachable!(),
                    };
                    assert_eq!(product, Product);
                    log.borrow_mut().push(String::from("Consumed"));
                    if state.len(*incoming) > 0 {
                        scheduler.schedule(Duration::default(), self_id, PcEvent::Received);
                    }
                }
                PcEvent::Fire => unreachable!(),
            },
        }
    }
}

// Producer/consumer, 10 items, 1 s handler: the producer fires once a second
// and sends a product; the consumer takes a second to finish one. A post-step
// side effect appends the pop time of each step. The full trace is fixed by
// the FIFO tie-break among same-time events.
#[test]
fn producer_consumer_trace() {
    let log: Rc<RefCell<Vec<String>>> = Rc::new(RefCell::new(Vec::new()));
    let mut sim = Simulation::default();

    let queue = sim.add_queue(Fifo::default());
    let count = sim.state.insert(Slot::Count(0));
    let working_on = sim.state.insert(Slot::Job(None));

    let consumer = sim.add_component(PcComponent::Consumer {
        incoming: queue,
        working_on,
        log: Rc::clone(&log),
    });
    let producer = sim.add_component(PcComponent::Producer {
        outgoing: queue,
        consumer,
        count,
        log: Rc::clone(&log),
    });

    sim.schedule(Duration::default(), producer, PcEvent::Fire);

    let trace = Rc::clone(&log);
    Executor::unbound()
        .side_effect(move |sim: &Simulation<PcComponent>| {
            let secs = sim.scheduler.time().as_nanos() / 1_000_000_000;
            trace.borrow_mut().push(format!("{}s", secs));
        })
        .execute(&mut sim);

    let mut expected: Vec<String> = vec![
        String::from("Produced"),
        String::from("0s"),
        String::from("0s"),
    ];
    for t in 1..=9 {
        expected.push(String::from("Produced"));
        expected.push(format!("{}s", t));
        expected.push(String::from("Consumed"));
        expected.push(format!("{}s", t));
        expected.push(format!("{}s", t));
        expected.push(format!("{}s", t));
    }
    expected.push(String::from("10s"));
    expected.push(String::from("Consumed"));
    expected.push(String::from("10s"));

    assert_eq!(*log.borrow(), expected);
    assert_eq!(sim.scheduler.time(), Duration::from_secs(10));
}

// Bounded FIFO through the state: capacity 2; a third send is rejected, one
// recv makes room for exactly one more send, and items keep send order.
#[test]
fn bounded_fifo_roundtrip() {
    let mut state: State<i32, Fifo<&str>> = State::default();
    let qid = state.add_queue(Fifo::bounded(2));

    assert!(state.send(qid, "A").is_ok());
    assert!(state.send(qid, "B").is_ok());
    assert!(state.send(qid, "C").is_err());
    assert_eq!(state.recv(qid), Some("A"));
    assert!(state.send(qid, "C").is_ok());
    assert_eq!(state.recv(qid), Some("B"));
    assert_eq!(state.recv(qid), Some("C"));
    assert_eq!(state.recv(qid), None);
}
