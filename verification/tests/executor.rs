use simrs::{
    Component, ComponentId, Duration, EndCondition, Execute, Executor, Fifo, Key, Scheduler,
    Simulation, State,
};

struct TestComponent {
    counter: Key<usize>,
}

#[derive(Debug)]
struct TestEvent;

impl Component for TestComponent {
    type Event = TestEvent;
    type Value = usize;
    type Queues = Fifo<usize>;

    fn process_event(
        &self,
        self_id: ComponentId<TestEvent>,
        _event: &TestEvent,
        scheduler: &mut Scheduler<TestEvent>,
        state: &mut State<usize, Fifo<usize>>,
    ) {
        let counter = state.get_mut(self.counter).unwrap();
        *counter += 1;
        if *counter < 10 {
            scheduler.schedule(Duration::from_secs(2), self_id, TestEvent);
        }
    }
}

#[test]
fn test_create_executor() {
    assert_eq!(
        Executor::unbound(),
        Executor { end_condition: EndCondition::EmptyQueue }
    );
    assert_eq!(
        Executor::timed(Duration::default()),
        Executor { end_condition: EndCondition::Time(Duration::default()) }
    );
    assert_eq!(
        Executor::steps(7),
        Executor { end_condition: EndCondition::Steps(7) }
    );
    assert_eq!(&format!("{:?}", TestEvent), "TestEvent");
}

#[test]
fn test_steps() {
    let mut sim = Simulation::default();
    let counter_key = sim.state.insert(0_usize);
    let component = sim.add_component(TestComponent { counter: counter_key });
    sim.schedule(Duration::default(), component, TestEvent);
    Executor::steps(10).execute(&mut sim);
    assert_eq!(sim.state.get(counter_key), Some(&10));
}

#[test]
fn test_steps_stops_before() {
    let mut sim = Simulation::default();
    let counter_key = sim.state.insert(0_usize);
    let component = sim.add_component(TestComponent { counter: counter_key });
    sim.schedule(Duration::default(), component, TestEvent);
    // After 10 steps there are no events, so it will not execute all 100
    Executor::steps(100).execute(&mut sim);
    assert_eq!(sim.state.get(counter_key), Some(&10));
}

#[test]
fn test_timed() {
    let mut sim = Simulation::default();
    let counter_key = sim.state.insert(0_usize);
    let component = sim.add_component(TestComponent { counter: counter_key });
    sim.schedule(Duration::default(), component, TestEvent);
    Executor::timed(Duration::from_secs(6)).execute(&mut sim);
    assert_eq!(sim.state.get(counter_key), Some(&4));
    assert_eq!(sim.scheduler.time(), Duration::from_secs(6));
}

#[test]
fn test_timed_clock_stops_early() {
    let mut sim = Simulation::default();
    let counter_key = sim.state.insert(0_usize);
    let component = sim.add_component(TestComponent { counter: counter_key });
    sim.schedule(Duration::default(), component, TestEvent);
    Executor::timed(Duration::from_secs(5)).execute(&mut sim);
    assert_eq!(sim.state.get(counter_key), Some(&3));
    assert_eq!(sim.scheduler.time(), Duration::from_secs(4));
}

// A timed run dispatches nothing due after the bound: events due later stay
// queued, and the clock ends at the last dispatched event's time.
#[test]
fn timed_executor_leaves_later_events_queued() {
    let mut sim = Simulation::default();
    let counter_key = sim.state.insert(0_usize);
    let component = sim.add_component(TestComponent { counter: counter_key });
    sim.schedule(Duration::from_secs(1), component, TestEvent);
    sim.schedule(Duration::from_secs(7), component, TestEvent);
    Executor::timed(Duration::from_secs(5)).execute(&mut sim);
    assert_eq!(sim.state.get(counter_key), Some(&3));
    assert_eq!(sim.scheduler.time(), Duration::from_secs(5));
    let next = sim.scheduler.peek().unwrap();
    assert_eq!(next.time(), Duration::from_secs(7));
}

// The unbound executor drains the queue completely.
#[test]
fn unbound_executor_runs_to_empty() {
    let mut sim = Simulation::default();
    let counter_key = sim.state.insert(0_usize);
    let component = sim.add_component(TestComponent { counter: counter_key });
    sim.schedule(Duration::default(), component, TestEvent);
    Executor::unbound().execute(&mut sim);
    assert_eq!(sim.state.get(counter_key), Some(&10));
    assert!(sim.scheduler.peek().is_none());
    assert_eq!(sim.scheduler.time(), Duration::from_secs(18));
}

// Simulation::run behaves like the unbound executor.
#[test]
fn run_drains_the_queue() {
    let mut sim = Simulation::default();
    let counter_key = sim.state.insert(0_usize);
    let component = sim.add_component(TestComponent { counter: counter_key });
    sim.schedule(Duration::default(), component, TestEvent);
    sim.run();
    assert_eq!(sim.state.get(counter_key), Some(&10));
    assert!(sim.scheduler.peek().is_none());
}

// Stepping an empty simulation returns false and changes nothing.
#[test]
fn step_on_empty_simulation_returns_false() {
    let mut sim: Simulation<TestComponent> = Simulation::default();
    assert!(!sim.step());
    assert_eq!(sim.scheduler.time(), Duration::default());
}
