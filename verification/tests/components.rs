use simrs::{Component, ComponentId, Components, Duration, EventEntry, Fifo, Scheduler, State};

use std::cell::RefCell;
use std::rc::Rc;

struct TestComponent(Rc<RefCell<String>>);

impl Component for TestComponent {
    type Event = String;
    type Value = i32;
    type Queues = Fifo<i32>;

    fn process_event(
        &self,
        _self_id: ComponentId<String>,
        event: &String,
        _scheduler: &mut Scheduler<String>,
        _state: &mut State<i32, Fifo<i32>>,
    ) {
        *self.0.borrow_mut() = event.clone();
    }
}

struct RcTestComponent(String);

struct SharedComponent(Rc<RefCell<RcTestComponent>>);

impl Component for SharedComponent {
    type Event = String;
    type Value = i32;
    type Queues = Fifo<i32>;

    fn process_event(
        &self,
        _self_id: ComponentId<String>,
        event: &String,
        _scheduler: &mut Scheduler<String>,
        _state: &mut State<i32, Fifo<i32>>,
    ) {
        self.0.borrow_mut().0 = event.clone();
    }
}

#[test]
fn test_add_and_get_component() {
    let mut scheduler = Scheduler::default();
    let mut state = State::default();
    let mut components = Components::default();
    assert_eq!(components.len(), 0);

    let text = Rc::new(RefCell::new(String::from("")));

    let comp: ComponentId<String> = components.add_component(TestComponent(Rc::clone(&text)));
    assert_eq!(components.len(), 1);

    components.process_event_entry(
        EventEntry::new(Duration::default(), comp, String::from("Modified")),
        &mut scheduler,
        &mut state,
    );

    assert_eq!(*text.borrow(), "Modified");
}

#[test]
fn test_rc_ref_cell() {
    let mut scheduler = Scheduler::default();
    let mut state = State::default();

    let component = Rc::new(RefCell::new(RcTestComponent(String::from(""))));
    let mut components = Components::default();
    let comp: ComponentId<String> =
        components.add_component(SharedComponent(Rc::clone(&component)));

    components.process_event_entry(
        EventEntry::new(Duration::default(), comp, String::from("Modified")),
        &mut scheduler,
        &mut state,
    );

    assert_eq!(component.borrow().0, "Modified");
}
