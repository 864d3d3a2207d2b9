//! Behaviour of subscriptions over unbounded channels.

use std::sync::Arc;

use pharos::{Error, Events, ObserveConfig, Pharos};

struct Goddess {
    isis: Pharos<IsisEvent>,
    nut: Pharos<NutEvent>,
}

impl Goddess {
    fn new() -> Self {
        Goddess { isis: Pharos::default(), nut: Pharos::default() }
    }

    fn sail(&mut self) {
        self.isis.notify(&IsisEvent::Sail);
    }

    fn dock(&mut self) {
        self.isis.notify(&IsisEvent::Dock);
    }

    fn shine(&mut self) {
        let evt = NutEvent { time: "midnight".into() };
        self.nut.notify(&evt);
    }

    fn observe_isis(&mut self, config: ObserveConfig<IsisEvent>) -> Result<Events<IsisEvent>, Error> {
        self.isis.observe(config)
    }

    fn observe_nut(&mut self, config: ObserveConfig<NutEvent>) -> Result<Events<NutEvent>, Error> {
        self.nut.observe(config)
    }
}

#[derive(Clone, Debug, PartialEq, Copy)]
enum IsisEvent {
    Sail,
    Dock,
}

#[derive(Clone, Debug, PartialEq)]
struct NutEvent {
    time: Arc<str>,
}

#[test]
fn unbounded_basic() {
    let mut isis = Goddess::new();
    let mut events = isis.observe_isis(ObserveConfig::default()).expect("observe");

    isis.sail();
    isis.sail();
    drop(isis);

    assert_eq!(IsisEvent::Sail, events.next().unwrap());
    assert_eq!(IsisEvent::Sail, events.next().unwrap());
    assert_eq!(None, events.next());
}

// Verify that if we close the receiver, the next notify will never arrive on
// the stream.
#[test]
fn unbounded_close_receiver() {
    let mut isis = Goddess::new();
    let mut events = isis.observe_isis(ObserveConfig::default()).expect("observe");

    isis.sail();
    events.close();
    isis.sail();

    assert_eq!(IsisEvent::Sail, events.next().unwrap());
    assert_eq!(None, events.next());
}

// Verify that if one receiver gets dropped, others can continue receiving
#[test]
fn unbounded_one_receiver_drops() {
    let mut isis = Goddess::new();
    let mut egypt_evts = isis.observe_isis(ObserveConfig::default()).expect("observe");
    let mut shine_evts = isis.observe_isis(ObserveConfig::default()).expect("observe");

    isis.sail();

    let shine_evt = shine_evts.next().unwrap();
    let egypt_evt = egypt_evts.next().unwrap();

    assert_eq!(IsisEvent::Sail, shine_evt);
    assert_eq!(IsisEvent::Sail, egypt_evt);

    drop(egypt_evts);

    isis.sail();
    isis.sail();

    assert_eq!(IsisEvent::Sail, shine_evts.next().unwrap());
    assert_eq!(IsisEvent::Sail, shine_evts.next().unwrap());
}

// Send different types of objects, and send a struct with data rather than
// just an enum
#[test]
fn unbounded_types() {
    let mut isis = Goddess::new();

    let mut egypt_evts: Events<IsisEvent> = isis.observe_isis(ObserveConfig::default()).expect("observe");
    let mut shine_evts: Events<NutEvent> = isis.observe_nut(ObserveConfig::default()).expect("observe");

    isis.sail();
    isis.shine();

    let shine_evt = shine_evts.next().unwrap();
    let egypt_evt = egypt_evts.next().unwrap();

    assert_eq!(NutEvent { time: "midnight".into() }, shine_evt);
    assert_eq!(IsisEvent::Sail, egypt_evt);
}

// Send across threads
#[test]
fn unbounded_threads() {
    let mut isis = Goddess::new();
    let mut egypt_evts = isis.observe_isis(ObserveConfig::default()).expect("observe");
    let mut shine_evts = isis.observe_nut(ObserveConfig::default()).expect("observe");

    let pool = futures::executor::ThreadPool::new().expect("pool");
    pool.spawn_ok(async move {
        isis.sail();
        isis.shine();
    });

    let shine_evt = shine_evts.next().unwrap();
    let egypt_evt = egypt_evts.next().unwrap();

    assert_eq!(NutEvent { time: "midnight".into() }, shine_evt);
    assert_eq!(IsisEvent::Sail, egypt_evt);
}

// Verify that the channel is really unbounded
#[test]
fn alot_of_events() {
    let mut w = Goddess::new();

    let mut events = w.observe_isis(ObserveConfig::default()).expect("observe");

    let amount = 1000;

    for _ in 0..amount {
        w.sail();
    }

    for _ in 0..amount {
        let evt = events.next().unwrap();

        assert_eq!(IsisEvent::Sail, evt);
    }
}

// Basic filter usage, only Dock should be returned.
#[test]
fn unbounded_filter() {
    let mut isis = Goddess::new();

    let filter = |evt: &IsisEvent| match evt {
        IsisEvent::Sail => false,
        IsisEvent::Dock => true,
    };

    let mut events = isis.observe_isis(ObserveConfig::default().filter(filter)).expect("observe");

    isis.sail();
    isis.sail();
    isis.dock();
    isis.dock();
    isis.sail();

    drop(isis);

    assert_eq!(IsisEvent::Dock, events.next().unwrap());
    assert_eq!(IsisEvent::Dock, events.next().unwrap());
    assert_eq!(None, events.next());
}

// A filter that always returns true should get all events.
#[test]
fn unbounded_filter_true() {
    let mut isis = Goddess::new();

    let filter = |_: &IsisEvent| true;

    let mut events = isis.observe_isis(ObserveConfig::default().filter(filter)).expect("observe");

    isis.sail();
    isis.sail();
    isis.dock();
    isis.dock();
    isis.sail();

    drop(isis);

    assert_eq!(IsisEvent::Sail, events.next().unwrap());
    assert_eq!(IsisEvent::Sail, events.next().unwrap());
    assert_eq!(IsisEvent::Dock, events.next().unwrap());
    assert_eq!(IsisEvent::Dock, events.next().unwrap());
    assert_eq!(IsisEvent::Sail, events.next().unwrap());
    assert_eq!(None, events.next());
}

// A filter that always returns false should not get any events.
#[test]
fn unbounded_filter_false() {
    let mut isis = Goddess::new();

    let filter = |_: &IsisEvent| false;

    let mut events = isis.observe_isis(ObserveConfig::default().filter(filter)).expect("observe");

    isis.sail();
    isis.sail();
    isis.dock();
    isis.dock();
    isis.sail();

    drop(isis);

    assert_eq!(None, events.next());
}

// Make sure we can move something into the closure, only Dock should be
// returned.
#[test]
fn unbounded_filter_move() {
    let mut isis = Goddess::new();
    let v: Vec<u8> = Vec::new();

    let filter = move |evt: &IsisEvent| match evt {
        IsisEvent::Sail if v.is_empty() => false,
        IsisEvent::Dock if v.is_empty() => true,
        _ => false,
    };

    let mut events = isis.observe_isis(ObserveConfig::default().filter_boxed(filter)).expect("observe");

    isis.sail();
    isis.sail();
    isis.dock();
    isis.dock();
    isis.sail();

    drop(isis);

    assert_eq!(IsisEvent::Dock, events.next().unwrap());
    assert_eq!(IsisEvent::Dock, events.next().unwrap());
    assert_eq!(None, events.next());
}
