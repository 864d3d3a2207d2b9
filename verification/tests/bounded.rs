//! Behaviour of subscriptions over bounded channels.

use std::sync::Arc;

use pharos::{Channel, Error, Events, ObserveConfig, Pharos};

struct Goddess {
    isis: Pharos<IsisEvent>,
    nut: Pharos<NutEvent>,
}

impl Goddess {
    fn new() -> Self {
        Goddess { isis: Pharos::default(), nut: Pharos::default() }
    }

    fn sail(&mut self) {
        self.isis.notify(&IsisEvent::Sail);
    }

    fn dock(&mut self) {
        self.isis.notify(&IsisEvent::Dock);
    }

    fn shine(&mut self) {
        let evt = NutEvent { time: "midnight".into() };
        self.nut.notify(&evt);
    }

    fn observe_isis(&mut self, config: ObserveConfig<IsisEvent>) -> Result<Events<IsisEvent>, Error> {
        self.isis.observe(config)
    }

    fn observe_nut(&mut self, config: ObserveConfig<NutEvent>) -> Result<Events<NutEvent>, Error> {
        self.nut.observe(config)
    }
}

#[derive(Clone, Debug, PartialEq, Copy)]
enum IsisEvent {
    Sail,
    Dock,
}

#[derive(Clone, Debug, PartialEq)]
struct NutEvent {
    time: Arc<str>,
}

#[test]
fn bounded_basic() {
    let mut isis = Goddess::new();
    let mut events = isis.observe_isis(Channel::Bounded(5).into()).expect("observe");

    isis.sail();
    isis.sail();
    drop(isis);

    assert_eq!(IsisEvent::Sail, events.next().unwrap());
    assert_eq!(IsisEvent::Sail, events.next().unwrap());
    assert_eq!(None, events.next());
}

// Verify that if we close the receiver, the next notify will never arrive on
// the stream.
#[test]
fn bounded_close_receiver() {
    let mut isis = Goddess::new();
    let mut events = isis.observe_isis(Channel::Bounded(5).into()).expect("observe");

    isis.sail();
    events.close();
    isis.sail();

    assert_eq!(IsisEvent::Sail, events.next().unwrap());
    assert_eq!(None, events.next());
}

// Verify that if one receiver gets dropped, others can continue receiving
#[test]
fn bounded_one_receiver_drops() {
    let mut isis = Goddess::new();
    let mut egypt_evts = isis.observe_isis(Channel::Bounded(1).into()).expect("observe");
    let mut shine_evts = isis.observe_isis(Channel::Bounded(2).into()).expect("observe");

    isis.sail();

    assert_eq!(IsisEvent::Sail, shine_evts.next().unwrap());
    assert_eq!(IsisEvent::Sail, egypt_evts.next().unwrap());

    drop(egypt_evts);

    isis.sail();
    isis.sail();

    assert_eq!(IsisEvent::Sail, shine_evts.next().unwrap());
    assert_eq!(IsisEvent::Sail, shine_evts.next().unwrap());
}

// Send different types of events from same observable, and send a struct
// with data rather than just an enum
#[test]
fn bounded_types() {
    let mut isis = Goddess::new();

    let mut shine_evts: Events<NutEvent> = isis.observe_nut(Channel::Bounded(5).into()).expect("observe");
    let mut egypt_evts: Events<IsisEvent> = isis.observe_isis(Channel::Bounded(5).into()).expect("observe");

    isis.shine();
    isis.sail();

    let shine_evt = shine_evts.next().unwrap();
    let egypt_evt = egypt_evts.next().unwrap();

    assert_eq!(NutEvent { time: "midnight".into() }, shine_evt);
    assert_eq!(IsisEvent::Sail, egypt_evt);
}

// Send across threads
#[test]
fn bounded_threads() {
    let mut isis = Goddess::new();
    let mut egypt_evts = isis.observe_isis(Channel::Bounded(5).into()).expect("observe");
    let mut shine_evts = isis.observe_nut(Channel::Bounded(5).into()).expect("observe");

    let pool = futures::executor::ThreadPool::new().expect("pool");
    pool.spawn_ok(async move {
        isis.sail();
        isis.shine();
    });

    let shine_evt = shine_evts.next().unwrap();
    let egypt_evt = egypt_evts.next().unwrap();

    assert_eq!(NutEvent { time: "midnight".into() }, shine_evt);
    assert_eq!(IsisEvent::Sail, egypt_evt);
}

// Basic filter usage, only Dock should be returned.
#[test]
fn bounded_filter() {
    let mut isis = Goddess::new();

    let filter = |evt: &IsisEvent| match evt {
        IsisEvent::Sail => false,
        IsisEvent::Dock => true,
    };

    let opts = ObserveConfig::from(Channel::Bounded(5)).filter(filter);
    let mut events = isis.observe_isis(opts).expect("observe");

    isis.sail();
    isis.sail();
    isis.dock();
    isis.dock();
    isis.sail();

    drop(isis);

    assert_eq!(IsisEvent::Dock, events.next().unwrap());
    assert_eq!(IsisEvent::Dock, events.next().unwrap());
    assert_eq!(None, events.next());
}

// A filter that always returns true should get all events.
#[test]
fn bounded_filter_true() {
    let mut isis = Goddess::new();

    let filter = |_: &IsisEvent| true;

    let opts = ObserveConfig::from(Channel::Bounded(5)).filter(filter);
    let mut events = isis.observe_isis(opts).expect("observe");

    isis.sail();
    isis.sail();
    isis.dock();
    isis.dock();
    isis.sail();

    drop(isis);

    assert_eq!(IsisEvent::Sail, events.next().unwrap());
    assert_eq!(IsisEvent::Sail, events.next().unwrap());
    assert_eq!(IsisEvent::Dock, events.next().unwrap());
    assert_eq!(IsisEvent::Dock, events.next().unwrap());
    assert_eq!(IsisEvent::Sail, events.next().unwrap());
    assert_eq!(None, events.next());
}

// A filter that always returns false should not get any events.
#[test]
fn bounded_filter_false() {
    let mut isis = Goddess::new();

    let filter = |_: &IsisEvent| false;

    let opts = ObserveConfig::from(Channel::Bounded(5)).filter(filter);
    let mut events = isis.observe_isis(opts).expect("observe");

    isis.sail();
    isis.sail();
    isis.dock();
    isis.dock();
    isis.sail();

    drop(isis);

    assert_eq!(None, events.next());
}

// Make sure we can move something into the closure, only Dock should be
// returned.
#[test]
fn bounded_filter_move() {
    let mut isis = Goddess::new();
    let v: Vec<u8> = Vec::new();

    let filter = move |evt: &IsisEvent| match evt {
        IsisEvent::Sail if v.is_empty() => false,
        IsisEvent::Dock if v.is_empty() => true,
        _ => false,
    };

    let opts = ObserveConfig::from(Channel::Bounded(5)).filter_boxed(filter);
    let mut events = isis.observe_isis(opts).expect("observe");

    isis.sail();
    isis.sail();
    isis.dock();
    isis.dock();
    isis.sail();

    drop(isis);

    assert_eq!(IsisEvent::Dock, events.next().unwrap());
    assert_eq!(IsisEvent::Dock, events.next().unwrap());
    assert_eq!(None, events.next());
}
