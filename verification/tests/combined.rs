//! An object which has both bounded and unbounded observers.

use std::sync::Arc;

use pharos::{Channel, Error, Events, ObserveConfig, Pharos};

struct Goddess {
    isis: Pharos<IsisEvent>,
    nut: Pharos<NutEvent>,
}

impl Goddess {
    fn new() -> Self {
        Goddess { isis: Pharos::default(), nut: Pharos::default() }
    }

    fn sail(&mut self) {
        self.isis.notify(&IsisEvent::Sail);
    }

    fn shine(&mut self) {
        let evt = NutEvent { time: "midnight".into() };
        self.nut.notify(&evt);
    }

    fn observe_isis(&mut self, config: ObserveConfig<IsisEvent>) -> Result<Events<IsisEvent>, Error> {
        self.isis.observe(config)
    }

    fn observe_nut(&mut self, config: ObserveConfig<NutEvent>) -> Result<Events<NutEvent>, Error> {
        self.nut.observe(config)
    }
}

#[derive(Clone, Debug, PartialEq, Copy)]
enum IsisEvent {
    Sail,
}

#[derive(Clone, Debug, PartialEq)]
struct NutEvent {
    time: Arc<str>,
}

#[test]
fn both() {
    let mut isis = Goddess::new();

    let mut events: Events<IsisEvent> = isis.observe_isis(Channel::Bounded(5).into()).expect("observe");
    let mut nuevts: Events<NutEvent> = isis.observe_nut(Channel::Bounded(5).into()).expect("observe");

    let mut ubevts: Events<IsisEvent> = isis.observe_isis(ObserveConfig::default()).expect("observe");
    let mut ubnuts: Events<NutEvent> = isis.observe_nut(ObserveConfig::default()).expect("observe");

    isis.sail();
    isis.shine();
    isis.sail();
    isis.shine();

    drop(isis);

    assert_eq!(IsisEvent::Sail, events.next().unwrap());
    assert_eq!(IsisEvent::Sail, events.next().unwrap());
    assert_eq!(None, events.next());

    assert_eq!(IsisEvent::Sail, ubevts.next().unwrap());
    assert_eq!(IsisEvent::Sail, ubevts.next().unwrap());
    assert_eq!(None, ubevts.next());

    let nut_event = NutEvent { time: "midnight".into() };

    assert_eq!(nut_event, nuevts.next().unwrap());
    assert_eq!(nut_event, nuevts.next().unwrap());
    assert_eq!(None, nuevts.next());

    assert_eq!(nut_event, ubnuts.next().unwrap());
    assert_eq!(nut_event, ubnuts.next().unwrap());
    assert_eq!(None, ubnuts.next());
}
