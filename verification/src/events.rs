//! The two ends of one subscription: the broadcaster-side [`Outlet`] and the
//! subscriber-side [`Events`] handle.

use vstd::prelude::*;

use crate::chan;
use crate::filter::Filter;
use crate::observable::{Channel, ObserveConfig};

verus! {

/// The producer end of a subscriber's channel, either bounded or unbounded.
/// The endpoint itself is opaque; the tag is what the logic branches on.
#[verifier::reject_recursive_types(Event)]
pub(crate) enum RawTx<Event> {
    Bounded(futures::channel::mpsc::Sender<Event>),
    Unbounded(futures::channel::mpsc::UnboundedSender<Event>),
}

/// The consumer end of a subscriber's channel, either bounded or unbounded.
#[verifier::reject_recursive_types(Event)]
pub(crate) enum RawRx<Event> {
    Bounded(futures::channel::mpsc::Receiver<Event>),
    Unbounded(futures::channel::mpsc::UnboundedReceiver<Event>),
}

/// The outcome of attempting to deliver one event to one subscriber.
pub(crate) enum Delivery {
    /// The event entered the subscriber's channel.
    Delivered,
    /// The subscriber's filter declined the event: nothing was sent, and
    /// the subscriber counts as still interested.
    Skipped,
    /// The subscriber is gone: its channel takes no further event, and its
    /// slot is to be reclaimed.
    Gone,
}

/// One subscriber as the broadcaster holds it: the producer end of the
/// subscriber's channel paired with the subscriber's optional filter.
///
/// `log` is the ghost delivery log: the sequence of events this subscriber's
/// channel has accepted, in order. `skips` is its ghost counterpart for the
/// events the subscriber's filter declined. `shut` records that the
/// producer end ordered the channel closed. Every contract about fan-out,
/// filtering, delivery order and shutdown is stated over these three.
#[verifier::reject_recursive_types(Event)]
pub(crate) struct Outlet<Event> where Event: Clone + 'static + Send {
    pub(crate) tx: RawTx<Event>,
    pub(crate) filter: Option<Filter<Event>>,
    pub(crate) kind: Ghost<Channel>,
    pub(crate) log: Ghost<Seq<Event>>,
    pub(crate) skips: Ghost<Seq<Event>>,
    pub(crate) shut: Ghost<bool>,
}

impl<Event> Outlet<Event> where Event: Clone + 'static + Send {
    /// The channel kind this subscriber asked for.
    pub(crate) open spec fn spec_kind(&self) -> Channel {
        self.kind@
    }

    /// Whether this subscriber has a filter.
    pub(crate) open spec fn spec_has_filter(&self) -> bool {
        self.filter is Some
    }

    /// The events this subscriber's channel has accepted, in order.
    pub(crate) open spec fn spec_log(&self) -> Seq<Event> {
        self.log@
    }

    /// The events this subscriber's filter declined, in order.
    pub(crate) open spec fn spec_skips(&self) -> Seq<Event> {
        self.skips@
    }

    /// Whether the producer end has ordered this subscriber's channel
    /// closed.
    pub(crate) open spec fn spec_shut(&self) -> bool {
        self.shut@
    }

    /// Whether the tagged producer end matches the recorded channel kind.
    pub(crate) open spec fn wf(&self) -> bool {
        self.tx is Bounded <==> self.kind@ is Bounded
    }

    /// Whether this subscriber's channel can take no further event (its
    /// consumer dropped the handle or closed it).
    pub(crate) fn is_closed(&self) -> bool {
        match &self.tx {
            RawTx::Bounded(tx) => chan::bounded_is_closed(tx),
            RawTx::Unbounded(tx) => chan::unbounded_is_closed(tx),
        }
    }

    /// Attempt to deliver one event to this subscriber: nothing is sent if
    /// the channel is already closed or the filter declines the event;
    /// otherwise a copy of the event is delivered, waiting for buffer space
    /// on a full bounded channel. On [`Delivery::Gone`] the caller reclaims
    /// the slot; a declined event leaves the subscriber untouched and
    /// subscribed.
    pub(crate) fn notify(&mut self, evt: &Event) -> (r: Delivery)
        ensures
            final(self).kind == old(self).kind,
            final(self).tx is Bounded <==> old(self).tx is Bounded,
            final(self).spec_has_filter() == old(self).spec_has_filter(),
            final(self).spec_shut() == old(self).spec_shut(),
            r is Delivered ==> final(self).spec_log() == old(self).spec_log().push(*evt)
                && final(self).spec_skips() == old(self).spec_skips(),
            r is Skipped ==> final(self).spec_skips() == old(self).spec_skips().push(*evt)
                && final(self).spec_log() == old(self).spec_log(),
            r is Gone ==> final(self).spec_log() == old(self).spec_log()
                && final(self).spec_skips() == old(self).spec_skips(),
            !old(self).spec_has_filter() ==> !(r is Skipped),
    {
        if self.is_closed() {
            return Delivery::Gone;
        }
        let interested = match &mut self.filter {
            None => true,
            Some(f) => f.call(evt),
        };
        if !interested {
            self.skips = Ghost(self.skips@.push(*evt));
            return Delivery::Skipped;
        }
        let accepted = match &mut self.tx {
            RawTx::Bounded(tx) => chan::bounded_send(tx, evt),
            RawTx::Unbounded(tx) => chan::unbounded_send(tx, evt),
        };
        if accepted {
            self.log = Ghost(self.log@.push(*evt));
            Delivery::Delivered
        } else {
            Delivery::Gone
        }
    }

    /// Close this subscriber's channel from the producer side: no further
    /// event will enter it, while events already buffered stay readable by
    /// the subscriber. The ghost `shut` flag records, right beside the
    /// trusted call, that the channel was ordered closed.
    pub(crate) fn close(&mut self)
        ensures
            final(self).kind == old(self).kind,
            final(self).tx is Bounded <==> old(self).tx is Bounded,
            final(self).spec_has_filter() == old(self).spec_has_filter(),
            final(self).spec_log() == old(self).spec_log(),
            final(self).spec_skips() == old(self).spec_skips(),
            final(self).spec_shut(),
    {
        match &mut self.tx {
            RawTx::Bounded(tx) => chan::bounded_close(tx),
            RawTx::Unbounded(tx) => chan::unbounded_close(tx),
        }
        self.shut = Ghost(true);
    }
}

/// A subscriber's stream of events, returned from `observe`. Reading it
/// yields the delivered events in order; it ends (yields `None`) once the
/// broadcaster side of this subscription is gone and every buffered event
/// has been read.
///
/// Dropping this handle discards events still buffered; calling
/// [`Events::close`] instead lets them be drained first.
#[verifier::reject_recursive_types(Event)]
pub struct Events<Event> where Event: Clone + 'static + Send {
    rx: RawRx<Event>,
    shut: Ghost<bool>,
}

impl<Event> Events<Event> where Event: Clone + 'static + Send {
    /// Whether this handle reads from a bounded channel.
    pub closed spec fn is_bounded(&self) -> bool {
        self.rx is Bounded
    }

    /// Whether this handle has ordered its channel closed (stopping new
    /// deliveries while its buffer stays drainable).
    pub closed spec fn spec_closed(&self) -> bool {
        self.shut@
    }

    /// Create the channel pair one subscription is wired with: the
    /// subscriber-facing handle and the broadcaster-side sender, of the kind
    /// and with the filter the configuration asks for, with nothing
    /// delivered yet.
    pub(crate) fn new(config: ObserveConfig<Event>) -> (pair: (Self, Outlet<Event>))
        ensures
            pair.1.wf(),
            pair.1.spec_kind() == config.spec_channel(),
            pair.1.spec_has_filter() == config.spec_has_filter(),
            pair.1.spec_log() == Seq::<Event>::empty(),
            pair.1.spec_skips() == Seq::<Event>::empty(),
            !pair.1.spec_shut(),
            pair.0.is_bounded() <==> config.spec_channel() is Bounded,
            !pair.0.spec_closed(),
    {
        match config.channel {
            Channel::Bounded(queue_size) => {
                // The channel itself grants one extra slot beyond its
                // internal buffer, so ask for one less to buffer exactly
                // `queue_size` unread events; sizes the channel itself
                // cannot take are capped at its limit.
                let buffer: usize = if queue_size == 0 { 0 } else { queue_size - 1 };
                let buffer: usize = if buffer < chan::MAX_BUFFER { buffer } else { chan::MAX_BUFFER - 1 };
                let (tx, rx) = chan::new_bounded(buffer);
                (
                    Events { rx: RawRx::Bounded(rx), shut: Ghost(false) },
                    Outlet {
                        tx: RawTx::Bounded(tx),
                        filter: config.filter,
                        kind: Ghost(Channel::Bounded(queue_size)),
                        log: Ghost(Seq::empty()),
                        skips: Ghost(Seq::empty()),
                        shut: Ghost(false),
                    },
                )
            }
            Channel::Unbounded => {
                let (tx, rx) = chan::new_unbounded();
                (
                    Events { rx: RawRx::Unbounded(rx), shut: Ghost(false) },
                    Outlet {
                        tx: RawTx::Unbounded(tx),
                        filter: config.filter,
                        kind: Ghost(Channel::Unbounded),
                        log: Ghost(Seq::empty()),
                        skips: Ghost(Seq::empty()),
                        shut: Ghost(false),
                    },
                )
            }
        }
    }

    /// Wait for the next event, in delivery order. Returns `None`, and only
    /// ever `None` again, once this subscription is over and its buffer is
    /// drained.
    pub fn next(&mut self) -> (evt: Option<Event>)
        ensures
            final(self).is_bounded() == old(self).is_bounded(),
            final(self).spec_closed() == old(self).spec_closed(),
    {
        match &mut self.rx {
            RawRx::Bounded(rx) => chan::bounded_next(rx),
            RawRx::Unbounded(rx) => chan::unbounded_next(rx),
        }
    }

    /// Close the subscription from the subscriber side. The broadcaster
    /// stops delivering new events here, but events already buffered can
    /// still be read with [`Events::next`] until it yields `None`: unlike
    /// dropping the handle, closing loses no data. The ghost flag behind
    /// [`Events::spec_closed`] records, right beside the trusted call, that
    /// the channel was ordered closed.
    pub fn close(&mut self)
        ensures
            final(self).is_bounded() == old(self).is_bounded(),
            final(self).spec_closed(),
    {
        match &mut self.rx {
            RawRx::Bounded(rx) => chan::bounded_rx_close(rx),
            RawRx::Unbounded(rx) => chan::unbounded_rx_close(rx),
        }
        self.shut = Ghost(true);
    }

    /// A rendering of the handle's shape for diagnostics, naming the
    /// channel kind and the event type as the caller spells it.
    pub fn debug_string(&self, event_type: &str) -> String {
        match &self.rx {
            RawRx::Bounded(_) => fmt_events(event_type, "Bounded"),
            RawRx::Unbounded(_) => fmt_events(event_type, "Unbounded"),
        }
    }
}

/// Render the shape of an [`Events`] handle for diagnostics.
///
/// Relies on `format`.
#[verifier::external_body]
fn fmt_events(event_type: &str, variant: &str) -> String {
    format!("Events {{ rx: pharos::events::Receiver::<{}>::{}(_) }}", event_type, variant)
}

} // verus!
