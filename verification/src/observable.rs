//! Subscription configuration: channel kind and optional filter.

use vstd::prelude::*;

use crate::events::Events;
use crate::filter::Filter;

verus! {

/// Implemented by a type whose events can be observed. Call
/// [`Observable::observe`] to subscribe and get a stream of events.
/// Generally forwarded to a [`Pharos`](crate::Pharos) object which manages
/// the observers.
pub trait Observable<Event> where Event: Clone + 'static + Send {
    /// The error type that is returned if observing is not possible. A
    /// [`Pharos`](crate::Pharos) refuses observers after it was closed;
    /// other observables may have further moments in their lifetime when
    /// they do not want to take new observers.
    type Error;

    /// What must hold of this observable before it can be asked for a
    /// subscription: typically its internal well-formedness, which its
    /// constructors establish and its operations preserve.
    spec fn observable_inv(&self) -> bool;

    /// Add an observer, choosing the channel kind and an optional event
    /// filter through `options`.
    fn observe(&mut self, options: ObserveConfig<Event>) -> Result<Events<Event>, Self::Error>
        requires
            old(self).observable_inv(),
    ;
}

/// The kind of channel wired between the broadcaster and one subscriber.
#[derive(Debug, Copy, Clone, PartialEq, Eq, Structural)]
pub enum Channel {
    /// A channel with a limited message queue: up to the given number of
    /// events may sit buffered and unread. Delivery of a further event waits
    /// until the subscriber reads one, creating backpressure on the
    /// producer. The underlying channel grants its producer one guaranteed
    /// slot, so `Bounded(0)` still buffers a single event.
    Bounded(usize),
    /// A channel with unbounded capacity: delivery never waits, and memory
    /// grows without limit if the subscriber falls behind. Explicitly a
    /// caller-accepted risk.
    Unbounded,
}

/// The default channel kind is unbounded.
impl Default for Channel {
    fn default() -> (c: Self)
        ensures
            c == Channel::Unbounded,
    {
        Channel::Unbounded
    }
}

/// Configuration for one subscription, passed to `observe` when subscribing:
/// the kind of [`Channel`] to use, and an optional [`Filter`] deciding which
/// events this subscriber receives.
#[verifier::reject_recursive_types(Event)]
pub struct ObserveConfig<Event> where Event: Clone + 'static + Send {
    pub(crate) channel: Channel,
    pub(crate) filter: Option<Filter<Event>>,
}

impl<Event> ObserveConfig<Event> where Event: Clone + 'static + Send {
    /// The configured channel kind.
    pub open(crate) spec fn spec_channel(&self) -> Channel {
        self.channel
    }

    /// Whether a filter is configured.
    pub open(crate) spec fn spec_has_filter(&self) -> bool {
        self.filter is Some
    }

    /// The configured filter itself, if any.
    pub open(crate) spec fn spec_filter(&self) -> Option<Filter<Event>> {
        self.filter
    }

    /// The configuration selecting the given channel kind and no filter, as
    /// a specification-level value.
    pub open(crate) spec fn of_channel(channel: Channel) -> Self {
        ObserveConfig { channel, filter: None }
    }

    /// The configuration selecting the given filter and the default channel
    /// kind, as a specification-level value.
    pub open(crate) spec fn of_filter(filter: Filter<Event>) -> Self {
        ObserveConfig { channel: Channel::Unbounded, filter: Some(filter) }
    }

    /// Choose which channel kind to use for this subscription; the filter,
    /// if one was set, is kept as it is.
    pub fn channel(self, channel: Channel) -> (c: Self)
        ensures
            c.spec_channel() == channel,
            c.spec_filter() == self.spec_filter(),
            c.spec_has_filter() == self.spec_has_filter(),
    {
        ObserveConfig { channel, filter: self.filter }
    }

    /// Filter this subscription's events with a stateless predicate. Only
    /// one filter can be set per subscription.
    pub fn filter<F>(self, filter: F) -> (c: Self) where F: Fn(&Event) -> bool + Send + Sync + 'static
        requires
            !self.spec_has_filter(),
        ensures
            c.spec_has_filter(),
            c.spec_filter() matches Some(f) && f is Pointer,
            c.spec_channel() == self.spec_channel(),
    {
        ObserveConfig { channel: self.channel, filter: Some(Filter::from_pointer(filter)) }
    }

    /// Filter this subscription's events with a closure that captures
    /// environment, which will be boxed. Prefer [`ObserveConfig::filter`]
    /// where the predicate needs no state. Only one filter can be set per
    /// subscription.
    pub fn filter_boxed<F>(self, filter: F) -> (c: Self) where F: FnMut(&Event) -> bool + Send + Sync + 'static
        requires
            !self.spec_has_filter(),
        ensures
            c.spec_has_filter(),
            c.spec_filter() matches Some(f) && f is Closure,
            c.spec_channel() == self.spec_channel(),
    {
        ObserveConfig { channel: self.channel, filter: Some(Filter::from_closure(filter)) }
    }
}

/// The default configuration: an unbounded channel and no filter.
impl<Event> Default for ObserveConfig<Event> where Event: Clone + 'static + Send {
    fn default() -> (c: Self)
        ensures
            c.spec_channel() == Channel::Unbounded,
            !c.spec_has_filter(),
    {
        ObserveConfig { channel: Channel::Unbounded, filter: None }
    }
}

/// A configuration from a [`Channel`], with no filter.
impl<Event> From<Channel> for ObserveConfig<Event> where Event: Clone + 'static + Send {
    fn from(channel: Channel) -> (c: Self) {
        ObserveConfig { channel, filter: None }
    }
}

impl<Event> vstd::std_specs::convert::FromSpecImpl<Channel> for ObserveConfig<Event> where Event: Clone + 'static + Send {
    open spec fn obeys_from_spec() -> bool {
        true
    }

    open spec fn from_spec(channel: Channel) -> Self {
        ObserveConfig::of_channel(channel)
    }
}

/// A configuration from a [`Filter`], with the default channel kind.
impl<Event> From<Filter<Event>> for ObserveConfig<Event> where Event: Clone + 'static + Send {
    fn from(filter: Filter<Event>) -> (c: Self) {
        ObserveConfig { channel: Channel::Unbounded, filter: Some(filter) }
    }
}

impl<Event> vstd::std_specs::convert::FromSpecImpl<Filter<Event>> for ObserveConfig<Event> where Event: Clone + 'static + Send {
    open spec fn obeys_from_spec() -> bool {
        true
    }

    open spec fn from_spec(filter: Filter<Event>) -> Self {
        ObserveConfig::of_filter(filter)
    }
}

} // verus!
