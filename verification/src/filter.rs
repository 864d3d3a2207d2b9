//! Per-subscriber event filters.

use vstd::prelude::*;

verus! {

/// A stateless predicate over an event reference: reusable, safe to invoke
/// any number of times. Opaque to Verus; evaluated only through the trusted
/// [`Filter::call`].
#[verifier::external_body]
#[verifier::reject_recursive_types(Event)]
pub struct PointerPred<Event> {
    predicate: Box<dyn Fn(&Event) -> bool + Send + Sync>,
}

/// A stateful predicate over an event reference: it may capture and mutate
/// its environment on each call, and is owned by a single subscriber slot.
/// Opaque to Verus; evaluated only through the trusted [`Filter::call`].
#[verifier::external_body]
#[verifier::reject_recursive_types(Event)]
pub struct BoxedPred<Event> {
    predicate: Box<dyn FnMut(&Event) -> bool + Send + Sync>,
}

/// Predicate for filtering events: a subscriber only receives the events its
/// filter accepts. The two variants distinguish a reusable stateless
/// predicate from a boxed stateful closure.
///
/// The predicate itself is arbitrary Rust code that Verus does not model:
/// each verdict is an unconstrained boolean, and the broadcaster's contracts
/// state what happens to the subscriber's slot and its delivery log on
/// either verdict.
#[verifier::reject_recursive_types(Event)]
pub enum Filter<Event> where Event: Clone + 'static + Send {
    /// A stateless predicate to use to filter events.
    Pointer(PointerPred<Event>),
    /// A boxed stateful closure to use to filter events.
    Closure(BoxedPred<Event>),
}

impl<Event> Filter<Event> where Event: Clone + 'static + Send {
    /// Construct a filter from a closure that may capture and mutate its
    /// environment, stored under [`Filter::Closure`].
    ///
    /// Trusted: boxes a predicate that Verus does not look into.
    #[verifier::external_body]
    pub fn from_closure<F>(predicate: F) -> (f: Self) where F: FnMut(&Event) -> bool + Send + Sync + 'static
        ensures
            f is Closure,
    {
        Self::Closure(BoxedPred { predicate: Box::new(predicate) })
    }

    /// Construct a filter from a stateless predicate, stored under
    /// [`Filter::Pointer`].
    ///
    /// Trusted: boxes a predicate that Verus does not look into.
    #[verifier::external_body]
    pub fn from_pointer<F>(predicate: F) -> (f: Self) where F: Fn(&Event) -> bool + Send + Sync + 'static
        ensures
            f is Pointer,
    {
        Self::Pointer(PointerPred { predicate: Box::new(predicate) })
    }

    /// Invoke the predicate.
    pub(crate) fn call(&mut self, evt: &Event) -> (verdict: bool)
        ensures
            *final(self) is Pointer <==> *old(self) is Pointer,
    {
        match self {
            Self::Pointer(f) => f.call(evt),
            Self::Closure(f) => f.call(evt),
        }
    }

    /// A rendering of the filter's shape for diagnostics, naming the variant
    /// and the event type as the caller spells it.
    pub fn debug_string(&self, event_type: &str) -> String {
        match self {
            Self::Pointer(_) => fmt_filter_variant(event_type, "Pointer"),
            Self::Closure(_) => fmt_filter_variant(event_type, "Closure"),
        }
    }
}

impl<Event> PointerPred<Event> {
    /// Evaluate the predicate. Trusted: the verdict of an arbitrary
    /// predicate cannot be pinned down, so nothing is claimed of it.
    #[verifier::external_body]
    fn call(&self, evt: &Event) -> bool {
        (self.predicate)(evt)
    }
}

impl<Event> BoxedPred<Event> {
    /// Evaluate the predicate, possibly mutating its captured state.
    /// Trusted: the verdict of an arbitrary stateful predicate cannot be
    /// pinned down, so nothing is claimed of it.
    #[verifier::external_body]
    fn call(&mut self, evt: &Event) -> bool {
        (self.predicate)(evt)
    }
}

/// Render one filter variant for diagnostics.
///
/// Trusted: relies on `format`.
#[verifier::external_body]
fn fmt_filter_variant(event_type: &str, variant: &str) -> String {
    format!("pharos::Filter<{}>::{}(_)", event_type, variant)
}

} // verus!
