//! A shared wrapper serializing access to one broadcaster.

use vstd::prelude::*;
use vstd::rwlock::{RwLock, RwLockPredicate};

use crate::error::{Error, ErrorKind};
use crate::events::Events;
use crate::observable::{Observable, ObserveConfig};
use crate::pharos::Pharos;

verus! {

/// What the lock may hold: only a well-formed broadcaster.
pub struct WfPred;

impl<Event> RwLockPredicate<Pharos<Event>> for WfPred where Event: 'static + Clone + Send {
    open spec fn inv(self, ph: Pharos<Event>) -> bool {
        ph.wf()
    }
}

/// A wrapper that lets several producers share one [`Pharos`] from a shared
/// reference: every operation takes a lock, so the broadcaster's exclusive
/// contract is met, one caller at a time. This is the one place shared
/// mutable state appears, and it is always serialized.
#[verifier::reject_recursive_types(Event)]
pub struct SharedPharos<Event> where Event: 'static + Clone + Send {
    lock: RwLock<Pharos<Event>, WfPred>,
}

impl<Event> SharedPharos<Event> where Event: 'static + Clone + Send {
    /// Wrap a broadcaster for shared access.
    pub fn new(pharos: Pharos<Event>) -> Self
        requires
            pharos.wf(),
    {
        SharedPharos { lock: RwLock::new(pharos, Ghost(WfPred)) }
    }

    /// Notify every subscriber of one event, as [`Pharos::notify`] does,
    /// holding the lock for the whole delivery.
    pub fn notify(&self, evt: &Event) {
        let (mut ph, handle) = self.lock.acquire_write();
        ph.notify(evt);
        handle.release_write(ph);
    }

    /// Subscribe one observer, as [`Pharos::observe`] does, holding the
    /// lock: fails exactly when the broadcaster inside is closed.
    pub fn observe(&self, options: ObserveConfig<Event>) -> (r: Result<Events<Event>, Error>)
        ensures
            r matches Err(e) ==> e@ == ErrorKind::Closed,
    {
        let (mut ph, handle) = self.lock.acquire_write();
        let r = ph.observe(options);
        handle.release_write(ph);
        r
    }

    /// Close the broadcaster, as [`Pharos::close`] does, holding the lock:
    /// afterwards every subscription attempt fails.
    pub fn close(&self) {
        let (mut ph, handle) = self.lock.acquire_write();
        ph.close();
        handle.release_write(ph);
    }

    /// Take the broadcaster back out, destroying the wrapper. Merely
    /// dropping the wrapper frees nothing (the lock it is built on runs no
    /// destructor), so when subscribers should see their streams end, take
    /// the broadcaster out and drop it, or close it first.
    pub fn into_inner(self) -> (ph: Pharos<Event>)
        ensures
            ph.wf(),
    {
        self.lock.into_inner()
    }
}

impl<Event> Observable<Event> for SharedPharos<Event> where Event: 'static + Clone + Send {
    type Error = Error;

    /// The lock keeps the broadcaster inside well-formed, so a shared
    /// broadcaster can always be subscribed to.
    open spec fn observable_inv(&self) -> bool {
        true
    }

    /// Subscribe one observer; see the inherent [`SharedPharos::observe`].
    fn observe(&mut self, options: ObserveConfig<Event>) -> Result<Events<Event>, Error> {
        SharedPharos::observe(self, options)
    }
}

/// A shared broadcaster around a default [`Pharos`].
impl<Event> Default for SharedPharos<Event> where Event: 'static + Clone + Send {
    fn default() -> Self {
        SharedPharos::new(Pharos::default())
    }
}

} // verus!
