//! The broadcaster: slot storage, fan-out delivery and lifecycle.

use vstd::prelude::*;

use crate::error::{Error, ErrorKind};
use crate::events::{Delivery, Events, Outlet};
use crate::observable::{Channel, Observable, ObserveConfig};

verus! {

/// The broadcaster's lifecycle: accepting subscriptions, or closed for good.
pub(crate) enum State {
    Ready,
    Closed,
}

/// The broadcaster. One producer owns it, subscribes observers and notifies
/// them of events.
///
/// It holds a growable vector of slots, each either empty or the producer
/// end of one subscriber's channel. A slot's index stays stable for the life
/// of the subscription; when a subscriber disappears its slot is reclaimed
/// onto a free-list and reused by a later subscription before the vector
/// grows. The vector never shrinks.
///
/// Subscribers that disappear are only detected when [`Pharos::notify`],
/// [`Pharos::close`] or [`Pharos::num_observers`] runs; until one of them
/// does, a dropped subscriber still occupies its slot.
#[verifier::reject_recursive_types(Event)]
pub struct Pharos<Event> where Event: 'static + Clone + Send {
    pub(crate) observers: Vec<Option<Outlet<Event>>>,
    pub(crate) free: Vec<usize>,
    pub(crate) state: State,
}

/// What one slot holds, as specifications see it: nothing, or the
/// subscriber's channel kind, whether it has a filter, its delivery log,
/// its skip log, and whether its channel was ordered closed.
pub type SlotView<Event> = Option<(Channel, bool, Seq<Event>, Seq<Event>, bool)>;

/// How many of these slots are active (hold a subscriber).
pub(crate) open spec fn count_active<Event>(s: Seq<Option<Outlet<Event>>>) -> nat
    where Event: 'static + Clone + Send
    decreases s.len(),
{
    if s.len() == 0 {
        0
    } else {
        count_active(s.drop_last()) + if s.last() is Some {
            1nat
        } else {
            0nat
        }
    }
}

impl<Event> Pharos<Event> where Event: 'static + Clone + Send {
    /// Whether the broadcaster is closed: no subscription is accepted any
    /// more, ever.
    pub open(crate) spec fn spec_closed(&self) -> bool {
        self.state is Closed
    }

    /// The number of slots in storage, empty ones included.
    pub open(crate) spec fn num_slots(&self) -> nat {
        self.observers@.len()
    }

    /// The number of slots holding a subscriber.
    pub open(crate) spec fn num_active(&self) -> nat {
        count_active(self.observers@)
    }

    /// The indices of the empty slots, in the order they were reclaimed.
    pub open(crate) spec fn free_list(&self) -> Seq<usize> {
        self.free@
    }

    /// What slot `i` holds: `None` for an empty slot, or the subscriber's
    /// channel kind, whether it has a filter, its delivery log (the events
    /// its channel accepted, in order), its skip log (the events its filter
    /// declined, in order), and whether its channel was ordered closed.
    pub open(crate) spec fn slot_view(&self, i: int) -> SlotView<Event> {
        match self.observers@[i] {
            Some(s) => Some(
                (s.spec_kind(), s.spec_has_filter(), s.spec_log(), s.spec_skips(), s.spec_shut()),
            ),
            None => None,
        }
    }

    /// Well-formedness: the free-list holds exactly the indices of the
    /// empty slots, each once, and every slot's producer end matches its
    /// recorded channel kind.
    pub open(crate) spec fn wf(&self) -> bool {
        &&& forall|k: int| 0 <= k < self.free@.len() ==> (#[trigger] self.free@[k]) < self.observers@.len()
        &&& forall|k: int| 0 <= k < self.free@.len() ==> self.observers@[#[trigger] self.free@[k] as int] is None
        &&& forall|k1: int, k2: int| 0 <= k1 < k2 < self.free@.len() ==> #[trigger] self.free@[k1] != #[trigger] self.free@[k2]
        &&& forall|i: int| 0 <= i < self.observers@.len() && self.observers@[i] is None ==> #[trigger] self.free@.contains(i as usize)
        &&& forall|i: int| 0 <= i < self.observers@.len() ==> ((#[trigger] self.observers@[i]) matches Some(s) ==> s.wf())
        &&& self.free@.len() + count_active(self.observers@) == self.observers@.len()
    }

    /// Create a new broadcaster, with storage preallocated for the given
    /// number of subscribers: empty, nothing reclaimed, and ready.
    pub fn new(capacity: usize) -> (ph: Self)
        ensures
            ph.wf(),
            !ph.spec_closed(),
            ph.num_slots() == 0,
            ph.free_list().len() == 0,
    {
        Pharos {
            observers: Vec::with_capacity(capacity),
            free: Vec::with_capacity(capacity),
            state: State::Ready,
        }
    }

    /// The size of the slot storage, empty slots included. Useful for
    /// diagnostics and for testing slot reuse.
    pub fn storage_len(&self) -> (n: usize)
        ensures
            n == self.num_slots(),
    {
        self.observers.len()
    }

    /// How many subscribers the preallocated slot storage can hold before
    /// it grows.
    pub fn storage_capacity(&self) -> (c: usize)
        ensures
            c >= self.num_slots(),
    {
        vec_capacity(&self.observers)
    }

    /// The indices of the empty slots, in the order they were reclaimed;
    /// the latest reclaimed is reused first.
    pub fn free_slots(&self) -> (f: &Vec<usize>)
        ensures
            f@ == self.free_list(),
    {
        &self.free
    }

    /// Whether the slot at the given index is currently empty (reclaimed
    /// and awaiting reuse).
    pub fn slot_is_empty(&self, i: usize) -> (b: bool)
        requires
            i < self.num_slots(),
        ensures
            b == (self.slot_view(i as int) is None),
    {
        self.observers[i].is_none()
    }
}

/// Counting slots one further: the count over a prefix grows by one exactly
/// when the next slot is active.
proof fn lemma_count_active_step<Event>(s: Seq<Option<Outlet<Event>>>, i: int)
    where Event: 'static + Clone + Send
    requires
        0 <= i < s.len(),
    ensures
        count_active(s.take(i + 1)) == count_active(s.take(i)) + if s[i] is Some {
            1nat
        } else {
            0nat
        },
{
    assert(s.take(i + 1).drop_last() =~= s.take(i));
    assert(s.take(i + 1).last() == s[i]);
}

/// The count over the whole slot vector is the count over its full prefix.
proof fn lemma_count_active_all<Event>(s: Seq<Option<Outlet<Event>>>)
    where Event: 'static + Clone + Send
    ensures
        count_active(s.take(s.len() as int)) == count_active(s),
{
    assert(s.take(s.len() as int) =~= s);
}

/// Replacing one slot changes the count by the difference of the two
/// slots' contributions.
proof fn lemma_count_active_update<Event>(
    s: Seq<Option<Outlet<Event>>>,
    i: int,
    v: Option<Outlet<Event>>,
)
    where Event: 'static + Clone + Send
    requires
        0 <= i < s.len(),
    ensures
        count_active(s.update(i, v)) + (if s[i] is Some { 1nat } else { 0nat })
            == count_active(s) + (if v is Some { 1nat } else { 0nat }),
    decreases s.len(),
{
    if i == s.len() - 1 {
        assert(s.update(i, v).drop_last() =~= s.drop_last());
        assert(s.update(i, v).last() == v);
    } else {
        assert(s.update(i, v).drop_last() =~= s.drop_last().update(i, v));
        assert(s.update(i, v).last() == s.last());
        lemma_count_active_update(s.drop_last(), i, v);
    }
}

/// Appending a slot adds its contribution to the count.
proof fn lemma_count_active_push<Event>(s: Seq<Option<Outlet<Event>>>, v: Option<Outlet<Event>>)
    where Event: 'static + Clone + Send
    ensures
        count_active(s.push(v)) == count_active(s) + (if v is Some { 1nat } else { 0nat }),
{
    assert(s.push(v).drop_last() =~= s);
    assert(s.push(v).last() == v);
}

impl<Event> Pharos<Event> where Event: 'static + Clone + Send {
    /// The number of subscribers still listening: every slot whose channel
    /// has independently closed (its subscriber dropped or closed the
    /// handle) is reclaimed, its index joining the free-list — reclaimed
    /// indices join it in increasing order — and what remains is counted.
    /// Besides [`Pharos::notify`] and [`Pharos::close`] this is the only
    /// place where reclamation happens.
    pub fn num_observers(&mut self) -> (count: usize)
        requires
            old(self).wf(),
        ensures
            final(self).wf(),
            final(self).spec_closed() == old(self).spec_closed(),
            final(self).num_slots() == old(self).num_slots(),
            count == final(self).num_active(),
            forall|j: int| 0 <= j < old(self).num_slots()
                ==> #[trigger] final(self).slot_view(j) == old(self).slot_view(j)
                    || final(self).slot_view(j) is None,
            forall|j: int| 0 <= j < old(self).num_slots() && old(self).slot_view(j) is None
                ==> #[trigger] final(self).slot_view(j) is None,
            old(self).free_list().is_prefix_of(final(self).free_list()),
            forall|k: int| old(self).free_list().len() <= k < final(self).free_list().len()
                ==> old(self).slot_view(#[trigger] final(self).free_list()[k] as int) is Some
                    && final(self).slot_view(final(self).free_list()[k] as int) is None,
            forall|k1: int, k2: int|
                old(self).free_list().len() <= k1 < k2 < final(self).free_list().len()
                ==> #[trigger] final(self).free_list()[k1] < #[trigger] final(self).free_list()[k2],
    {
        let mut count: usize = 0;
        let n = self.observers.len();
        let mut i: usize = 0;
        while i < n
            invariant
                i <= n,
                n == self.observers@.len(),
                self.observers@.len() == old(self).observers@.len(),
                self.state == old(self).state,
                self.wf(),
                count <= i,
                count == count_active(self.observers@.take(i as int)),
                forall|j: int| i <= j < n ==> self.observers@[j] == old(self).observers@[j],
                forall|j: int| 0 <= j < n
                    ==> #[trigger] self.observers@[j] == old(self).observers@[j]
                        || self.observers@[j] is None,
                old(self).free@.is_prefix_of(self.free@),
                forall|k: int| old(self).free@.len() <= k < self.free@.len()
                    ==> old(self).observers@[(#[trigger] self.free@[k]) as int] is Some
                        && self.observers@[self.free@[k] as int] is None,
                forall|k: int| old(self).free@.len() <= k < self.free@.len()
                    ==> (#[trigger] self.free@[k]) < i,
                forall|k1: int, k2: int| old(self).free@.len() <= k1 < k2 < self.free@.len()
                    ==> #[trigger] self.free@[k1] < #[trigger] self.free@[k2],
            decreases n - i,
        {
            let mut reclaim = false;
            let mut active = false;
            match &self.observers[i] {
                Some(obs) => {
                    if obs.is_closed() {
                        reclaim = true;
                    } else {
                        active = true;
                    }
                }
                None => {},
            }
            if reclaim {
                let ghost before = self.observers@;
                let ghost free_before = self.free@;
                self.free.push(i);
                self.observers[i] = None;
                proof {
                    lemma_count_active_update(before, i as int, None);
                    assert(self.observers@.take(i as int) =~= before.take(i as int));
                    assert forall|k1: int, k2: int| 0 <= k1 < k2 < self.free@.len()
                        implies #[trigger] self.free@[k1] != #[trigger] self.free@[k2] by {
                        if k2 == self.free@.len() - 1 {
                            assert(before[free_before[k1] as int] is None);
                        }
                    }
                    assert forall|j: int| 0 <= j < self.observers@.len() && self.observers@[j] is None
                        implies #[trigger] self.free@.contains(j as usize) by {
                        if j == i as int {
                            assert(self.free@[self.free@.len() - 1] == i);
                        } else {
                            assert(before[j] is None);
                            assert(free_before.contains(j as usize));
                            let k = choose|k: int| 0 <= k < free_before.len() && free_before[k] == j as usize;
                            assert(self.free@[k] == j as usize);
                        }
                    }
                }
            }
            if active {
                count += 1;
            }
            proof {
                lemma_count_active_step(self.observers@, i as int);
            }
            i += 1;
        }
        proof {
            lemma_count_active_all(self.observers@);
        }
        count
    }
}

impl<Event> Pharos<Event> where Event: 'static + Clone + Send {
    /// Subscribe one observer: fails exactly when the broadcaster is
    /// closed. Otherwise the channel pair the configuration describes is
    /// created, its producer end (wrapped with the requested filter) is
    /// installed into the most recently reclaimed free slot if one exists,
    /// else into a newly appended slot, and its consumer end is returned.
    /// The new subscriber starts with an empty delivery log; every other
    /// slot is left as it was.
    pub fn observe(&mut self, options: ObserveConfig<Event>) -> (r: Result<Events<Event>, Error>)
        requires
            old(self).wf(),
        ensures
            final(self).wf(),
            final(self).spec_closed() == old(self).spec_closed(),
            r is Ok <==> !old(self).spec_closed(),
            r matches Err(e) ==> e@ == ErrorKind::Closed && *final(self) == *old(self),
            r is Ok && old(self).free_list().len() > 0 ==> {
                &&& final(self).num_slots() == old(self).num_slots()
                &&& final(self).free_list() == old(self).free_list().drop_last()
                &&& final(self).slot_view(old(self).free_list().last() as int)
                    == Some((options.spec_channel(), options.spec_has_filter(),
                        Seq::<Event>::empty(), Seq::<Event>::empty(), false))
                &&& forall|j: int| 0 <= j < old(self).num_slots()
                        && j != old(self).free_list().last() as int
                    ==> #[trigger] final(self).slot_view(j) == old(self).slot_view(j)
            },
            r is Ok && old(self).free_list().len() == 0 ==> {
                &&& final(self).num_slots() == old(self).num_slots() + 1
                &&& final(self).free_list() == old(self).free_list()
                &&& final(self).slot_view(old(self).num_slots() as int)
                    == Some((options.spec_channel(), options.spec_has_filter(),
                        Seq::<Event>::empty(), Seq::<Event>::empty(), false))
                &&& forall|j: int| 0 <= j < old(self).num_slots()
                    ==> #[trigger] final(self).slot_view(j) == old(self).slot_view(j)
            },
            r is Ok ==> final(self).num_active() == old(self).num_active() + 1,
            r matches Ok(ev) ==> (ev.is_bounded() <==> options.spec_channel() is Bounded),
    {
        match &self.state {
            State::Closed => {
                proof {
                    crate::error::lemma_of_kind(ErrorKind::Closed);
                }
                return Err(Error::from(ErrorKind::Closed));
            },
            State::Ready => {},
        }
        let (events, outlet) = Events::new(options);
        let n = self.observers.len();
        let ghost free_before = self.free@;
        let ghost before = self.observers@;
        match self.free.pop() {
            Some(idx) => {
                self.observers[idx] = Some(outlet);
                proof {
                    lemma_count_active_update(before, idx as int, self.observers@[idx as int]);
                    assert forall|j: int| 0 <= j < self.observers@.len()
                            && self.observers@[j] is None
                        implies #[trigger] self.free@.contains(j as usize) by {
                        assert(self.observers@[idx as int] is Some);
                        assert(j != idx as int);
                        assert(j <= n);
                        assert(j == j as usize as int);
                        assert(before[j] is None);
                        assert(free_before.contains(j as usize));
                        let k = choose|k: int|
                            0 <= k < free_before.len() && free_before[k] == j as usize;
                        assert(free_before[free_before.len() - 1] == idx);
                        assert(k < free_before.len() - 1);
                        assert(self.free@[k] == j as usize);
                    }
                }
                Ok(events)
            },
            None => {
                self.observers.push(Some(outlet));
                proof {
                    lemma_count_active_push(before, self.observers@.last());
                    assert forall|j: int| 0 <= j < self.observers@.len()
                            && self.observers@[j] is None
                        implies #[trigger] self.free@.contains(j as usize) by {
                        assert(before[j] is None);
                    }
                }
                Ok(events)
            },
        }
    }
}

/// How one notification changes one slot: an empty slot stays empty; an
/// active slot is either reclaimed (its subscriber is gone), or survives
/// with exactly the notified event appended to its delivery log (the filter
/// accepted it, the channel took it) or to its skip log (the filter
/// declined it) — never both, never neither.
pub open(crate) spec fn notified_view<Event>(
    pre: SlotView<Event>,
    post: SlotView<Event>,
    evt: Event,
) -> bool {
    match pre {
        None => post is None,
        Some(v) => post is None
            || post == Some((v.0, v.1, v.2.push(evt), v.3, v.4))
            || post == Some((v.0, v.1, v.2, v.3.push(evt), v.4)),
    }
}

/// Fan-out: a slot without a filter that survives a notification has
/// received exactly the notified event.
pub open(crate) spec fn fanout_view<Event>(
    pre: SlotView<Event>,
    post: SlotView<Event>,
    evt: Event,
) -> bool {
    (pre matches Some(v) && !v.1 && post is Some) ==> post == Some(
        (pre->Some_0.0, pre->Some_0.1, pre->Some_0.2.push(evt), pre->Some_0.3, pre->Some_0.4),
    )
}

/// How closing the broadcaster changes one slot: an empty slot stays empty,
/// and an active slot is kept as it is except that its channel is now
/// ordered closed.
pub open(crate) spec fn closed_slot_view<Event>(pre: SlotView<Event>) -> SlotView<Event> {
    match pre {
        None => None,
        Some(v) => Some((v.0, v.1, v.2, v.3, true)),
    }
}

/// The broadcaster's storage is exactly partitioned into subscribers and
/// reclaimed slots: the number of active slots (what `num_observers`
/// counts) plus the length of the free-list always equals the storage
/// length, so a freed slot is never lost and a slot is never counted
/// twice.
pub proof fn lemma_storage_partition<Event>(ph: &Pharos<Event>)
    where Event: 'static + Clone + Send
    requires
        ph.wf(),
    ensures
        ph.num_active() + ph.free_list().len() == ph.num_slots(),
{
}

/// Fan-out order: a subscriber without a filter that stays subscribed
/// through the notification of `e1` and then of `e2` has received exactly
/// `e1` followed by `e2`, appended in notification order to what it had
/// before.
pub proof fn lemma_fanout_order<Event>(
    pre: SlotView<Event>,
    mid: SlotView<Event>,
    post: SlotView<Event>,
    e1: Event,
    e2: Event,
)
    requires
        fanout_view(pre, mid, e1),
        fanout_view(mid, post, e2),
        pre matches Some(v) && !v.1,
        mid is Some,
        post is Some,
    ensures
        post->Some_0.2 == pre->Some_0.2 + seq![e1, e2],
{
    assert(mid == Some(
        (pre->Some_0.0, pre->Some_0.1, pre->Some_0.2.push(e1), pre->Some_0.3, pre->Some_0.4),
    ));
    assert(post->Some_0.2 =~= pre->Some_0.2 + seq![e1, e2]);
}

/// Filter correctness: under one notification, a subscriber that recorded
/// the event as declined is still subscribed with its delivery log
/// unchanged — a declined event is never delivered, and declining is no
/// ground for reclamation.
pub proof fn lemma_filter_skip<Event>(
    pre: SlotView<Event>,
    post: SlotView<Event>,
    evt: Event,
)
    requires
        notified_view(pre, post, evt),
        post is Some,
        post->Some_0.3 != pre->Some_0.3,
    ensures
        post->Some_0.3 == pre->Some_0.3.push(evt),
        post->Some_0.2 == pre->Some_0.2,
{
}

impl<Event> Pharos<Event> where Event: 'static + Clone + Send {
    /// Notify every subscriber of one event. For each active slot, the
    /// slot's filter is evaluated against the event; if it declines,
    /// nothing is sent, the event joins the slot's skip log, and the slot
    /// stays subscribed. Otherwise a copy of the
    /// event is delivered to the slot's channel, waiting for buffer space
    /// if a bounded channel is full. A slot whose subscriber is gone is
    /// reclaimed: emptied and pushed onto the free-list, reclaimed indices
    /// joining it in increasing order. A dead subscriber never prevents
    /// delivery to the others; a slow one behind a full bounded channel
    /// delays the deliveries after it, and the call, until its consumer
    /// reads — that is backpressure, not failure: the call itself never
    /// fails.
    pub fn notify(&mut self, evt: &Event)
        requires
            old(self).wf(),
        ensures
            final(self).wf(),
            final(self).spec_closed() == old(self).spec_closed(),
            final(self).num_slots() == old(self).num_slots(),
            forall|j: int| 0 <= j < old(self).num_slots()
                ==> notified_view(old(self).slot_view(j), #[trigger] final(self).slot_view(j), *evt),
            forall|j: int| 0 <= j < old(self).num_slots()
                ==> fanout_view(old(self).slot_view(j), #[trigger] final(self).slot_view(j), *evt),
            old(self).free_list().is_prefix_of(final(self).free_list()),
            forall|k: int| old(self).free_list().len() <= k < final(self).free_list().len()
                ==> old(self).slot_view(#[trigger] final(self).free_list()[k] as int) is Some
                    && final(self).slot_view(final(self).free_list()[k] as int) is None,
            forall|k1: int, k2: int|
                old(self).free_list().len() <= k1 < k2 < final(self).free_list().len()
                ==> #[trigger] final(self).free_list()[k1] < #[trigger] final(self).free_list()[k2],
    {
        let n = self.observers.len();
        let mut i: usize = 0;
        while i < n
            invariant
                i <= n,
                n == self.observers@.len(),
                self.observers@.len() == old(self).observers@.len(),
                self.state == old(self).state,
                self.wf(),
                forall|j: int| i <= j < n ==> #[trigger] self.observers@[j] == old(self).observers@[j],
                forall|j: int| 0 <= j < i
                    ==> notified_view(old(self).slot_view(j), #[trigger] self.slot_view(j), *evt),
                forall|j: int| 0 <= j < i
                    ==> fanout_view(old(self).slot_view(j), #[trigger] self.slot_view(j), *evt),
                old(self).free@.is_prefix_of(self.free@),
                forall|k: int| old(self).free@.len() <= k < self.free@.len()
                    ==> old(self).slot_view(#[trigger] self.free@[k] as int) is Some
                        && self.slot_view(self.free@[k] as int) is None,
                forall|k: int| old(self).free@.len() <= k < self.free@.len()
                    ==> (#[trigger] self.free@[k]) < i,
                forall|k1: int, k2: int| old(self).free@.len() <= k1 < k2 < self.free@.len()
                    ==> #[trigger] self.free@[k1] < #[trigger] self.free@[k2],
            decreases n - i,
        {
            let ghost pre_iter = *self;
            let mut lost = false;
            match &mut self.observers[i] {
                None => {},
                Some(obs) => {
                    match obs.notify(evt) {
                        Delivery::Gone => {
                            lost = true;
                        },
                        Delivery::Delivered => {},
                        Delivery::Skipped => {},
                    }
                },
            }
            proof {
                lemma_count_active_update(pre_iter.observers@, i as int, self.observers@[i as int]);
            }
            if lost {
                let ghost before = self.observers@;
                let ghost free_before = self.free@;
                self.free.push(i);
                self.observers[i] = None;
                proof {
                    lemma_count_active_update(before, i as int, None);
                    assert forall|j: int| 0 <= j < self.observers@.len()
                            && self.observers@[j] is None
                        implies #[trigger] self.free@.contains(j as usize) by {
                        if j == i as int {
                            assert(self.free@[self.free@.len() - 1] == i);
                        } else {
                            assert(before[j] is None);
                            assert(free_before.contains(j as usize));
                            let k = choose|k: int|
                                0 <= k < free_before.len() && free_before[k] == j as usize;
                            assert(self.free@[k] == j as usize);
                        }
                    }
                    assert forall|k1: int, k2: int| 0 <= k1 < k2 < self.free@.len()
                        implies #[trigger] self.free@[k1] != #[trigger] self.free@[k2] by {
                        if k2 == self.free@.len() - 1 {
                            assert(before[free_before[k1] as int] is None);
                        }
                    }
                }
            }
            proof {
                assert forall|j: int| 0 <= j < i + 1
                    implies notified_view(old(self).slot_view(j), #[trigger] self.slot_view(j), *evt)
                        && fanout_view(old(self).slot_view(j), self.slot_view(j), *evt) by {
                    if j < i {
                        assert(notified_view(old(self).slot_view(j), pre_iter.slot_view(j), *evt));
                        assert(fanout_view(old(self).slot_view(j), pre_iter.slot_view(j), *evt));
                        assert(self.slot_view(j) == pre_iter.slot_view(j));
                    } else {
                        assert(old(self).slot_view(j) == pre_iter.slot_view(j));
                    }
                }
            }
            i += 1;
        }
    }

    /// Close the broadcaster: it refuses every further subscription, for
    /// good, and every active slot's channel is ordered closed so that no
    /// further event reaches any subscriber, while events already buffered
    /// stay readable. Idempotent — a second call changes nothing. Slots and
    /// free-list are left as they are, so the broadcaster remains usable,
    /// with notifications finding only closed channels to reclaim.
    pub fn close(&mut self)
        requires
            old(self).wf(),
        ensures
            final(self).wf(),
            final(self).spec_closed(),
            final(self).num_slots() == old(self).num_slots(),
            final(self).free_list() == old(self).free_list(),
            !old(self).spec_closed() ==> forall|j: int| 0 <= j < old(self).num_slots()
                ==> #[trigger] final(self).slot_view(j) == closed_slot_view(old(self).slot_view(j)),
            old(self).spec_closed() ==> forall|j: int| 0 <= j < old(self).num_slots()
                ==> #[trigger] final(self).slot_view(j) == old(self).slot_view(j),
    {
        match &self.state {
            State::Closed => {
                return;
            },
            State::Ready => {},
        }
        self.state = State::Closed;
        let n = self.observers.len();
        let mut i: usize = 0;
        while i < n
            invariant
                i <= n,
                n == self.observers@.len(),
                self.observers@.len() == old(self).observers@.len(),
                self.state is Closed,
                self.free@ == old(self).free@,
                self.wf(),
                forall|j: int| i <= j < n ==> #[trigger] self.observers@[j] == old(self).observers@[j],
                forall|j: int| 0 <= j < i
                    ==> #[trigger] self.slot_view(j) == closed_slot_view(old(self).slot_view(j)),
            decreases n - i,
        {
            let ghost pre_iter = *self;
            match &mut self.observers[i] {
                None => {},
                Some(obs) => {
                    obs.close();
                },
            }
            proof {
                lemma_count_active_update(pre_iter.observers@, i as int, self.observers@[i as int]);
                assert forall|j: int| 0 <= j < i + 1
                    implies #[trigger] self.slot_view(j) == closed_slot_view(old(self).slot_view(j)) by {
                    if j < i {
                        assert(pre_iter.slot_view(j) == closed_slot_view(old(self).slot_view(j)));
                        assert(self.slot_view(j) == pre_iter.slot_view(j));
                    } else {
                        assert(old(self).slot_view(j) == pre_iter.slot_view(j));
                    }
                }
            }
            i += 1;
        }
    }

    /// A rendering of the broadcaster's shape for diagnostics, naming the
    /// event type as the caller spells it.
    ///
    /// Relies on `format`.
    #[verifier::external_body]
    pub fn debug_string(&self, event_type: &str) -> String {
        format!("pharos::Pharos<{}>", event_type)
    }
}

/// A new broadcaster with storage preallocated for ten subscribers.
impl<Event> Default for Pharos<Event> where Event: 'static + Clone + Send {
    fn default() -> (ph: Self)
        ensures
            ph.wf(),
            !ph.spec_closed(),
            ph.num_slots() == 0,
            ph.free_list().len() == 0,
    {
        Pharos::new(10)
    }
}

impl<Event> Observable<Event> for Pharos<Event> where Event: 'static + Clone + Send {
    type Error = Error;

    /// A broadcaster can be subscribed to whenever it is well-formed.
    open spec fn observable_inv(&self) -> bool {
        self.wf()
    }

    /// Subscribe one observer; see the inherent [`Pharos::observe`].
    fn observe(&mut self, options: ObserveConfig<Event>) -> Result<Events<Event>, Error> {
        Pharos::observe(self, options)
    }
}

/// How many slots a vector can hold before it grows.
///
/// Relies on `Vec::capacity`: at least the vector's length.
#[verifier::external_body]
fn vec_capacity<T>(v: &Vec<T>) -> (c: usize)
    ensures
        c >= v@.len(),
{
    v.capacity()
}

} // verus!
