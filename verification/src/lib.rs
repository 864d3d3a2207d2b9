//! An in-process event broadcaster.
//!
//! One producer owns a [`Pharos`] and calls [`Pharos::notify`] to deliver a
//! typed event to every interested subscriber. Subscribers register through
//! [`Pharos::observe`] (or the [`Observable`] trait) with an
//! [`ObserveConfig`] choosing a bounded or unbounded [`Channel`] and an
//! optional [`Filter`]; they receive an [`Events`] handle from which events
//! are read in delivery order. [`SharedPharos`] serializes one broadcaster
//! behind a lock for use from several producers.
//!
//! The broadcaster's logic is verified: stable slot indices, the free-list
//! and slot reuse, reclamation of slots whose subscriber is gone, the
//! ready/closed lifecycle, and per-slot delivery stated over each
//! subscriber's ghost delivery log, skip log and shutdown flag
//! ([`SlotView`], [`notified_view`], [`fanout_view`], [`closed_slot_view`],
//! [`lemma_fanout_order`], [`lemma_filter_skip`],
//! [`lemma_storage_partition`]). The underlying point-to-point channels come
//! from `futures::channel::mpsc` and are used through a small trusted layer
//! in `chan`.

mod chan;
mod error;
mod events;
mod filter;
mod observable;
mod pharos;
mod shared_pharos;

pub use error::{lemma_of_kind, Error, ErrorKind};
pub use events::Events;
pub use filter::Filter;
pub use observable::{Channel, Observable, ObserveConfig};
pub use pharos::{
    closed_slot_view, fanout_view, lemma_fanout_order, lemma_filter_skip,
    lemma_storage_partition, notified_view, Pharos, SlotView,
};
pub use shared_pharos::SharedPharos;
