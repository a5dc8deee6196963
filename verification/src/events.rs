//! Post-commit event publication.
//!
//! Each successful operation publishes exactly one event, after its state
//! change has committed; a failed operation publishes nothing. Publication
//! is best-effort notification to external observers: it never fails the
//! operation that triggered it, and the emitter models delivery as an
//! append-only log of published events.

use vstd::prelude::*;

use crate::identity::Identity;

verus! {

/// Published when a reading is created.
#[derive(Clone, Copy, Debug, PartialEq, Eq)]
pub struct CardDrawEvent {
    pub user: Identity,
    pub reading_id: u64,
    pub timestamp: i64,
    pub num_cards: u8,
}

/// Published when an interpretation reference is linked to a reading.
#[derive(Clone, Copy, Debug, PartialEq, Eq)]
pub struct InterpretationStoredEvent {
    pub user: Identity,
    pub reading_id: u64,
    pub timestamp: i64,
}

/// Published when a payment is recorded.
#[derive(Clone, Copy, Debug, PartialEq, Eq)]
pub struct PaymentEvent {
    pub user: Identity,
    pub amount: u64,
    pub timestamp: i64,
}

/// Any notification the service can publish.
#[derive(Clone, Copy, Debug, PartialEq, Eq)]
pub enum Event {
    CardDraw(CardDrawEvent),
    InterpretationStored(InterpretationStoredEvent),
    Payment(PaymentEvent),
}

/// The notification channel: an append-only log of published events.
#[derive(Debug)]
pub struct EventEmitter {
    pub events: Vec<Event>,
}

impl EventEmitter {
    /// A fresh emitter with nothing published yet.
    pub fn new() -> (emitter: EventEmitter)
        ensures
            emitter.events@.len() == 0,
    {
        EventEmitter { events: Vec::new() }
    }

    /// Publishes one event. Fire-and-forget: it always succeeds and only
    /// appends, so it can never roll back a committed state change.
    pub fn publish(&mut self, event: Event)
        ensures
            final(self).events@ == old(self).events@.push(event),
    {
        self.events.push(event);
    }
}

} // verus!
