//! The transactional record stores.
//!
//! The host's append-only account space is modeled as identifier-keyed
//! stores: a record's identifier is its position in the store, assigned at
//! allocation and never reused. Records are never deleted; readings admit
//! exactly one mutation path (the interpretation reference), payments none.

use vstd::prelude::*;

use crate::records::PaymentRecord;
use crate::records::TarotReading;

verus! {

/// The store of all persisted readings, keyed by allocation order.
#[derive(Debug)]
pub struct ReadingStore {
    pub readings: Vec<TarotReading>,
}

impl ReadingStore {
    /// Every persisted reading satisfies the reading invariants.
    pub open spec fn wf(&self) -> bool {
        forall|i: int| 0 <= i < self.readings@.len() ==> (#[trigger] self.readings@[i]).wf()
    }

    /// An empty store.
    pub fn new() -> (store: ReadingStore)
        ensures
            store.readings@.len() == 0,
            store.wf(),
    {
        ReadingStore { readings: Vec::new() }
    }

    /// How many readings have been persisted.
    pub fn reading_count(&self) -> (n: u64)
        ensures
            n == self.readings@.len(),
    {
        self.readings.len() as u64
    }

    /// Reads the persisted record with the given identifier.
    pub fn get_reading(&self, reading_id: u64) -> (reading: &TarotReading)
        requires
            reading_id < self.readings@.len(),
        ensures
            *reading == self.readings@[reading_id as int],
    {
        let n = self.readings.len();
        assert(reading_id < n as u64);
        &self.readings[reading_id as usize]
    }
}

/// The append-only ledger of completed payments, keyed by allocation order.
#[derive(Debug)]
pub struct PaymentLedger {
    pub payments: Vec<PaymentRecord>,
}

impl PaymentLedger {
    /// Every persisted payment satisfies the payment invariant.
    pub open spec fn wf(&self) -> bool {
        forall|i: int| 0 <= i < self.payments@.len() ==> (#[trigger] self.payments@[i]).wf()
    }

    /// An empty ledger.
    pub fn new() -> (ledger: PaymentLedger)
        ensures
            ledger.payments@.len() == 0,
            ledger.wf(),
    {
        PaymentLedger { payments: Vec::new() }
    }

    /// How many payments have been recorded.
    pub fn payment_count(&self) -> (n: u64)
        ensures
            n == self.payments@.len(),
    {
        self.payments.len() as u64
    }

    /// Reads the recorded payment with the given identifier.
    pub fn get_payment(&self, payment_id: u64) -> (payment: &PaymentRecord)
        requires
            payment_id < self.payments@.len(),
        ensures
            *payment == self.payments@[payment_id as int],
    {
        let n = self.payments.len();
        assert(payment_id < n as u64);
        &self.payments[payment_id as usize]
    }
}

} // verus!
