//! The persisted records: readings and payments.
//!
//! A reading is created atomically by the draw operation and is immutable
//! afterwards except for its interpretation reference, which only the owner
//! may set. A payment record is created atomically by the pay operation and
//! is never mutated or deleted.

use vstd::prelude::*;

use crate::cards::CardData;
use crate::identity::Identity;

verus! {

/// A persisted reading: a question paired with the cards drawn for it.
#[derive(Debug, PartialEq, Eq)]
pub struct TarotReading {
    /// Identity of the creator; immutable after creation.
    pub owner: Identity,
    /// Creation timestamp; immutable.
    pub timestamp: i64,
    /// The caller's question; non-empty, immutable.
    pub question: String,
    /// How many cards were requested, in `1..=10`; immutable.
    pub num_cards: u8,
    /// The drawn cards, exactly `num_cards` of them; immutable once set.
    pub cards: Vec<CardData>,
    /// Content-addressed reference to the interpretation text. Starts unset;
    /// set by the owner through the linking operation. The core stores the
    /// reference opaquely and never reads the content behind it.
    pub ipfs_hash: Option<String>,
}

impl TarotReading {
    /// The field invariants every persisted reading satisfies.
    pub open spec fn wf(&self) -> bool {
        &&& 1 <= self.num_cards <= 10
        &&& self.question@.len() > 0
        &&& self.cards@.len() == self.num_cards as int
        &&& forall|i: int| 0 <= i < self.cards@.len() ==> (#[trigger] self.cards@[i]).card_id < 78
    }
}

/// A completed premium payment. No field links it to any reading: the
/// payment ledger is a standalone, append-only record of transfers.
#[derive(Clone, Copy, Debug, PartialEq, Eq)]
pub struct PaymentRecord {
    /// Identity of the paying caller; immutable.
    pub user: Identity,
    /// The value moved to the treasury; positive; immutable.
    pub amount: u64,
    /// When the payment was recorded; immutable.
    pub timestamp: i64,
}

impl PaymentRecord {
    /// The invariant of every persisted payment: a positive amount.
    pub open spec fn wf(&self) -> bool {
        self.amount > 0
    }
}

} // verus!
