//! Ledger-backed divination service: readings drawn from a verifiable random
//! value, single-owner interpretation linking, and a payment ledger.
//!
//! Every operation is atomic: either all validations pass and exactly one
//! record is created or mutated and exactly one event is published, or the
//! operation fails with a specific error and nothing changes.

pub mod cards;
pub mod errors;
pub mod events;
pub mod identity;
pub mod ops;
pub mod records;
pub mod store;
pub mod token;

pub use cards::CardData;
pub use cards::derive_cards;
pub use errors::ErrorCode;
pub use events::CardDrawEvent;
pub use events::Event;
pub use events::EventEmitter;
pub use events::InterpretationStoredEvent;
pub use events::PaymentEvent;
pub use identity::Identity;
pub use identity::authorize;
pub use ops::DrawCards;
pub use ops::PayForDivination;
pub use ops::StoreInterpretation;
pub use ops::draw_cards;
pub use ops::pay_for_divination;
pub use ops::store_interpretation;
pub use records::PaymentRecord;
pub use records::TarotReading;
pub use store::PaymentLedger;
pub use store::ReadingStore;
pub use token::TokenAccount;
pub use token::transfer;
