//! The three operations of the service: draw, link an interpretation, pay.
//!
//! Each operation is one atomic unit of work. It validates its inputs,
//! performs at most one state mutation, and publishes exactly one event on
//! success; on any failure it returns a specific error and leaves every
//! store, account and event log exactly as it found them. The caller
//! identity in each context is established by the host before the core
//! runs; the core only compares it.

use vstd::prelude::*;

use crate::cards::derive_cards;
use crate::cards::lemma_cards_in_range;
use crate::cards::spec_cards;
use crate::errors::ErrorCode;
use crate::events::CardDrawEvent;
use crate::events::Event;
use crate::events::EventEmitter;
use crate::events::InterpretationStoredEvent;
use crate::events::PaymentEvent;
use crate::identity::Identity;
use crate::identity::authorize;
use crate::identity::spec_same_identity;
use crate::records::PaymentRecord;
use crate::records::TarotReading;
use crate::store::PaymentLedger;
use crate::store::ReadingStore;
use crate::token::TokenAccount;
use crate::token::spec_transfer_ok;
use crate::token::transfer;

verus! {

/// Context of a draw: the caller who signs for the new reading.
#[derive(Clone, Copy, Debug)]
pub struct DrawCards {
    pub user: Identity,
}

/// Context of an interpretation link: the caller and the reading addressed.
#[derive(Clone, Copy, Debug)]
pub struct StoreInterpretation {
    pub user: Identity,
    pub reading_id: u64,
}

/// Context of a payment: the caller whose funding account is debited.
#[derive(Clone, Copy, Debug)]
pub struct PayForDivination {
    pub user: Identity,
}

/// What the reading persisted by a successful draw holds: the caller as
/// owner, the inputs as given, the cards derived from the random value, and
/// no interpretation reference yet.
pub open spec fn spec_new_reading(
    r: TarotReading,
    owner: Identity,
    timestamp: i64,
    question: Seq<char>,
    num_cards: u8,
    vrf: Seq<u8>,
) -> bool {
    &&& r.owner == owner
    &&& r.timestamp == timestamp
    &&& r.question@ == question
    &&& r.num_cards == num_cards
    &&& r.cards@ == spec_cards(vrf, num_cards as nat)
    &&& r.ipfs_hash is None
}

/// Draws cards for a question, using an externally supplied verifiable
/// random value.
///
/// Rejects a count outside `1..=10` with `InvalidCardCount` (checked first)
/// and an empty question with `EmptyQuestion`; a rejected draw touches
/// nothing. A valid draw persists exactly one new reading, whose identifier
/// is returned, and publishes exactly one `CardDraw` event carrying the
/// caller, that identifier, the timestamp and the count.
pub fn draw_cards(
    store: &mut ReadingStore,
    emitter: &mut EventEmitter,
    ctx: DrawCards,
    user_question: String,
    num_cards: u8,
    vrf_result: [u8; 32],
    timestamp: i64,
) -> (result: Result<u64, ErrorCode>)
    requires
        old(store).wf(),
    ensures
        final(store).wf(),
        (num_cards == 0 || num_cards > 10) ==> {
            &&& result == Err::<u64, ErrorCode>(ErrorCode::InvalidCardCount)
            &&& *final(store) == *old(store)
            &&& *final(emitter) == *old(emitter)
        },
        (1 <= num_cards <= 10 && user_question@.len() == 0) ==> {
            &&& result == Err::<u64, ErrorCode>(ErrorCode::EmptyQuestion)
            &&& *final(store) == *old(store)
            &&& *final(emitter) == *old(emitter)
        },
        (1 <= num_cards <= 10 && user_question@.len() > 0) ==> {
            &&& result == Ok::<u64, ErrorCode>(old(store).readings@.len() as u64)
            &&& final(store).readings@.len() == old(store).readings@.len() + 1
            &&& forall|i: int|
                0 <= i < old(store).readings@.len() ==> final(store).readings@[i] == old(
                    store,
                ).readings@[i]
            &&& spec_new_reading(
                final(store).readings@.last(),
                ctx.user,
                timestamp,
                user_question@,
                num_cards,
                vrf_result@,
            )
            &&& final(emitter).events@ == old(emitter).events@.push(
                Event::CardDraw(
                    (CardDrawEvent {
                        user: ctx.user,
                        reading_id: old(store).readings@.len() as u64,
                        timestamp,
                        num_cards,
                    }),
                ),
            )
        },
{
    if num_cards == 0 || num_cards > 10 {
        return Err(ErrorCode::InvalidCardCount);
    }
    if user_question.as_str().is_empty() {
        return Err(ErrorCode::EmptyQuestion);
    }
    let reading_id = store.readings.len() as u64;
    let cards = derive_cards(&vrf_result, num_cards);
    proof {
        lemma_cards_in_range(vrf_result@, num_cards as nat);
    }
    let reading = TarotReading {
        owner: ctx.user,
        timestamp,
        question: user_question,
        num_cards,
        cards,
        ipfs_hash: None,
    };
    store.readings.push(reading);
    emitter.publish(
        Event::CardDraw(CardDrawEvent { user: ctx.user, reading_id, timestamp, num_cards }),
    );
    Ok(reading_id)
}

/// Links an interpretation reference to an existing reading.
///
/// Only the reading's owner may link; any other caller is rejected with
/// `Unauthorized` and nothing changes. The owner's link overwrites whatever
/// reference was stored before (last write wins) and publishes exactly one
/// `InterpretationStored` event; every other field of every record is kept.
pub fn store_interpretation(
    store: &mut ReadingStore,
    emitter: &mut EventEmitter,
    ctx: StoreInterpretation,
    ipfs_hash: String,
    timestamp: i64,
) -> (result: Result<(), ErrorCode>)
    requires
        old(store).wf(),
        ctx.reading_id < old(store).readings@.len(),
    ensures
        final(store).wf(),
        !spec_same_identity(ctx.user, old(store).readings@[ctx.reading_id as int].owner) ==> {
            &&& result == Err::<(), ErrorCode>(ErrorCode::Unauthorized)
            &&& *final(store) == *old(store)
            &&& *final(emitter) == *old(emitter)
        },
        spec_same_identity(ctx.user, old(store).readings@[ctx.reading_id as int].owner) ==> {
            &&& result == Ok::<(), ErrorCode>(())
            &&& final(store).readings@ == old(store).readings@.update(
                ctx.reading_id as int,
                (TarotReading {
                    ipfs_hash: Some(ipfs_hash),
                    ..old(store).readings@[ctx.reading_id as int]
                }),
            )
            &&& final(emitter).events@ == old(emitter).events@.push(
                Event::InterpretationStored(
                    (InterpretationStoredEvent {
                        user: ctx.user,
                        reading_id: ctx.reading_id,
                        timestamp,
                    }),
                ),
            )
        },
{
    let n = store.readings.len();
    assert(ctx.reading_id < n as u64);
    let idx = ctx.reading_id as usize;
    let current = &store.readings[idx];
    if !authorize(&ctx.user, &current.owner) {
        return Err(ErrorCode::Unauthorized);
    }
    let reading = &mut store.readings[idx];
    reading.ipfs_hash = Some(ipfs_hash);
    emitter.publish(
        Event::InterpretationStored(
            InterpretationStoredEvent { user: ctx.user, reading_id: ctx.reading_id, timestamp },
        ),
    );
    Ok(())
}

/// Records a completed premium payment.
///
/// Delegates the value movement to the transfer rail: the whole amount
/// moves from the caller's funding account to the treasury, or the rail
/// fails and the operation aborts with `TransferFailed`, creating no record
/// and publishing nothing. On success exactly one payment record is
/// persisted, its identifier is returned, and exactly one `Payment` event
/// is published. No link to any reading is recorded.
pub fn pay_for_divination(
    ledger: &mut PaymentLedger,
    emitter: &mut EventEmitter,
    user_token_account: &mut TokenAccount,
    treasury_token_account: &mut TokenAccount,
    ctx: PayForDivination,
    amount: u64,
    timestamp: i64,
) -> (result: Result<u64, ErrorCode>)
    requires
        old(ledger).wf(),
        amount > 0,
    ensures
        final(ledger).wf(),
        spec_transfer_ok(
            *old(user_token_account),
            *old(treasury_token_account),
            ctx.user,
            amount,
        ) ==> {
            &&& result == Ok::<u64, ErrorCode>(old(ledger).payments@.len() as u64)
            &&& final(user_token_account).balance == old(user_token_account).balance - amount
            &&& final(treasury_token_account).balance == old(treasury_token_account).balance
                + amount
            &&& final(ledger).payments@ == old(ledger).payments@.push(
                (PaymentRecord { user: ctx.user, amount, timestamp }),
            )
            &&& final(emitter).events@ == old(emitter).events@.push(
                Event::Payment((PaymentEvent { user: ctx.user, amount, timestamp })),
            )
        },
        !spec_transfer_ok(
            *old(user_token_account),
            *old(treasury_token_account),
            ctx.user,
            amount,
        ) ==> {
            &&& result == Err::<u64, ErrorCode>(ErrorCode::TransferFailed)
            &&& *final(ledger) == *old(ledger)
            &&& *final(emitter) == *old(emitter)
            &&& *final(user_token_account) == *old(user_token_account)
            &&& *final(treasury_token_account) == *old(treasury_token_account)
        },
        final(user_token_account).owner == old(user_token_account).owner,
        final(user_token_account).mint == old(user_token_account).mint,
        final(treasury_token_account).owner == old(treasury_token_account).owner,
        final(treasury_token_account).mint == old(treasury_token_account).mint,
{
    let transfer_result = transfer(user_token_account, treasury_token_account, &ctx.user, amount);
    match transfer_result {
        Err(e) => Err(e),
        Ok(()) => {
            let payment_id = ledger.payments.len() as u64;
            ledger.payments.push(PaymentRecord { user: ctx.user, amount, timestamp });
            emitter.publish(Event::Payment(PaymentEvent { user: ctx.user, amount, timestamp }));
            Ok(payment_id)
        },
    }
}

/// A rejected operation persists nothing, so a corrected retry that
/// succeeds appends exactly one element in total: the log after the retry
/// is the log before the failed attempt plus that one element, with nothing
/// left over from the failure. This holds for reading records, payment
/// records and event logs alike.
pub proof fn lemma_failure_then_success_once<T>(
    before: Seq<T>,
    after_failure: Seq<T>,
    after_retry: Seq<T>,
    appended: T,
)
    requires
        after_failure == before,
        after_retry == after_failure.push(appended),
    ensures
        after_retry.len() == before.len() + 1,
        after_retry.last() == appended,
        forall|i: int| 0 <= i < before.len() ==> after_retry[i] == before[i],
{
}

} // verus!
