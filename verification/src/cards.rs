//! Deterministic card derivation from a verifiable random value.
//!
//! The random value is a 32-byte sequence produced by an external oracle;
//! the core assumes, and does not itself check, that it matches the oracle's
//! commitment. Derivation is a pure function of the random bytes and the
//! requested count, so anyone holding the random value can recompute and
//! audit the draw. The `mod 78` step inherits the source's slight bias
//! toward lower card identifiers (256 is not a multiple of 78); that bias is
//! preserved deliberately.

use vstd::prelude::*;

verus! {

/// One drawn card: its identity among the 78 cards, and its orientation.
#[derive(Clone, Copy, Debug, PartialEq, Eq, Structural)]
pub struct CardData {
    /// Card identity, in `0..=77`.
    pub card_id: u8,
    /// `false` is upright, `true` is reversed.
    pub is_reversed: bool,
}

/// The card drawn at position `i`: its identity comes from byte `i mod 32`
/// reduced mod 78, its orientation from the parity of byte `(i + 8) mod 32`.
pub open spec fn spec_card(vrf: Seq<u8>, i: int) -> CardData
    recommends
        vrf.len() == 32,
        0 <= i,
{
    CardData {
        card_id: (vrf[i % 32] % 78) as u8,
        is_reversed: vrf[(i + 8) % 32] % 2 == 1,
    }
}

/// The full card sequence derived from `vrf` for a request of `n` cards.
pub open spec fn spec_cards(vrf: Seq<u8>, n: nat) -> Seq<CardData>
    recommends
        vrf.len() == 32,
{
    Seq::new(n, |i: int| spec_card(vrf, i))
}

/// Derives the card sequence for a validated request. Pure and total:
/// callers must pre-validate the count, and the result is fixed entirely by
/// `(vrf_result, num_cards)`.
pub fn derive_cards(vrf_result: &[u8; 32], num_cards: u8) -> (cards: Vec<CardData>)
    requires
        1 <= num_cards <= 10,
    ensures
        cards@ == spec_cards(vrf_result@, num_cards as nat),
{
    let mut cards: Vec<CardData> = Vec::new();
    let mut i: usize = 0;
    while i < num_cards as usize
        invariant
            i <= num_cards as usize,
            num_cards <= 10,
            cards@.len() == i,
            forall|j: int| 0 <= j < i ==> cards@[j] == spec_card(vrf_result@, j),
        decreases num_cards as int - i,
    {
        let card_index = vrf_result[i % 32] % 78;
        let orientation = vrf_result[(i + 8) % 32] % 2;
        cards.push(CardData { card_id: card_index, is_reversed: orientation == 1 });
        i += 1;
    }
    proof {
        assert(cards@ =~= spec_cards(vrf_result@, num_cards as nat));
    }
    cards
}

/// Every derived card identifier lies in `0..=77`, whatever the random
/// bytes, and the sequence has exactly the requested length.
pub proof fn lemma_cards_in_range(vrf: Seq<u8>, n: nat)
    requires
        vrf.len() == 32,
    ensures
        spec_cards(vrf, n).len() == n,
        forall|i: int| 0 <= i < n ==> 0 <= (#[trigger] spec_cards(vrf, n)[i]).card_id < 78,
{
    assert forall|i: int| 0 <= i < n implies 0 <= (#[trigger] spec_cards(vrf, n)[i]).card_id
        < 78 by {
        assert(spec_cards(vrf, n)[i] == spec_card(vrf, i));
    }
}

/// Determinism of the draw: two derivations from the same random value and
/// the same requested count yield identical card sequences.
pub proof fn lemma_cards_deterministic(vrf: Seq<u8>, n: nat, c1: Seq<CardData>, c2: Seq<CardData>)
    requires
        c1 == spec_cards(vrf, n),
        c2 == spec_cards(vrf, n),
    ensures
        c1 == c2,
{
}

} // verus!
