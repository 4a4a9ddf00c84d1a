//! The laws of the auction machine, proved of the transition functions that
//! the executable handlers are specified against.

use vstd::prelude::*;
use crate::coin_helpers::{coin_sufficient, lemma_first_sufficient_props, validate_payment};
use crate::contract::{bid_step, place_step, placed_listing, refund_coin, withdraw_step, AUCTION_WINDOW};
use crate::decimal::{dec_digits, lemma_dec_digits_injective};
use crate::error::ContractError;
use crate::state::StoreV;
use crate::types::{CoinV, EnvV, MsgV, ResponseV};

verus! {

/// Strict improvement: while a real bid (or a non-zero minimum) of amount
/// `b` is escrowed, an accepted bid's amount is strictly greater than `b`,
/// and a payment none of whose coins strictly exceeds `b` in the escrowed
/// denomination is always rejected with `InsufficientFundsSend`.
pub proof fn lemma_bid_strict_improvement(
    s: StoreV,
    height: u64,
    sender: Seq<char>,
    funds: Seq<CoinV>,
    listing_id: Seq<char>,
    prev: CoinV,
)
    requires
        s.listings.contains_key(listing_id),
        s.listings[listing_id].max_bid == Some(prev),
        prev.amount > 0,
    ensures
        bid_step(s, height, sender, funds, listing_id) matches Ok(sr) ==> {
            &&& sr.0.listings[listing_id].max_bid matches Some(nb) && nb.amount > prev.amount
                && nb.denom == prev.denom
            &&& sr.0.listings[listing_id].max_bidder == sender
        },
        height < s.listings[listing_id].block_limit && (forall|i: int|
            0 <= i < funds.len() ==> !coin_sufficient(funds[i], prev)) ==> bid_step(
            s,
            height,
            sender,
            funds,
            listing_id,
        ) == Err::<(StoreV, ResponseV), ContractError>(ContractError::InsufficientFundsSend),
{
    lemma_first_sufficient_props(funds, prev);
    match bid_step(s, height, sender, funds, listing_id) {
        Ok(sr) => {
            assert(sr.0.listings.contains_key(listing_id));
        },
        Err(_) => {},
    }
}

/// One bid attempt as seen by the listing: who bid, at which height, with
/// which funds. A rejected attempt leaves the store untouched.
pub ghost struct BidEvent {
    pub height: u64,
    pub sender: Seq<char>,
    pub funds: Seq<CoinV>,
}

/// The store after one bid attempt: the decided new store when the bid is
/// admitted, the old store unchanged when it is rejected.
pub open spec fn bid_outcome(s: StoreV, e: BidEvent, listing_id: Seq<char>) -> StoreV {
    match bid_step(s, e.height, e.sender, e.funds, listing_id) {
        Ok(sr) => sr.0,
        Err(_) => s,
    }
}

/// The store after a whole sequence of bid attempts, in order.
pub open spec fn apply_bids(s: StoreV, events: Seq<BidEvent>, listing_id: Seq<char>) -> StoreV
    decreases events.len(),
{
    if events.len() == 0 {
        s
    } else {
        apply_bids(bid_outcome(s, events[0], listing_id), events.drop_first(), listing_id)
    }
}

/// Strict improvement over every sequence of bids: while a real bid of
/// amount `b` is escrowed, any sequence of bid attempts leaves the listing
/// in place, with its expiry untouched, and with an escrowed bid of the
/// same denomination and of an amount at least `b` — each admitted attempt
/// having strictly raised it, each rejected attempt having changed nothing.
pub proof fn lemma_bid_sequence_monotonic(
    s: StoreV,
    events: Seq<BidEvent>,
    listing_id: Seq<char>,
    prev: CoinV,
)
    requires
        s.listings.contains_key(listing_id),
        s.listings[listing_id].max_bid == Some(prev),
        prev.amount > 0,
    ensures
        ({
            let after = apply_bids(s, events, listing_id);
            &&& after.listings.contains_key(listing_id)
            &&& after.listings[listing_id].max_bid matches Some(nb) && nb.amount >= prev.amount
                && nb.denom == prev.denom
            &&& after.listings[listing_id].block_limit == s.listings[listing_id].block_limit
        }),
    decreases events.len(),
{
    if events.len() > 0 {
        let e = events[0];
        let mid = bid_outcome(s, e, listing_id);
        lemma_bid_strict_improvement(s, e.height, e.sender, e.funds, listing_id, prev);
        match bid_step(s, e.height, e.sender, e.funds, listing_id) {
            Ok(sr) => {
                let nb = sr.0.listings[listing_id].max_bid->Some_0;
                lemma_first_sufficient_props(e.funds, prev);
                lemma_bid_sequence_monotonic(mid, events.drop_first(), listing_id, nb);
            },
            Err(_) => {
                lemma_bid_sequence_monotonic(mid, events.drop_first(), listing_id, prev);
            },
        }
    }
}

/// Refund conservation: every accepted bid after a real one refunds the
/// previous leading amount in full to the previous leading bidder, and the
/// escrow recorded for the listing afterwards is exactly the new leading
/// bid.
pub proof fn lemma_bid_refund_conservation(
    s: StoreV,
    height: u64,
    sender: Seq<char>,
    funds: Seq<CoinV>,
    listing_id: Seq<char>,
)
    requires
        s.listings.contains_key(listing_id),
    ensures
        bid_step(s, height, sender, funds, listing_id) matches Ok(sr) ==> {
            &&& sr.1.messages =~= seq![
                MsgV::BankSend {
                    to_address: s.listings[listing_id].max_bidder,
                    amount: seq![refund_coin(s.listings[listing_id].max_bid)],
                },
            ]
            &&& validate_payment(funds, s.listings[listing_id].max_bid) == Ok::<
                Option<CoinV>,
                ContractError,
            >(sr.0.listings[listing_id].max_bid)
        },
{
}

/// Expiry monotonicity: with the listing present, a bid is refused with
/// `AuctionEnded` exactly at and after the expiry height, and before it the
/// outcome is never `AuctionEnded` but decided by the funds alone; a
/// withdrawal is refused with `AuctionNotEnded` exactly before the expiry
/// height and succeeds at and after it.
pub proof fn lemma_expiry_monotonicity(
    s: StoreV,
    height: u64,
    sender: Seq<char>,
    funds: Seq<CoinV>,
    listing_id: Seq<char>,
)
    requires
        s.listings.contains_key(listing_id),
    ensures
        height >= s.listings[listing_id].block_limit ==> bid_step(
            s,
            height,
            sender,
            funds,
            listing_id,
        ) == Err::<(StoreV, ResponseV), ContractError>(ContractError::AuctionEnded),
        height < s.listings[listing_id].block_limit ==> (validate_payment(
            funds,
            s.listings[listing_id].max_bid,
        ) matches Err(e) ==> bid_step(s, height, sender, funds, listing_id) == Err::<
            (StoreV, ResponseV),
            ContractError,
        >(e)),
        height < s.listings[listing_id].block_limit && validate_payment(
            funds,
            s.listings[listing_id].max_bid,
        ) is Ok ==> bid_step(s, height, sender, funds, listing_id) is Ok,
        height < s.listings[listing_id].block_limit ==> withdraw_step(s, height, listing_id)
            == Err::<(StoreV, ResponseV), ContractError>(ContractError::AuctionNotEnded),
        height >= s.listings[listing_id].block_limit ==> withdraw_step(s, height, listing_id) is Ok,
{
}

/// At-most-once settlement: after a successful withdrawal, a second
/// withdrawal of the same identifier fails with `NotFound`, at any height.
pub proof fn lemma_at_most_once_settlement(
    s: StoreV,
    height1: u64,
    height2: u64,
    listing_id: Seq<char>,
)
    requires
        withdraw_step(s, height1, listing_id) is Ok,
    ensures
        withdraw_step(
            withdraw_step(s, height1, listing_id)->Ok_0.0,
            height2,
            listing_id,
        ) == Err::<(StoreV, ResponseV), ContractError>(ContractError::NotFound),
{
}

/// Identifier freshness: the listing keys drawn from two different counter
/// values are distinct, so a placement never reuses the key of an earlier
/// listing, withdrawn or not.
pub proof fn lemma_listing_keys_fresh(c1: u64, c2: u64)
    requires
        c1 != c2,
    ensures
        dec_digits(c1 as nat) != dec_digits(c2 as nat),
{
    if dec_digits(c1 as nat) == dec_digits(c2 as nat) {
        lemma_dec_digits_injective(c1 as nat, c2 as nat);
    }
}

/// A withdrawal with no intervening bid returns the asset to the seller and
/// pays the escrowed amount (the minimum, or the zero placeholder) to the
/// seller: after a placement, the new listing's leading bidder is still the
/// seller, so the expired withdrawal's custody transfer and fund transfer
/// both name the seller.
pub proof fn lemma_no_bid_withdraw_returns_to_seller(
    s: StoreV,
    env: EnvV,
    seller: Seq<char>,
    nft_contract_address: Seq<char>,
    id: Seq<char>,
    minimum_bid: Option<CoinV>,
    height2: u64,
)
    requires
        s.config is Some,
        place_step(s, env, seller, nft_contract_address, id, minimum_bid) is Ok,
        height2 >= (env.block_height + AUCTION_WINDOW) as u64,
    ensures
        ({
            let placed = place_step(s, env, seller, nft_contract_address, id, minimum_bid)->Ok_0.0;
            let key = dec_digits(((s.config->Some_0.listing_count + 1) as u64) as nat);
            withdraw_step(placed, height2, key) matches Ok(sr)
                && sr.1.messages =~= seq![
                MsgV::NftTransfer {
                    contract_addr: nft_contract_address,
                    recipient: seller,
                    token_id: id,
                },
                MsgV::BankSend { to_address: seller, amount: seq![refund_coin(minimum_bid)] },
            ]
                && !sr.0.listings.contains_key(key)
        }),
{
    let placed = place_step(s, env, seller, nft_contract_address, id, minimum_bid)->Ok_0.0;
    let key = dec_digits(((s.config->Some_0.listing_count + 1) as u64) as nat);
    assert(placed.listings.contains_key(key));
    assert(placed.listings[key] == placed_listing(
        env,
        seller,
        nft_contract_address,
        id,
        minimum_bid,
    ));
}

} // verus!
