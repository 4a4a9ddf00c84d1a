//! The auction state machine: placement, bid admission, and terminal
//! withdrawal, each a transition that loads the relevant records, validates
//! its preconditions, writes the new state, and emits the custody calls and
//! fund transfers the host must execute atomically with the write.
//!
//! Each executable handler is specified against a transition function over
//! the store's mathematical image; the laws of the machine are proved of
//! those transition functions.

use vstd::prelude::*;
use crate::coin_helpers::{assert_sent_sufficient_coin, validate_payment, zero_coin};
use crate::decimal::{dec_digits, u64_to_decimal};
use crate::error::ContractError;
use crate::msg::{ExecuteMsg, InstantiateMsg, QueryAnswer, QueryMsg, ResolveListingResponse};
use crate::state::{config, config_read, list_resolver, list_resolver_read, Config, Listing, ListingV, Store, StoreV};
use crate::types::{Attribute, AttributeV, Coin, CoinV, CosmosMsg, Env, EnvV, MessageInfo, MsgV, Response, ResponseV, opt_coin_dup, opt_coin_view};

verus! {

/// Every auction is biddable for exactly this many blocks after placement.
pub const AUCTION_WINDOW: u64 = 50000;

/// The asset-custody approval granted at placement expires this many blocks
/// after placement: a safety bound on the approval itself, independent of
/// the auction window.
pub const APPROVAL_WINDOW: u64 = 20000;

/// The coin refunded or paid out for an escrowed bid: the bid itself, or
/// the zero-amount placeholder when no real bid was ever escrowed. A
/// zero-amount transfer is a legitimate no-op.
pub open spec fn refund_coin(bid: Option<CoinV>) -> CoinV {
    match bid {
        Some(c) => c,
        None => zero_coin(),
    }
}

/// The listing written by a placement at height `env.block_height`: seller
/// and initial leading bidder are the caller, the escrow threshold is the
/// requested minimum, and expiry falls a fixed window after placement.
pub open spec fn placed_listing(
    env: EnvV,
    sender: Seq<char>,
    nft_contract_address: Seq<char>,
    id: Seq<char>,
    minimum_bid: Option<CoinV>,
) -> ListingV {
    ListingV {
        token_id: id,
        contract_addr: nft_contract_address,
        seller: sender,
        max_bid: minimum_bid,
        max_bidder: sender,
        block_limit: (env.block_height + AUCTION_WINDOW) as u64,
    }
}

/// What placing a listing decides: load the configuration, draw the next
/// identifier from the counter, persist the incremented counter, persist
/// the new listing under the counter's decimal form, and emit the approval
/// grant and the custody transfer that move the asset into escrow.
pub open spec fn place_step(
    s: StoreV,
    env: EnvV,
    sender: Seq<char>,
    nft_contract_address: Seq<char>,
    id: Seq<char>,
    minimum_bid: Option<CoinV>,
) -> Result<(StoreV, ResponseV), ContractError> {
    match s.config {
        None => Err(ContractError::NotFound),
        Some(c) => {
            let count = (c.listing_count + 1) as u64;
            let key = dec_digits(count as nat);
            let listing = placed_listing(env, sender, nft_contract_address, id, minimum_bid);
            let response = ResponseV {
                attributes: seq![AttributeV { key: "place_listing"@, value: id }],
                messages: seq![
                    MsgV::NftApprove {
                        contract_addr: nft_contract_address,
                        spender: env.contract_address,
                        token_id: id,
                        expires_at: (env.block_height + APPROVAL_WINDOW) as u64,
                    },
                    MsgV::NftTransfer {
                        contract_addr: nft_contract_address,
                        recipient: env.contract_address,
                        token_id: id,
                    },
                ],
            };
            Ok(
                (
                    StoreV {
                        config: Some(Config { listing_count: count }),
                        listings: s.listings.insert(key, listing),
                    },
                    response,
                ),
            )
        },
    }
}

/// What bidding decides: the listing must exist and still be biddable
/// (`height < block_limit`), the attached funds must strictly exceed the
/// escrowed bid, and then the caller displaces the leading bidder while the
/// displaced bid is refunded in full.
pub open spec fn bid_step(
    s: StoreV,
    height: u64,
    sender: Seq<char>,
    funds: Seq<CoinV>,
    listing_id: Seq<char>,
) -> Result<(StoreV, ResponseV), ContractError> {
    if !s.listings.contains_key(listing_id) {
        Err(ContractError::NotFound)
    } else {
        let l = s.listings[listing_id];
        if height >= l.block_limit {
            Err(ContractError::AuctionEnded)
        } else {
            match validate_payment(funds, l.max_bid) {
                Err(e) => Err(e),
                Ok(new_bid) => {
                    let updated = ListingV { max_bid: new_bid, max_bidder: sender, ..l };
                    let response = ResponseV {
                        attributes: seq![AttributeV { key: "Bidding"@, value: listing_id }],
                        messages: seq![
                            MsgV::BankSend {
                                to_address: l.max_bidder,
                                amount: seq![refund_coin(l.max_bid)],
                            },
                        ],
                    };
                    Ok(
                        (
                            StoreV { config: s.config, listings: s.listings.insert(listing_id, updated) },
                            response,
                        ),
                    )
                },
            }
        }
    }
}

/// What withdrawing decides: the listing must exist and be expired
/// (`height >= block_limit`); then the record is deleted, the asset goes to
/// the leading bidder (the seller, if nobody ever bid), and the escrowed
/// amount goes to the seller.
pub open spec fn withdraw_step(s: StoreV, height: u64, listing_id: Seq<char>) -> Result<
    (StoreV, ResponseV),
    ContractError,
> {
    if !s.listings.contains_key(listing_id) {
        Err(ContractError::NotFound)
    } else {
        let l = s.listings[listing_id];
        if height < l.block_limit {
            Err(ContractError::AuctionNotEnded)
        } else {
            let response = ResponseV {
                attributes: seq![AttributeV { key: "listing_ended"@, value: listing_id }],
                messages: seq![
                    MsgV::NftTransfer {
                        contract_addr: l.contract_addr,
                        recipient: l.max_bidder,
                        token_id: l.token_id,
                    },
                    MsgV::BankSend { to_address: l.seller, amount: seq![refund_coin(l.max_bid)] },
                ],
            };
            Ok(
                (
                    StoreV { config: s.config, listings: s.listings.remove(listing_id) },
                    response,
                ),
            )
        }
    }
}

/// An executable transition realizes a transition function's outcome: on
/// success the store holds the new state and the response's image is the
/// decided one; on failure the decided error comes back and the store is
/// untouched.
pub open spec fn step_matches(
    pre: StoreV,
    post: StoreV,
    result: Result<Response, ContractError>,
    step: Result<(StoreV, ResponseV), ContractError>,
) -> bool {
    match step {
        Ok(sr) => result matches Ok(r) && r@ == sr.1 && post == sr.0,
        Err(e) => result matches Err(e2) && e2 == e && post == pre,
    }
}

impl Default for Response {
    /// An empty response: no attributes, no emitted actions.
    fn default() -> (r: Response)
        ensures
            r@.attributes == Seq::<AttributeV>::empty(),
            r@.messages == Seq::<MsgV>::empty(),
    {
        let r = Response { attributes: Vec::new(), messages: Vec::new() };
        proof {
            assert(r@.attributes =~= Seq::<AttributeV>::empty());
            assert(r@.messages =~= Seq::<MsgV>::empty());
        }
        r
    }
}

/// Initializes the configuration record with a zero listing counter,
/// leaving any listings untouched. Never fails.
pub fn instantiate(
    storage: &mut Store,
    _env: &Env,
    _info: &MessageInfo,
    _msg: InstantiateMsg,
) -> (result: Result<Response, ContractError>)
    requires
        old(storage).wf(),
    ensures
        final(storage).wf(),
        final(storage)@.config == Some(Config { listing_count: 0 }),
        final(storage)@.listings == old(storage)@.listings,
        result matches Ok(r) && r@.attributes.len() == 0 && r@.messages.len() == 0,
{
    let config_state = Config { listing_count: 0 };
    config(storage, &config_state);
    Ok(Response::default())
}

/// Places a new listing: draws the next identifier, persists the
/// incremented counter and the new record, and emits the approval grant
/// and the custody transfer that move the asset from the seller into this
/// contract's escrow.
pub fn execute_place_listing(
    storage: &mut Store,
    env: &Env,
    info: &MessageInfo,
    nft_contract_address: String,
    id: String,
    minimum_bid: Option<Coin>,
) -> (result: Result<Response, ContractError>)
    requires
        old(storage).wf(),
        old(storage)@.config matches Some(c) ==> c.listing_count < u64::MAX,
        env.block_height + AUCTION_WINDOW <= u64::MAX,
    ensures
        final(storage).wf(),
        step_matches(
            old(storage)@,
            final(storage)@,
            result,
            place_step(
                old(storage)@,
                env@,
                info@.sender,
                nft_contract_address@,
                id@,
                opt_coin_view(minimum_bid),
            ),
        ),
{
    let config_state = match config_read(storage) {
        Ok(c) => c,
        Err(e) => {
            return Err(e);
        },
    };
    let listing_count = config_state.listing_count + 1;
    config(storage, &Config { listing_count });

    let listing = Listing {
        token_id: id.clone(),
        contract_addr: nft_contract_address.clone(),
        seller: info.sender.clone(),
        max_bid: minimum_bid,
        max_bidder: info.sender.clone(),
        block_limit: env.block_height + AUCTION_WINDOW,
    };
    let key = u64_to_decimal(listing_count);
    list_resolver(storage, &key, &listing);

    let attributes = vec![
        Attribute { key: String::from_str("place_listing"), value: id.clone() },
    ];
    let messages = vec![
        CosmosMsg::NftApprove {
            contract_addr: nft_contract_address.clone(),
            spender: env.contract_address.clone(),
            token_id: id.clone(),
            expires_at: env.block_height + APPROVAL_WINDOW,
        },
        CosmosMsg::NftTransfer {
            contract_addr: nft_contract_address,
            recipient: env.contract_address.clone(),
            token_id: id,
        },
    ];
    let response = Response { attributes, messages };
    proof {
        let step = place_step(
            old(storage)@,
            env@,
            info@.sender,
            nft_contract_address@,
            id@,
            opt_coin_view(minimum_bid),
        );
        let expected = step->Ok_0;
        assert(response@.attributes =~= expected.1.attributes);
        assert(response@.messages =~= expected.1.messages);
        assert(final(storage)@ == expected.0);
    }
    Ok(response)
}

/// Admits a bid: the listing must still be biddable and the attached funds
/// must strictly exceed the escrowed bid; the caller becomes the leading
/// bidder and the displaced bid is refunded in full to the displaced
/// bidder.
pub fn execute_bid_listing(
    storage: &mut Store,
    env: &Env,
    info: &MessageInfo,
    listing_id: String,
) -> (result: Result<Response, ContractError>)
    requires
        old(storage).wf(),
    ensures
        final(storage).wf(),
        step_matches(
            old(storage)@,
            final(storage)@,
            result,
            bid_step(old(storage)@, env@.block_height, info@.sender, info@.funds, listing_id@),
        ),
{
    let listing = match list_resolver_read(storage, &listing_id) {
        Ok(l) => l,
        Err(e) => {
            return Err(e);
        },
    };
    if env.block_height >= listing.block_limit {
        return Err(ContractError::AuctionEnded);
    }

    let sent_coin = match assert_sent_sufficient_coin(&info.funds, opt_coin_dup(&listing.max_bid)) {
        Ok(c) => c,
        Err(e) => {
            return Err(e);
        },
    };
    let last_bid = match &listing.max_bid {
        Some(c) => c.dup(),
        None => Coin { denom: String::from_str("token"), amount: 0 },
    };
    let last_bidder = listing.max_bidder.clone();

    let updated = Listing {
        token_id: listing.token_id,
        contract_addr: listing.contract_addr,
        seller: listing.seller,
        max_bid: sent_coin,
        max_bidder: info.sender.clone(),
        block_limit: listing.block_limit,
    };
    list_resolver(storage, &listing_id, &updated);

    let attributes = vec![
        Attribute { key: String::from_str("Bidding"), value: listing_id.clone() },
    ];
    let messages = vec![
        CosmosMsg::BankSend { to_address: last_bidder, amount: vec![last_bid] },
    ];
    let response = Response { attributes, messages };
    proof {
        let step = bid_step(
            old(storage)@,
            env@.block_height,
            info@.sender,
            info@.funds,
            listing_id@,
        );
        let expected = step->Ok_0;
        assert(response@.attributes =~= expected.1.attributes);
        assert(response@.messages[0]->BankSend_amount =~= expected.1.messages[0]->BankSend_amount);
        assert(response@.messages =~= expected.1.messages);
        assert(final(storage)@ == expected.0);
    }
    Ok(response)
}

/// Settles an expired listing: deletes the record, sends the asset to the
/// leading bidder (the seller, if nobody ever bid), and sends the escrowed
/// amount to the seller. The deletion makes settlement terminal: any later
/// call with the same identifier fails with `NotFound`.
pub fn execute_withdraw_listing(
    storage: &mut Store,
    env: &Env,
    _info: &MessageInfo,
    listing_id: String,
) -> (result: Result<Response, ContractError>)
    requires
        old(storage).wf(),
    ensures
        final(storage).wf(),
        step_matches(
            old(storage)@,
            final(storage)@,
            result,
            withdraw_step(old(storage)@, env@.block_height, listing_id@),
        ),
{
    let listing = match list_resolver_read(storage, &listing_id) {
        Ok(l) => l,
        Err(e) => {
            return Err(e);
        },
    };
    if env.block_height < listing.block_limit {
        return Err(ContractError::AuctionNotEnded);
    }

    storage.remove_listing(&listing_id);

    let payout = match &listing.max_bid {
        Some(c) => c.dup(),
        None => Coin { denom: String::from_str("token"), amount: 0 },
    };
    let attributes = vec![
        Attribute { key: String::from_str("listing_ended"), value: listing_id.clone() },
    ];
    let messages = vec![
        CosmosMsg::NftTransfer {
            contract_addr: listing.contract_addr,
            recipient: listing.max_bidder,
            token_id: listing.token_id,
        },
        CosmosMsg::BankSend { to_address: listing.seller, amount: vec![payout] },
    ];
    let response = Response { attributes, messages };
    proof {
        let step = withdraw_step(old(storage)@, env@.block_height, listing_id@);
        let expected = step->Ok_0;
        assert(response@.attributes =~= expected.1.attributes);
        assert(response@.messages[1]->BankSend_amount =~= expected.1.messages[1]->BankSend_amount);
        assert(response@.messages =~= expected.1.messages);
        assert(final(storage)@ == expected.0);
    }
    Ok(response)
}

/// Routes a transition request to its handler.
pub fn execute(
    storage: &mut Store,
    env: &Env,
    info: &MessageInfo,
    msg: ExecuteMsg,
) -> (result: Result<Response, ContractError>)
    requires
        old(storage).wf(),
        msg matches ExecuteMsg::PlaceListing { .. } ==> (old(storage)@.config matches Some(c)
            ==> c.listing_count < u64::MAX) && env.block_height + AUCTION_WINDOW <= u64::MAX,
    ensures
        final(storage).wf(),
        match msg {
            ExecuteMsg::PlaceListing { nft_contract_address, id, minimum_bid } => step_matches(
                old(storage)@,
                final(storage)@,
                result,
                place_step(
                    old(storage)@,
                    env@,
                    info@.sender,
                    nft_contract_address@,
                    id@,
                    opt_coin_view(minimum_bid),
                ),
            ),
            ExecuteMsg::BidListing { listing_id } => step_matches(
                old(storage)@,
                final(storage)@,
                result,
                bid_step(old(storage)@, env@.block_height, info@.sender, info@.funds, listing_id@),
            ),
            ExecuteMsg::WithdrawListing { listing_id } => step_matches(
                old(storage)@,
                final(storage)@,
                result,
                withdraw_step(old(storage)@, env@.block_height, listing_id@),
            ),
        },
{
    match msg {
        ExecuteMsg::PlaceListing { nft_contract_address, id, minimum_bid } => {
            execute_place_listing(storage, env, info, nft_contract_address, id, minimum_bid)
        },
        ExecuteMsg::BidListing { listing_id } => execute_bid_listing(storage, env, info, listing_id),
        ExecuteMsg::WithdrawListing { listing_id } => {
            execute_withdraw_listing(storage, env, info, listing_id)
        },
    }
}

/// Resolves one listing to its full record, failing with `NotFound` when
/// the identifier has no record.
pub fn query_list_resolver(storage: &Store, _env: &Env, id: String) -> (result: Result<
    ResolveListingResponse,
    ContractError,
>)
    requires
        storage.wf(),
    ensures
        result matches Ok(r) ==> storage@.listings.contains_key(id@) && r@
            == storage@.listings[id@],
        result matches Err(e) ==> !storage@.listings.contains_key(id@) && e
            == ContractError::NotFound,
{
    let listing = match storage.may_load_listing(&id) {
        Some(l) => l,
        None => {
            return Err(ContractError::NotFound);
        },
    };
    Ok(
        ResolveListingResponse {
            token_id: listing.token_id,
            contract_addr: listing.contract_addr,
            seller: listing.seller,
            max_bid: listing.max_bid,
            max_bidder: listing.max_bidder,
            block_limit: listing.block_limit,
        },
    )
}

/// Read-only projections over the store: the configuration record, or the
/// full record of one listing.
pub fn query(storage: &Store, env: &Env, msg: QueryMsg) -> (result: Result<
    QueryAnswer,
    ContractError,
>)
    requires
        storage.wf(),
    ensures
        match msg {
            QueryMsg::Config {} => result == match storage@.config {
                Some(c) => Ok::<QueryAnswer, ContractError>(QueryAnswer::Config(c)),
                None => Err::<QueryAnswer, ContractError>(ContractError::NotFound),
            },
            QueryMsg::ResolveListing { id } => {
                &&& result matches Ok(a) ==> a matches QueryAnswer::Listing(r)
                    && storage@.listings.contains_key(id@) && r@ == storage@.listings[id@]
                &&& result matches Err(e) ==> !storage@.listings.contains_key(id@) && e
                    == ContractError::NotFound
            },
        },
{
    match msg {
        QueryMsg::Config {} => match config_read(storage) {
            Ok(c) => Ok(QueryAnswer::Config(c)),
            Err(e) => Err(e),
        },
        QueryMsg::ResolveListing { id } => match query_list_resolver(storage, env, id) {
            Ok(r) => Ok(QueryAnswer::Listing(r)),
            Err(e) => Err(e),
        },
    }
}

} // verus!
