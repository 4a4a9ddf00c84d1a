//! The entry-point messages and query responses, as plain values. The wire
//! encoding of these messages belongs to the host binding layer.

use vstd::prelude::*;
use crate::state::{Config, ListingV};
use crate::types::{Coin, opt_coin_view};

verus! {

/// Initializes the configuration record; carries nothing.
#[derive(Clone, Debug, PartialEq, Eq)]
pub struct InstantiateMsg {}

/// A state transition request.
#[derive(Clone, Debug, PartialEq, Eq)]
pub enum ExecuteMsg {
    /// Place an asset on auction.
    PlaceListing { nft_contract_address: String, id: String, minimum_bid: Option<Coin> },
    /// Bid on an asset already on auction.
    BidListing { listing_id: String },
    /// Withdraw an ended auction.
    WithdrawListing { listing_id: String },
}

/// A read-only projection request.
#[derive(Clone, Debug, PartialEq, Eq)]
pub enum QueryMsg {
    /// The configuration record.
    Config {},
    /// All details of one listing.
    ResolveListing { id: String },
}

/// The full record returned for a listing query.
#[derive(Clone, Debug, PartialEq, Eq)]
pub struct ResolveListingResponse {
    pub token_id: String,
    pub contract_addr: String,
    pub seller: String,
    pub max_bid: Option<Coin>,
    pub max_bidder: String,
    pub block_limit: u64,
}

impl View for ResolveListingResponse {
    type V = ListingV;

    open spec fn view(&self) -> ListingV {
        ListingV {
            token_id: self.token_id@,
            contract_addr: self.contract_addr@,
            seller: self.seller@,
            max_bid: opt_coin_view(self.max_bid),
            max_bidder: self.max_bidder@,
            block_limit: self.block_limit,
        }
    }
}

/// What a query returns: one variant per query message.
#[derive(Clone, Debug, PartialEq, Eq)]
pub enum QueryAnswer {
    Config(Config),
    Listing(ResolveListingResponse),
}

} // verus!
