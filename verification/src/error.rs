//! Errors surfaced by the state machine. Every failure aborts the whole
//! call: no state mutation is applied and no action is emitted.

use vstd::prelude::*;

verus! {

#[derive(Clone, Copy, Debug, PartialEq, Eq, Structural)]
pub enum ContractError {
    /// The attached payment does not strictly exceed the required threshold.
    InsufficientFundsSend,
    /// A bid arrived at or after the listing's expiry height.
    AuctionEnded,
    /// A withdrawal arrived before the listing's expiry height.
    AuctionNotEnded,
    /// The referenced record has no entry in the store: it was never
    /// created, or it was already withdrawn.
    NotFound,
}

impl ContractError {
    /// A short diagnostic label for the error.
    pub fn describe(&self) -> (r: &'static str)
        ensures
            r@ == match self {
                ContractError::InsufficientFundsSend => "insufficient funds sent"@,
                ContractError::AuctionEnded => "auction ended"@,
                ContractError::AuctionNotEnded => "auction not ended"@,
                ContractError::NotFound => "not found"@,
            },
    {
        match self {
            ContractError::InsufficientFundsSend => "insufficient funds sent",
            ContractError::AuctionEnded => "auction ended",
            ContractError::AuctionNotEnded => "auction not ended",
            ContractError::NotFound => "not found",
        }
    }
}

} // verus!
