//! Plain value types exchanged between the host and the state machine:
//! coins, the per-call environment, the caller's message info, and the
//! response (attributes plus emitted actions) that every transition returns.

use vstd::prelude::*;

verus! {

/// A payment: an amount of one denomination.
#[derive(Clone, Debug, PartialEq, Eq)]
pub struct Coin {
    pub denom: String,
    pub amount: u128,
}

impl Coin {
    /// A copy of the coin with the same denomination and amount.
    pub fn dup(&self) -> (r: Coin)
        ensures
            r@ == self@,
    {
        Coin { denom: self.denom.clone(), amount: self.amount }
    }
}

/// Mathematical image of a `Coin`.
pub ghost struct CoinV {
    pub denom: Seq<char>,
    pub amount: u128,
}

impl View for Coin {
    type V = CoinV;

    open spec fn view(&self) -> CoinV {
        CoinV { denom: self.denom@, amount: self.amount }
    }
}

/// Mathematical image of a sequence of coins.
pub open spec fn coins_view(s: Seq<Coin>) -> Seq<CoinV> {
    s.map_values(|c: Coin| c@)
}

/// Mathematical image of an `Option<Coin>`.
pub open spec fn opt_coin_view(o: Option<Coin>) -> Option<CoinV> {
    match o {
        Some(c) => Some(c@),
        None => None,
    }
}

/// A copy of an optional coin, value for value.
pub fn opt_coin_dup(o: &Option<Coin>) -> (r: Option<Coin>)
    ensures
        opt_coin_view(r) == opt_coin_view(*o),
{
    match o {
        Some(c) => Some(c.dup()),
        None => None,
    }
}

/// Host-supplied facts about the current call: the block height at which it
/// runs and the address of this contract (the escrow principal).
#[derive(Clone, Debug)]
pub struct Env {
    pub block_height: u64,
    pub contract_address: String,
}

pub ghost struct EnvV {
    pub block_height: u64,
    pub contract_address: Seq<char>,
}

impl View for Env {
    type V = EnvV;

    open spec fn view(&self) -> EnvV {
        EnvV { block_height: self.block_height, contract_address: self.contract_address@ }
    }
}

/// Host-supplied facts about the caller: its identity and the funds it
/// attached to the call.
#[derive(Clone, Debug)]
pub struct MessageInfo {
    pub sender: String,
    pub funds: Vec<Coin>,
}

pub ghost struct MessageInfoV {
    pub sender: Seq<char>,
    pub funds: Seq<CoinV>,
}

impl View for MessageInfo {
    type V = MessageInfoV;

    open spec fn view(&self) -> MessageInfoV {
        MessageInfoV {
            sender: self.sender@,
            funds: coins_view(self.funds@),
        }
    }
}

/// An outgoing instruction emitted by a transition, to be executed by the
/// host atomically with the state write.
#[derive(Clone, Debug, PartialEq, Eq)]
pub enum CosmosMsg {
    /// Transfer funds from the contract's escrow to `to_address`.
    BankSend { to_address: String, amount: Vec<Coin> },
    /// Ask the asset registry at `contract_addr` to let `spender` move the
    /// asset `token_id` until block height `expires_at`.
    NftApprove { contract_addr: String, spender: String, token_id: String, expires_at: u64 },
    /// Ask the asset registry at `contract_addr` to move custody of the
    /// asset `token_id` to `recipient`.
    NftTransfer { contract_addr: String, recipient: String, token_id: String },
}

pub ghost enum MsgV {
    BankSend { to_address: Seq<char>, amount: Seq<CoinV> },
    NftApprove { contract_addr: Seq<char>, spender: Seq<char>, token_id: Seq<char>, expires_at: u64 },
    NftTransfer { contract_addr: Seq<char>, recipient: Seq<char>, token_id: Seq<char> },
}

impl View for CosmosMsg {
    type V = MsgV;

    open spec fn view(&self) -> MsgV {
        match self {
            CosmosMsg::BankSend { to_address, amount } => MsgV::BankSend {
                to_address: to_address@,
                amount: coins_view(amount@),
            },
            CosmosMsg::NftApprove { contract_addr, spender, token_id, expires_at } => MsgV::NftApprove {
                contract_addr: contract_addr@,
                spender: spender@,
                token_id: token_id@,
                expires_at: *expires_at,
            },
            CosmosMsg::NftTransfer { contract_addr, recipient, token_id } => MsgV::NftTransfer {
                contract_addr: contract_addr@,
                recipient: recipient@,
                token_id: token_id@,
            },
        }
    }
}

/// A key/value pair recorded on a response for the host's event log.
#[derive(Clone, Debug, PartialEq, Eq)]
pub struct Attribute {
    pub key: String,
    pub value: String,
}

pub ghost struct AttributeV {
    pub key: Seq<char>,
    pub value: Seq<char>,
}

impl View for Attribute {
    type V = AttributeV;

    open spec fn view(&self) -> AttributeV {
        AttributeV { key: self.key@, value: self.value@ }
    }
}

/// What a transition hands back to the host on success: log attributes and
/// the emitted actions, executed atomically with the state write.
#[derive(Clone, Debug, PartialEq, Eq)]
pub struct Response {
    pub attributes: Vec<Attribute>,
    pub messages: Vec<CosmosMsg>,
}

pub ghost struct ResponseV {
    pub attributes: Seq<AttributeV>,
    pub messages: Seq<MsgV>,
}

impl View for Response {
    type V = ResponseV;

    open spec fn view(&self) -> ResponseV {
        ResponseV {
            attributes: self.attributes@.map_values(|a: Attribute| a@),
            messages: self.messages@.map_values(|m: CosmosMsg| m@),
        }
    }
}

} // verus!
