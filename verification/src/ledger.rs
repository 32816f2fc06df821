//! Plain values exchanged with the host ledger: what a call carries in, and
//! the transfers and attributes that an accepted call hands back.

use vstd::prelude::*;
use vstd::string::StringExecFns;

verus! {

/// The fixed stake of one player, in units of the stake denomination.
pub const STAKE_AMOUNT: u128 = 1_000_000;

/// The whole pot: both stakes.
pub const POT_AMOUNT: u128 = 2_000_000;

/// The denomination in which stakes are paid.
pub open spec fn stake_denom() -> Seq<char> {
    "uscrt"@
}

/// The denomination in which stakes are paid, as an owned string.
pub fn stake_denomination() -> (d: String)
    ensures
        d@ == stake_denom(),
{
    String::from_str("uscrt")
}

/// An amount of one fungible asset.
#[derive(Clone, Debug, PartialEq, Eq)]
pub struct Coin {
    pub denom: String,
    pub amount: u128,
}

pub ghost struct CoinView {
    pub denom: Seq<char>,
    pub amount: u128,
}

impl View for Coin {
    type V = CoinView;

    open spec fn view(&self) -> CoinView {
        CoinView { denom: self.denom@, amount: self.amount }
    }
}

/// Who sent a call, and the funds attached to it.
#[derive(Clone, Debug, PartialEq, Eq)]
pub struct MessageInfo {
    pub sender: String,
    pub funds: Vec<Coin>,
}

pub ghost struct MessageInfoView {
    pub sender: Seq<char>,
    pub funds: Seq<CoinView>,
}

impl View for MessageInfo {
    type V = MessageInfoView;

    open spec fn view(&self) -> MessageInfoView {
        MessageInfoView {
            sender: self.sender@,
            funds: self.funds@.map_values(|c: Coin| c@),
        }
    }
}

/// What a call sees of the ledger: the height of the block it runs in.
#[derive(Clone, Copy, Debug, PartialEq, Eq, Structural)]
pub struct Env {
    pub block_height: u64,
}

/// An intent to send `amount` units of `denom` to `to_address`. The host
/// carries it out together with the state write, or not at all.
#[derive(Clone, Debug, PartialEq, Eq)]
pub struct Transfer {
    pub to_address: String,
    pub denom: String,
    pub amount: u128,
}

pub ghost struct TransferView {
    pub to_address: Seq<char>,
    pub denom: Seq<char>,
    pub amount: u128,
}

impl View for Transfer {
    type V = TransferView;

    open spec fn view(&self) -> TransferView {
        TransferView { to_address: self.to_address@, denom: self.denom@, amount: self.amount }
    }
}

/// A key and a value logged with an accepted call.
#[derive(Clone, Debug, PartialEq, Eq)]
pub struct Attribute {
    pub key: String,
    pub value: String,
}

pub ghost struct AttributeView {
    pub key: Seq<char>,
    pub value: Seq<char>,
}

impl View for Attribute {
    type V = AttributeView;

    open spec fn view(&self) -> AttributeView {
        AttributeView { key: self.key@, value: self.value@ }
    }
}

/// What an accepted call hands back: the transfers to queue and the
/// attributes to log.
#[derive(Clone, Debug, PartialEq, Eq)]
pub struct Response {
    pub messages: Vec<Transfer>,
    pub attributes: Vec<Attribute>,
}

pub ghost struct ResponseView {
    pub messages: Seq<TransferView>,
    pub attributes: Seq<AttributeView>,
}

impl ResponseView {
    /// The response with no transfer and no attribute.
    pub open spec fn empty() -> ResponseView {
        ResponseView { messages: Seq::empty(), attributes: Seq::empty() }
    }

    pub open spec fn with_message(self, transfer: TransferView) -> ResponseView {
        ResponseView { messages: self.messages.push(transfer), attributes: self.attributes }
    }

    pub open spec fn with_attribute(self, key: Seq<char>, value: Seq<char>) -> ResponseView {
        ResponseView {
            messages: self.messages,
            attributes: self.attributes.push(AttributeView { key, value }),
        }
    }
}

impl View for Response {
    type V = ResponseView;

    open spec fn view(&self) -> ResponseView {
        ResponseView {
            messages: self.messages@.map_values(|t: Transfer| t@),
            attributes: self.attributes@.map_values(|a: Attribute| a@),
        }
    }
}

/// The sum of the amounts of a list of transfers.
pub open spec fn total_sent(messages: Seq<TransferView>) -> nat
    decreases messages.len(),
{
    if messages.len() == 0 {
        0
    } else {
        total_sent(messages.drop_last()) + messages.last().amount as nat
    }
}

impl Response {
    /// A response with no transfer and no attribute.
    pub fn new() -> (r: Response)
        ensures
            r@ == ResponseView::empty(),
    {
        let r = Response { messages: Vec::new(), attributes: Vec::new() };
        assert(r@.messages =~= Seq::empty());
        assert(r@.attributes =~= Seq::empty());
        r
    }

    /// Queues one more transfer, after those already queued.
    pub fn add_message(self, transfer: Transfer) -> (r: Response)
        ensures
            r@ == self@.with_message(transfer@),
    {
        let mut messages = self.messages;
        messages.push(transfer);
        let r = Response { messages, attributes: self.attributes };
        assert(r@.messages =~= self@.messages.push(transfer@));
        r
    }

    /// Logs one more attribute, after those already logged.
    pub fn add_attribute(self, key: &str, value: &str) -> (r: Response)
        ensures
            r@ == self@.with_attribute(key@, value@),
    {
        let mut attributes = self.attributes;
        attributes.push(Attribute { key: String::from_str(key), value: String::from_str(value) });
        let r = Response { messages: self.messages, attributes };
        assert(r@.attributes =~= self@.attributes.push(AttributeView { key: key@, value: value@ }));
        r
    }
}

} // verus!
