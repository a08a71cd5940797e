//! Notifications of what a ledger operation did, and their log encoding.

use crate::address::Address;
use crate::uint::U256;
use vstd::prelude::*;
use vstd::string::StringSliceAdditionalSpecFns;

verus! {

/// A notification that the ledger emits.
#[derive(Clone, Copy, Debug, PartialEq, Eq)]
pub enum Event {
    /// `value` moved from `from` to `to`.
    Transfer { from: Address, to: Address, value: U256 },
    /// `owner` set the amount that `spender` may move on its behalf to `value`.
    Approval { owner: Address, spender: Address, value: U256 },
}

/// An event with its amount as a number.
pub enum EventView {
    Transfer { from: Address, to: Address, value: nat },
    Approval { owner: Address, spender: Address, value: nat },
}

impl View for Event {
    type V = EventView;

    open spec fn view(&self) -> EventView {
        match *self {
            Event::Transfer { from, to, value } => EventView::Transfer { from, to, value: value@ },
            Event::Approval { owner, spender, value } => EventView::Approval {
                owner,
                spender,
                value: value@,
            },
        }
    }
}

/// The events of a log, each with its amount as a number.
pub open spec fn events_view(events: Seq<Event>) -> Seq<EventView> {
    events.map_values(|e: Event| e@)
}

/// An event as the log carries it: the indexed words, then the payload.
#[derive(Debug, PartialEq, Eq)]
pub struct LogRecord {
    pub topics: Vec<[u8; 32]>,
    pub data: Vec<u8>,
}

impl LogRecord {
    /// The record of an event with two indexed parameters: the word that
    /// names the kind of event, the two parameters in their order, and the
    /// payload.
    pub fn new(kind: [u8; 32], first: [u8; 32], second: [u8; 32], data: Vec<u8>) -> (record:
        LogRecord)
        ensures
            record.topics@ == seq![kind, first, second],
            record.data@ == data@,
    {
        let mut topics: Vec<[u8; 32]> = Vec::new();
        topics.push(kind);
        topics.push(first);
        topics.push(second);
        LogRecord { topics, data }
    }
}

/// The Keccak-256 digest of a byte string.
pub uninterp spec fn keccak256_digest(data: Seq<u8>) -> Seq<u8>;

/// The number that a byte string stands for, most significant byte first.
pub open spec fn be_value(bytes: Seq<u8>) -> nat
    decreases bytes.len(),
{
    if bytes.len() == 0 {
        0
    } else {
        be_value(bytes.drop_last()) * 256 + bytes.last() as nat
    }
}

/// An account as a 32-byte word: twelve zero bytes, then the account's twenty.
pub open spec fn address_word(account: Address) -> Seq<u8> {
    Seq::new(32, |i: int| if i < 12 { 0u8 } else { account.bytes[i - 12] })
}

impl Event {
    /// The declaration that names this kind of event in a log.
    pub open spec fn spec_signature(self) -> &'static str {
        match self {
            Event::Transfer { .. } => "Transfer(address,address,uint256)",
            Event::Approval { .. } => "Approval(address,address,uint256)",
        }
    }

    /// The declaration that names this kind of event in a log.
    #[verifier::when_used_as_spec(spec_signature)]
    pub fn signature(self) -> (text: &'static str)
        ensures
            text == self.spec_signature(),
    {
        match self {
            Event::Transfer { .. } => "Transfer(address,address,uint256)",
            Event::Approval { .. } => "Approval(address,address,uint256)",
        }
    }

    /// The two accounts of the event, in the order of its declaration.
    pub open spec fn spec_accounts(self) -> (Address, Address) {
        match self {
            Event::Transfer { from, to, .. } => (from, to),
            Event::Approval { owner, spender, .. } => (owner, spender),
        }
    }

    /// The amount of the event.
    pub open spec fn spec_value(self) -> U256 {
        match self {
            Event::Transfer { value, .. } => value,
            Event::Approval { value, .. } => value,
        }
    }

    /// The record that the log carries for this event. Its first topic is the
    /// digest of the event's declaration; the two accounts follow, each as a
    /// word; the payload is the amount as 32 bytes, most significant first.
    pub fn encode(&self) -> (record: LogRecord)
        ensures
            record.topics@.len() == 3,
            record.topics@[0]@ == keccak256_digest(self.spec_signature().spec_bytes()),
            record.topics@[1]@ == address_word(self.spec_accounts().0),
            record.topics@[2]@ == address_word(self.spec_accounts().1),
            record.data@.len() == 32,
            be_value(record.data@) == self.spec_value()@,
    {
        let (first, second, value) = match *self {
            Event::Transfer { from, to, value } => (from, to, value),
            Event::Approval { owner, spender, value } => (owner, spender, value),
        };
        let kind = keccak256(self.signature().as_bytes());
        let first = address_topic(&first);
        let second = address_topic(&second);
        LogRecord::new(kind, first, second, abi_encode_uint256(&value))
    }
}

/// `alloy_primitives::keccak256`: the Keccak-256 digest of the bytes, which
/// depends on nothing but the bytes.
#[verifier::external_body]
fn keccak256(data: &[u8]) -> (digest: [u8; 32])
    ensures
        digest@ == keccak256_digest(data@),
{
    alloy_primitives::keccak256(data).0
}

/// `encode_topic` of `alloy_sol_types::sol_data::Address`: the account as an
/// indexed event parameter, which is the account's twenty bytes behind twelve
/// zero bytes.
#[verifier::external_body]
fn address_topic(account: &Address) -> (word: [u8; 32])
    ensures
        word@ == address_word(*account),
{
    let outside = alloy_primitives::Address::new(account.bytes);
    <alloy_sol_types::sol_data::Address as alloy_sol_types::EventTopic>::encode_topic(&outside).0.0
}

/// `abi_encode` of `alloy_sol_types::sol_data::Uint<256>`: the amount as one
/// ABI word, which is its 32 bytes with the most significant first.
#[verifier::external_body]
fn abi_encode_uint256(value: &U256) -> (bytes: Vec<u8>)
    ensures
        bytes@.len() == 32,
        be_value(bytes@) == value@,
{
    let outside = alloy_primitives::U256::from_limbs(value.limbs);
    <alloy_sol_types::sol_data::Uint<256> as alloy_sol_types::SolType>::abi_encode(&outside)
}

} // verus!
