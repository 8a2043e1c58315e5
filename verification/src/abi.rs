//! The events of the pool contract: how a log is recognised as one of them
//! and how its parameters are read from topics and data.

use vstd::prelude::*;
use vstd::slice::{slice_subrange, slice_to_vec};
use crate::bigint::{be_value, signed_be_value, BigInt};
use crate::ethereum::{Log, LogView};

pub mod eth_usdc_pool_contract;

verus! {

/// Why a log that matches an event cannot be decoded.
#[derive(Clone, Copy, Debug, PartialEq, Eq, Structural)]
pub enum DecodeError {
    /// A topic that should hold a word is shorter than one.
    InvalidData,
}

/// The `index`-th word of a data section.
pub open spec fn word(data: Seq<u8>, index: int) -> Seq<u8> {
    data.subrange(32 * index, 32 * index + 32)
}

/// The address in a word: its last twenty bytes. What stands before them is
/// not looked at.
pub open spec fn address(word: Seq<u8>) -> Seq<u8> {
    word.subrange(12, 32)
}

/// Whether a log has the shape of an event: the number of topics, the
/// length of the data, and the signature hash as the first topic.
pub open spec fn has_shape(log: LogView, topic_id: Seq<u8>, topic_count: nat, data_size: nat) -> bool {
    &&& log.topics.len() == topic_count
    &&& log.data.len() == data_size
    &&& topic_count > 0
    &&& log.topics[0] == topic_id
}

/// Whether two byte strings are equal.
pub fn same_bytes(left: &[u8], right: &[u8]) -> (same: bool)
    ensures
        same == (left@ == right@),
{
    if left.len() != right.len() {
        return false;
    }
    let mut i: usize = 0;
    while i < left.len()
        invariant
            left@.len() == right@.len(),
            i <= left@.len(),
            forall|j: int| 0 <= j < i ==> left@[j] == right@[j],
        decreases left@.len() - i,
    {
        if left[i] != right[i] {
            return false;
        }
        i += 1;
    }
    assert(left@ =~= right@);
    true
}

/// Tests the shape of a log against an event's signature hash, topic count
/// and data length.
pub fn check_shape(log: &Log, topic_id: &[u8; 32], topic_count: usize, data_size: usize) -> (matches:
    bool)
    ensures
        matches == has_shape(log@, topic_id@, topic_count as nat, data_size as nat),
{
    if topic_count == 0 || log.topics.len() != topic_count {
        return false;
    }
    if log.data.len() != data_size {
        return false;
    }
    same_bytes(log.topics[0].as_slice(), topic_id.as_slice())
}

/// Reads the `index`-th word of a data section as an address.
pub fn data_address(data: &Vec<u8>, index: usize) -> (bytes: Vec<u8>)
    requires
        32 * (index + 1) <= data@.len(),
    ensures
        bytes@ == address(word(data@, index as int)),
{
    let length: usize = data.len();
    assert(32 * index + 32 <= length);
    let start: usize = 32 * index;
    let bytes = slice_to_vec(slice_subrange(data.as_slice(), start + 12, start + 32));
    assert(bytes@ =~= address(word(data@, index as int)));
    bytes
}

/// Reads the `index`-th word of a data section as a two's complement
/// integer.
pub fn data_int(data: &Vec<u8>, index: usize) -> (value: BigInt)
    requires
        32 * (index + 1) <= data@.len(),
    ensures
        value@ == signed_be_value(word(data@, index as int)),
{
    let length: usize = data.len();
    assert(32 * index + 32 <= length);
    let start: usize = 32 * index;
    BigInt::from_signed_bytes_be(slice_subrange(data.as_slice(), start, start + 32))
}

/// Reads the `index`-th word of a data section as a natural number.
pub fn data_uint(data: &Vec<u8>, index: usize) -> (value: BigInt)
    requires
        32 * (index + 1) <= data@.len(),
    ensures
        value@ == be_value(word(data@, index as int)),
{
    let length: usize = data.len();
    assert(32 * index + 32 <= length);
    let start: usize = 32 * index;
    BigInt::from_unsigned_bytes_be(slice_subrange(data.as_slice(), start, start + 32))
}

/// Reads a topic as an address: the last twenty bytes of its first word.
/// A topic shorter than a word holds none.
pub fn topic_address(topic: &Vec<u8>) -> (result: Result<Vec<u8>, DecodeError>)
    ensures
        match result {
            Ok(bytes) => topic@.len() >= 32 && bytes@ == address(topic@),
            Err(error) => topic@.len() < 32 && error == DecodeError::InvalidData,
        },
{
    if topic.len() < 32 {
        return Err(DecodeError::InvalidData);
    }
    Ok(slice_to_vec(slice_subrange(topic.as_slice(), 12, 32)))
}

/// Reads a whole topic, whatever its length, as a two's complement integer.
pub fn topic_int(topic: &Vec<u8>) -> (value: BigInt)
    ensures
        value@ == signed_be_value(topic@),
{
    BigInt::from_signed_bytes_be(topic.as_slice())
}

/// An event of the contract, as decoded from a log.
pub trait Event: Sized + View {
    /// The signature hash, the number of topics and the length of the data
    /// of a log of this event.
    spec fn matches(log: LogView) -> bool;

    /// What decoding a matching log gives.
    spec fn decoded(log: LogView) -> Result<Self::V, DecodeError>;

    /// Whether the log is one of this event.
    fn match_log(log: &Log) -> (matches: bool)
        ensures
            matches == Self::matches(log@),
    ;

    /// Reads the parameters of the event from a log that matches it.
    fn decode(log: &Log) -> (result: Result<Self, DecodeError>)
        requires
            Self::matches(log@),
        ensures
            match result {
                Ok(event) => Self::decoded(log@) == Ok::<Self::V, DecodeError>(event@),
                Err(error) => Self::decoded(log@) == Err::<Self::V, DecodeError>(error),
            },
    ;
}

/// What `match_and_decode` gives for a log: the decoded event if the log
/// matches and decodes, and nothing otherwise.
pub open spec fn matched<E: Event>(log: LogView) -> Option<E::V> {
    if E::matches(log) {
        match E::decoded(log) {
            Ok(event) => Some(event),
            Err(_) => None,
        }
    } else {
        None
    }
}

/// Decodes the log as event `E` if it matches. A log that does not match,
/// or matches and fails to decode, gives `None`.
pub fn match_and_decode<E: Event>(log: &Log) -> (result: Option<E>)
    ensures
        match result {
            Some(event) => matched::<E>(log@) == Some(event@),
            None => matched::<E>(log@).is_none(),
        },
{
    if !E::match_log(log) {
        return None;
    }
    match E::decode(log) {
        Ok(event) => Some(event),
        Err(_) => None,
    }
}

} // verus!
