//! What the host hands to the event handler: a clock and the logs of one
//! block, each with the hash of its transaction.

use vstd::prelude::*;
use crate::time::Timestamp;

verus! {

/// One log of a transaction receipt.
#[derive(Clone, Debug, PartialEq, Eq)]
pub struct Log {
    /// The signature hash first, then one topic per indexed parameter.
    pub topics: Vec<Vec<u8>>,
    /// The parameters that are not indexed, one 32-byte word each.
    pub data: Vec<u8>,
    /// The position of the log in its block.
    pub block_index: u32,
}

/// A log as plain sequences.
pub struct LogView {
    pub topics: Seq<Seq<u8>>,
    pub data: Seq<u8>,
    pub block_index: u32,
}

impl View for Log {
    type V = LogView;

    open spec fn view(&self) -> LogView {
        LogView {
            topics: Seq::new(self.topics@.len(), |i: int| self.topics@[i]@),
            data: self.data@,
            block_index: self.block_index,
        }
    }
}

/// A log together with the hash of the transaction that emitted it.
#[derive(Clone, Debug, PartialEq, Eq)]
pub struct Event {
    pub log: Option<Log>,
    pub tx_hash: Vec<u8>,
}

/// An event as plain sequences.
pub struct EventView {
    pub log: Option<LogView>,
    pub tx_hash: Seq<u8>,
}

impl View for Event {
    type V = EventView;

    open spec fn view(&self) -> EventView {
        EventView {
            log: match self.log {
                Some(log) => Some(log@),
                None => None,
            },
            tx_hash: self.tx_hash@,
        }
    }
}

/// The events of one block, in block order.
#[derive(Clone, Debug, PartialEq, Eq)]
pub struct Events {
    pub events: Vec<Event>,
}

impl View for Events {
    type V = Seq<EventView>;

    open spec fn view(&self) -> Seq<EventView> {
        Seq::new(self.events@.len(), |i: int| self.events@[i]@)
    }
}

/// The block that is being handled: its identifier, number and time.
#[derive(Clone, Debug, PartialEq, Eq)]
pub struct Clock {
    pub id: String,
    pub number: u64,
    pub timestamp: Option<Timestamp>,
}

/// A clock as plain values.
pub struct ClockView {
    pub id: Seq<char>,
    pub number: u64,
    pub timestamp: Option<Timestamp>,
}

impl View for Clock {
    type V = ClockView;

    open spec fn view(&self) -> ClockView {
        ClockView { id: self.id@, number: self.number, timestamp: self.timestamp }
    }
}

} // verus!
