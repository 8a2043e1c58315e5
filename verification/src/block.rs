//! The block handler: one JSON line per block, made of four header fields.

use vstd::prelude::*;
use crate::hex::{hex_encode, hex_text};
use crate::json::{insert_number, insert_text, new_object, object_text, render_object};
use crate::time::{timestamp_text, Timestamp};

verus! {

/// The part of a block's header that the handler reads.
#[derive(Clone, Debug, PartialEq, Eq)]
pub struct BlockHeader {
    pub parent_hash: Vec<u8>,
    pub timestamp: Option<Timestamp>,
}

/// The part of a block that the handler reads.
#[derive(Clone, Debug, PartialEq, Eq)]
pub struct Block {
    pub hash: Vec<u8>,
    pub number: u64,
    pub header: Option<BlockHeader>,
}

/// Text lines handed back to the host, which writes them out one per line.
#[derive(Clone, Debug, PartialEq, Eq)]
pub struct Lines {
    pub lines: Vec<String>,
}

/// Why a block yields no line.
#[derive(Clone, Copy, Debug, PartialEq, Eq, Structural)]
pub enum HandlerError {
    /// The block carries no header.
    MissingHeader,
    /// The header carries no timestamp.
    MissingTimestamp,
}

impl View for Lines {
    type V = Seq<Seq<char>>;

    open spec fn view(&self) -> Seq<Seq<char>> {
        Seq::new(self.lines@.len(), |i: int| self.lines@[i]@)
    }
}

/// The number members of a header line: the block number alone.
pub open spec fn header_numbers(number: u64) -> Map<Seq<char>, int> {
    Map::<Seq<char>, int>::empty().insert("number"@, number as int)
}

/// The text members of a header line, each under its key.
pub open spec fn header_texts(
    hash: Seq<char>,
    parent_hash: Seq<char>,
    timestamp: Seq<char>,
) -> Map<Seq<char>, Seq<char>> {
    Map::<Seq<char>, Seq<char>>::empty().insert("hash"@, hash).insert(
        "parent_hash"@,
        parent_hash,
    ).insert("timestamp"@, timestamp)
}

/// The JSON line of a block: its number, its hash and its parent's hash in
/// hexadecimal, and its timestamp as RFC 3339 text.
pub open spec fn header_line(
    number: u64,
    hash: Seq<u8>,
    parent_hash: Seq<u8>,
    timestamp: Timestamp,
) -> Seq<char> {
    object_text(
        header_numbers(number),
        header_texts(
            hex_text(hash),
            hex_text(parent_hash),
            timestamp_text(timestamp.seconds as int, timestamp.nanos as int),
        ),
    )
}

/// What the handler returns for a block: its line, or the reason for none.
pub open spec fn jsonl_spec(block: Block) -> Result<Seq<Seq<char>>, HandlerError> {
    match block.header {
        None => Err(HandlerError::MissingHeader),
        Some(header) => match header.timestamp {
            None => Err(HandlerError::MissingTimestamp),
            Some(timestamp) => Ok(
                seq![header_line(block.number, block.hash@, header.parent_hash@, timestamp)],
            ),
        },
    }
}

/// The four keys are pairwise different.
pub proof fn lemma_keys_differ()
    ensures
        "number"@ != "hash"@,
        "number"@ != "parent_hash"@,
        "number"@ != "timestamp"@,
        "hash"@ != "parent_hash"@,
        "hash"@ != "timestamp"@,
        "parent_hash"@ != "timestamp"@,
{
    reveal_strlit("number");
    reveal_strlit("hash");
    reveal_strlit("parent_hash");
    reveal_strlit("timestamp");
    assert("number"@.len() == 6);
    assert("hash"@.len() == 4);
    assert("parent_hash"@.len() == 11);
    assert("timestamp"@.len() == 9);
}

/// Renders the JSON object of a header line from its four members, the
/// three texts already made.
pub fn render_header(number: u64, hash: String, parent_hash: String, timestamp: String) -> (text:
    String)
    ensures
        text@ == object_text(header_numbers(number), header_texts(hash@, parent_hash@, timestamp@)),
{
    let mut object = new_object();
    insert_number(&mut object, "number", number);
    insert_text(&mut object, "hash", hash);
    insert_text(&mut object, "parent_hash", parent_hash);
    insert_text(&mut object, "timestamp", timestamp);
    proof {
        lemma_keys_differ();
        assert(crate::json::object_numbers(object) =~= header_numbers(number));
        assert(crate::json::object_texts(object) =~= header_texts(
            hash@,
            parent_hash@,
            timestamp@,
        ));
    }
    render_object(object)
}

impl Lines {
    /// A single line.
    pub fn single(line: String) -> (lines: Lines)
        ensures
            lines@ == seq![line@],
    {
        let lines = Lines { lines: vec![line] };
        assert(lines@ =~= seq![line@]);
        lines
    }
}

/// Handles one block: returns its header line, or says which part is
/// missing.
pub fn jsonl_out(block: &Block) -> (result: Result<Lines, HandlerError>)
    ensures
        match result {
            Ok(lines) => jsonl_spec(*block) == Ok::<Seq<Seq<char>>, HandlerError>(lines@),
            Err(error) => jsonl_spec(*block) == Err::<Seq<Seq<char>>, HandlerError>(error),
        },
{
    match &block.header {
        None => Err(HandlerError::MissingHeader),
        Some(header) => {
            let hash = hex_encode(&block.hash);
            let parent_hash = hex_encode(&header.parent_hash);
            match &header.timestamp {
                None => Err(HandlerError::MissingTimestamp),
                Some(timestamp) => {
                    let text = render_header(block.number, hash, parent_hash, timestamp.to_text());
                    Ok(Lines::single(text))
                },
            }
        },
    }
}

} // verus!
