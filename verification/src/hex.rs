//! Lower-case hexadecimal text of byte strings.

use vstd::prelude::*;

verus! {

/// The sixteen lower-case hexadecimal digits, indexed by their value.
pub open spec fn hex_digits() -> Seq<char> {
    seq!['0', '1', '2', '3', '4', '5', '6', '7', '8', '9', 'a', 'b', 'c', 'd', 'e', 'f']
}

/// The two digits that stand for one byte: high nibble first.
pub open spec fn hex_pair(byte: u8) -> Seq<char> {
    seq![hex_digits()[byte as int / 16], hex_digits()[byte as int % 16]]
}

/// The hexadecimal text of a byte string: two digits per byte, in order,
/// with no prefix and no separator.
pub open spec fn hex_text(bytes: Seq<u8>) -> Seq<char>
    decreases bytes.len(),
{
    if bytes.len() == 0 {
        Seq::empty()
    } else {
        hex_text(bytes.drop_last()) + hex_pair(bytes.last())
    }
}

/// The text has exactly two characters per byte.
pub proof fn lemma_hex_text_len(bytes: Seq<u8>)
    ensures
        hex_text(bytes).len() == 2 * bytes.len(),
    decreases bytes.len(),
{
    if bytes.len() > 0 {
        lemma_hex_text_len(bytes.drop_last());
    }
}

/// Calls `substreams::Hex::to_string` on `bytes`.
///
/// Trusted: the outside function writes, for each byte in order, the entry of
/// its table of 256 two-digit lower-case strings, and nothing else.
#[verifier::external_body]
pub(crate) fn hex_encode(bytes: &Vec<u8>) -> (text: String)
    ensures
        text@ == hex_text(bytes@),
{
    substreams::Hex(bytes).to_string()
}

} // verus!
