//! Integers of any size, held as big-endian two's complement bytes.
//!
//! The arithmetic itself is left to `substreams::scalar::BigInt`: this
//! module says which integer a byte string stands for, and what the decimal
//! text and the narrowing of that integer are.

use vstd::prelude::*;
use vstd::slice::slice_to_vec;
use vstd::std_specs::cmp::PartialEqSpecImpl;

verus! {

/// The natural number that a byte string spells in base 256, most
/// significant byte first. The empty string spells zero.
pub open spec fn be_value(bytes: Seq<u8>) -> nat
    decreases bytes.len(),
{
    if bytes.len() == 0 {
        0
    } else {
        be_value(bytes.drop_last()) * 256 + bytes.last() as nat
    }
}

/// 256 to the power `n`.
pub open spec fn pow256(n: nat) -> nat
    decreases n,
{
    if n == 0 {
        1
    } else {
        256 * pow256((n - 1) as nat)
    }
}

/// The integer that a byte string spells in two's complement, most
/// significant byte first: negative exactly when the top bit of the first
/// byte is set.
pub open spec fn signed_be_value(bytes: Seq<u8>) -> int {
    if bytes.len() > 0 && bytes[0] >= 128 {
        be_value(bytes) - pow256(bytes.len())
    } else {
        be_value(bytes) as int
    }
}

/// The ten decimal digits, indexed by their value.
pub open spec fn decimal_digits() -> Seq<char> {
    seq!['0', '1', '2', '3', '4', '5', '6', '7', '8', '9']
}

/// The decimal digits of a natural number, without leading zeros; zero is
/// the single digit `0`.
pub open spec fn natural_text(n: nat) -> Seq<char>
    decreases n,
{
    if n < 10 {
        seq![decimal_digits()[n as int]]
    } else {
        natural_text(n / 10).push(decimal_digits()[(n % 10) as int])
    }
}

/// The decimal text of an integer: a minus sign for a negative one, then
/// the digits of its magnitude.
pub open spec fn decimal_text(value: int) -> Seq<char> {
    if value < 0 {
        seq!['-'] + natural_text((-value) as nat)
    } else {
        natural_text(value as nat)
    }
}

/// A leading zero byte changes nothing in base 256.
pub proof fn lemma_leading_zero(bytes: Seq<u8>)
    ensures
        be_value(seq![0u8] + bytes) == be_value(bytes),
    decreases bytes.len(),
{
    let padded = seq![0u8] + bytes;
    if bytes.len() == 0 {
        assert(padded.drop_last() =~= Seq::<u8>::empty());
        assert(be_value(padded.drop_last()) == 0);
    } else {
        assert(padded.drop_last() =~= seq![0u8] + bytes.drop_last());
        lemma_leading_zero(bytes.drop_last());
    }
}

/// Behind a leading zero byte, the two's complement reading of a byte
/// string is its unsigned reading.
pub proof fn lemma_zero_prefix_is_unsigned(bytes: Seq<u8>)
    ensures
        signed_be_value(seq![0u8] + bytes) == be_value(bytes),
{
    lemma_leading_zero(bytes);
}

/// Calls `substreams::scalar::BigInt::from_signed_bytes_be`, then
/// `to_string` on the result.
///
/// Trusted: the first reads the bytes as big-endian two's complement (the
/// empty string as zero), the second writes that integer in decimal, with
/// a minus sign if negative and no leading zeros.
#[verifier::external_body]
pub(crate) fn signed_decimal(bytes: &Vec<u8>) -> (text: String)
    ensures
        text@ == decimal_text(signed_be_value(bytes@)),
{
    substreams::scalar::BigInt::from_signed_bytes_be(bytes).to_string()
}

/// Calls `substreams::scalar::BigInt::from_signed_bytes_be`, turns the
/// result into a `num_bigint::BigInt` and calls
/// `num_traits::ToPrimitive::to_i64` on it.
///
/// Trusted: the last returns the integer if it lies in the range of `i64`,
/// and `None` otherwise.
#[verifier::external_body]
pub(crate) fn signed_to_i64(bytes: &Vec<u8>) -> (narrow: Option<i64>)
    ensures
        match narrow {
            Some(n) => n as int == signed_be_value(bytes@),
            None => !(i64::MIN <= signed_be_value(bytes@) <= i64::MAX),
        },
{
    let value: num_bigint::BigInt = substreams::scalar::BigInt::from_signed_bytes_be(bytes).into();
    num_traits::ToPrimitive::to_i64(&value)
}

/// Calls `substreams::scalar::BigInt::from_signed_bytes_be`, turns the
/// result into a `num_bigint::BigInt` and calls
/// `num_traits::ToPrimitive::to_u64` on it.
///
/// Trusted: the last returns the integer if it lies in the range of `u64`,
/// and `None` otherwise.
#[verifier::external_body]
pub(crate) fn signed_to_u64(bytes: &Vec<u8>) -> (narrow: Option<u64>)
    ensures
        match narrow {
            Some(n) => n as int == signed_be_value(bytes@),
            None => !(0 <= signed_be_value(bytes@) <= u64::MAX),
        },
{
    let value: num_bigint::BigInt = substreams::scalar::BigInt::from_signed_bytes_be(bytes).into();
    num_traits::ToPrimitive::to_u64(&value)
}

/// Calls `substreams::scalar::BigInt::from_signed_bytes_be` on each byte
/// string and compares the two results with `==`.
///
/// Trusted: the comparison is that of the two integers.
#[verifier::external_body]
pub(crate) fn signed_equal(left: &Vec<u8>, right: &Vec<u8>) -> (equal: bool)
    ensures
        equal == (signed_be_value(left@) == signed_be_value(right@)),
{
    substreams::scalar::BigInt::from_signed_bytes_be(left)
        == substreams::scalar::BigInt::from_signed_bytes_be(right)
}

/// An integer of any size. Two of them are equal when they are the same
/// integer, however many bytes each is written in.
#[derive(Clone, Debug)]
pub struct BigInt {
    /// Big-endian two's complement.
    bytes: Vec<u8>,
}

impl PartialEq for BigInt {
    fn eq(&self, other: &BigInt) -> (equal: bool) {
        signed_equal(&self.bytes, &other.bytes)
    }
}

impl Eq for BigInt {

}

impl PartialEqSpecImpl for BigInt {
    open spec fn obeys_eq_spec() -> bool {
        true
    }

    open spec fn eq_spec(&self, other: &BigInt) -> bool {
        self@ == other@
    }
}

impl View for BigInt {
    type V = int;

    closed spec fn view(&self) -> int {
        signed_be_value(self.bytes@)
    }
}

impl BigInt {
    /// Reads a byte string as big-endian two's complement.
    pub fn from_signed_bytes_be(bytes: &[u8]) -> (value: BigInt)
        ensures
            value@ == signed_be_value(bytes@),
    {
        BigInt { bytes: slice_to_vec(bytes) }
    }

    /// Reads a byte string as a big-endian natural number.
    pub fn from_unsigned_bytes_be(bytes: &[u8]) -> (value: BigInt)
        ensures
            value@ == be_value(bytes@),
    {
        let mut padded: Vec<u8> = vec![0u8];
        let mut rest = slice_to_vec(bytes);
        padded.append(&mut rest);
        proof {
            assert(padded@ =~= seq![0u8] + bytes@);
            lemma_zero_prefix_is_unsigned(bytes@);
        }
        BigInt { bytes: padded }
    }

    /// The integer in decimal.
    pub fn to_text(&self) -> (text: String)
        ensures
            text@ == decimal_text(self@),
    {
        signed_decimal(&self.bytes)
    }

    /// The integer as an `i64`, if it is in range.
    pub fn to_i64(&self) -> (narrow: Option<i64>)
        ensures
            narrow is Some <==> i64::MIN <= self@ <= i64::MAX,
            narrow matches Some(n) ==> n as int == self@,
    {
        signed_to_i64(&self.bytes)
    }

    /// The integer as a `u64`, if it is in range.
    pub fn to_u64(&self) -> (narrow: Option<u64>)
        ensures
            narrow is Some <==> 0 <= self@ <= u64::MAX,
            narrow matches Some(n) ==> n as int == self@,
    {
        signed_to_u64(&self.bytes)
    }
}

} // verus!
