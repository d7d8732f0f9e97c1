//! The CRC-8 that protects each data word on the wire.
use vstd::prelude::*;

verus! {

/// The CRC-8 of `data` as the sensirion-i2c crate computes it.
pub uninterp spec fn crc8_of(data: Seq<u8>) -> u8;

/// The word at position `k` of a response (two data bytes and a checksum
/// byte) carries a matching checksum.
pub open spec fn word_ok(raw: Seq<u8>, k: int) -> bool {
    crc8_of(seq![raw[3 * k], raw[3 * k + 1]]) == raw[3 * k + 2]
}

/// Every word of a response carries a matching checksum.
pub open spec fn words_valid(raw: Seq<u8>) -> bool {
    &&& raw.len() % 3 == 0
    &&& forall|k: int| 0 <= k < raw.len() / 3 ==> #[trigger] word_ok(raw, k)
}

/// Relies on sensirion_i2c::crc8::calculate for the checksum of a word's bytes.
#[verifier::external_body]
pub(crate) fn crc8(data: &[u8]) -> (r: u8)
    ensures
        r == crc8_of(data@),
{
    sensirion_i2c::crc8::calculate(data)
}

/// Relies on sensirion_i2c::crc8::validate, which checks the third byte of each
/// 3-byte chunk against crc8::calculate of the first two, and panics on a
/// length that is not a multiple of 3.
#[verifier::external_body]
pub(crate) fn crc_words_valid(buf: &[u8]) -> (r: bool)
    requires
        buf@.len() % 3 == 0,
    ensures
        r == words_valid(buf@),
{
    sensirion_i2c::crc8::validate(buf).is_ok()
}

} // verus!
