//! Sixteen-bit values on the wire: high byte first.

use vstd::prelude::*;

verus! {

/// The value whose high byte is `hi` and whose low byte is `lo`.
pub open spec fn word_of(hi: u8, lo: u8) -> u16 {
    (hi as int * 256 + lo as int) as u16
}

/// The high byte of `w`.
pub open spec fn high_byte(w: u16) -> u8 {
    (w as int / 256) as u8
}

/// The low byte of `w`.
pub open spec fn low_byte(w: u16) -> u8 {
    (w as int % 256) as u8
}

/// Each value as two bytes, high byte first, in order.
pub open spec fn bytes_of_words(words: Seq<u16>) -> Seq<u8> {
    Seq::new(
        2 * words.len(),
        |i: int|
            if i % 2 == 0 {
                high_byte(words[i / 2])
            } else {
                low_byte(words[i / 2])
            },
    )
}

/// Each pair of bytes as one value, high byte first; a last byte without
/// a partner is left out.
pub open spec fn words_of_bytes(bytes: Seq<u8>) -> Seq<u16> {
    Seq::new(bytes.len() / 2, |i: int| word_of(bytes[2 * i], bytes[2 * i + 1]))
}

/// Calls `qmk_via_api::utils::shift_to_16_bit`, which shifts `hi` left by
/// eight bits and ors `lo` into the result.
#[verifier::external_body]
pub(crate) fn join_word(hi: u8, lo: u8) -> (w: u16)
    ensures
        w == word_of(hi, lo),
{
    qmk_via_api::utils::shift_to_16_bit(hi, lo)
}

/// Calls `qmk_via_api::utils::shift_from_16_bit`, which returns the value
/// shifted right by eight bits and the value truncated to eight bits.
#[verifier::external_body]
pub(crate) fn split_word(w: u16) -> (bytes: (u8, u8))
    ensures
        bytes.0 == high_byte(w),
        bytes.1 == low_byte(w),
{
    qmk_via_api::utils::shift_from_16_bit(w)
}

/// Calls `qmk_via_api::utils::shift_buffer_from_16_bit`, which pushes the
/// two bytes of each value, high byte first, onto an empty vector.
#[verifier::external_body]
pub(crate) fn split_words(words: &Vec<u16>) -> (bytes: Vec<u8>)
    ensures
        bytes@ == bytes_of_words(words@),
{
    qmk_via_api::utils::shift_buffer_from_16_bit(words)
}

/// Calls `qmk_via_api::utils::shift_buffer_to_16_bit`, which walks the
/// bytes two at a time, joins each pair high byte first, and drops a last
/// byte that has no partner.
#[verifier::external_body]
pub(crate) fn join_words(bytes: &Vec<u8>) -> (words: Vec<u16>)
    ensures
        words@ == words_of_bytes(bytes@),
{
    qmk_via_api::utils::shift_buffer_to_16_bit(bytes)
}

/// Splitting a value and joining the two bytes gives the value back.
pub proof fn lemma_split_then_join(w: u16)
    ensures
        word_of(high_byte(w), low_byte(w)) == w,
{
}

} // verus!
