//! The execution options that go to the gateway with every quote and send.
//! The options are kept as text in hexadecimal and decoded with `hex`.
use vstd::prelude::*;
use crate::consts::{GAS_OPTIONS, GAS_OPTIONS_HEX};

verus! {

#[verifier::external_type_specification]
#[verifier::external_body]
pub struct ExFromHexError(hex::FromHexError);

/// The value of a hexadecimal digit, in either case; `None` for any other
/// character.
pub open spec fn hex_digit(c: char) -> Option<u8> {
    if '0' <= c <= '9' {
        Some((c as u32 - '0' as u32) as u8)
    } else if 'a' <= c <= 'f' {
        Some((c as u32 - 'a' as u32 + 10) as u8)
    } else if 'A' <= c <= 'F' {
        Some((c as u32 - 'A' as u32 + 10) as u8)
    } else {
        None
    }
}

/// The bytes that `text` writes in hexadecimal, two digits to the byte, the
/// high digit first; `None` where the text has an odd number of characters
/// or a character that is no hexadecimal digit.
pub open spec fn hex_decoded(text: Seq<char>) -> Option<Seq<u8>>
    decreases text.len(),
{
    if text.len() == 0 {
        Some(Seq::empty())
    } else if text.len() == 1 {
        None
    } else {
        match (hex_digit(text[0]), hex_digit(text[1]), hex_decoded(text.skip(2))) {
            (Some(high), Some(low), Some(rest)) => Some(seq![(16 * high + low) as u8] + rest),
            _ => None,
        }
    }
}

/// Decodes hexadecimal text with `hex::decode`. That function takes the text
/// two bytes at a time, reads each as a digit in either case, and puts the
/// first into the high half of a byte and the second into the low half; it
/// fails on an odd length and on any byte that is no digit. A character
/// outside ASCII has no byte that is a digit, so the text fails there too.
#[verifier::external_body]
fn hex_decode(text: &str) -> (decoded: Result<Vec<u8>, hex::FromHexError>)
    ensures
        match hex_decoded(text@) {
            Some(bytes) => decoded matches Ok(v) && v@ == bytes,
            None => decoded is Err,
        },
{
    hex::decode(text)
}

/// What decoding the text gave, or nothing where the text is no hexadecimal.
pub fn decode_options(text: &str) -> (options: Option<Vec<u8>>)
    ensures
        match hex_decoded(text@) {
            Some(bytes) => options matches Some(v) && v@ == bytes,
            None => options is None,
        },
{
    match hex_decode(text) {
        Ok(bytes) => Some(bytes),
        Err(_) => None,
    }
}

/// The text of the execution options writes the 22 bytes of the options.
pub proof fn lemma_options_text()
    ensures
        hex_decoded(GAS_OPTIONS_HEX@) == Some(GAS_OPTIONS@),
{
    reveal_strlit("00030100110100000000000000000000000000061a80");
    reveal_with_fuel(hex_decoded, 24);
    let text = GAS_OPTIONS_HEX@;
    assert(text.len() == 44);
    assert(hex_decoded(text) is Some);
    assert(hex_decoded(text)->0 =~= GAS_OPTIONS@);
}

/// The execution options in bytes: the 22 bytes that their text writes.
pub fn gas_options() -> (options: Vec<u8>)
    ensures
        options@ == GAS_OPTIONS@,
{
    proof {
        lemma_options_text();
    }
    decode_options(GAS_OPTIONS_HEX).unwrap()
}

} // verus!
