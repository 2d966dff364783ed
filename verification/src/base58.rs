//! Base-58 text, in the Bitcoin alphabet.
//!
//! A byte string and its text are the same numeral in base 256 and in base
//! 58: each leading zero byte becomes a leading `1`, and the rest is the value
//! written with as few symbols as possible.

use vstd::prelude::*;
use crate::radix::{
    all_below, convert, leading_zeros, lemma_convert_below, lemma_convert_round_trip,
    lemma_digits_of_value, lemma_leading_zeros_split, lemma_value_ignores_leading_zeros, value_be,
};

verus! {

/// The 58 symbols, in the order of their values.
pub open spec fn alphabet() -> Seq<char> {
    "123456789ABCDEFGHJKLMNPQRSTUVWXYZabcdefghijkmnopqrstuvwxyz"@
}

/// The symbol that stands for the digit `d`.
pub open spec fn symbol(d: nat) -> char {
    alphabet()[d as int]
}

/// Whether `c` is one of the 58 symbols.
pub open spec fn is_symbol(c: char) -> bool {
    exists|d: nat| d < 58 && symbol(d) == c
}

/// The digit that the symbol `c` stands for.
pub open spec fn symbol_value(c: char) -> nat {
    choose|d: nat| d < 58 && symbol(d) == c
}

/// Whether a text holds symbols of the alphabet only.
pub open spec fn well_formed(text: Seq<char>) -> bool {
    forall|i: int| 0 <= i < text.len() ==> is_symbol(#[trigger] text[i])
}

/// Bytes as digits in base 256.
pub open spec fn byte_digits(bytes: Seq<u8>) -> Seq<nat> {
    bytes.map_values(|b: u8| b as nat)
}

/// Digits in base 256 as bytes.
pub open spec fn digit_bytes(digits: Seq<nat>) -> Seq<u8> {
    digits.map_values(|d: nat| d as u8)
}

/// Symbols as digits in base 58.
pub open spec fn symbol_digits(text: Seq<char>) -> Seq<nat> {
    text.map_values(|c: char| symbol_value(c))
}

/// Digits in base 58 as symbols.
pub open spec fn digit_symbols(digits: Seq<nat>) -> Seq<char> {
    digits.map_values(|d: nat| symbol(d))
}

/// The text of a byte string.
pub open spec fn encoding(bytes: Seq<u8>) -> Seq<char> {
    digit_symbols(convert(byte_digits(bytes), 256, 58))
}

/// The byte string that a text stands for; none where the text holds
/// anything but symbols of the alphabet.
pub open spec fn decoding(text: Seq<char>) -> Option<Seq<u8>> {
    if well_formed(text) {
        Some(digit_bytes(convert(symbol_digits(text), 58, 256)))
    } else {
        None
    }
}

/// The alphabet has 58 symbols, no two of them alike.
pub proof fn lemma_alphabet()
    ensures
        alphabet().len() == 58,
        alphabet().no_duplicates(),
{
    reveal_strlit("123456789ABCDEFGHJKLMNPQRSTUVWXYZabcdefghijkmnopqrstuvwxyz");
    let a = alphabet();
    assert(a.len() == 58);
    assert forall|i: int, j: int| 0 <= i < a.len() && 0 <= j < a.len() && i != j implies a[i]
        != a[j] by {
        assert(a[i] as int != a[j] as int);
    }
}

/// Symbols and digits below 58 stand for each other.
pub proof fn lemma_symbols()
    ensures
        forall|d: nat| d < 58 ==> is_symbol(#[trigger] symbol(d)) && symbol_value(symbol(d)) == d,
        forall|c: char|
            is_symbol(c) ==> #[trigger] symbol_value(c) < 58 && symbol(symbol_value(c)) == c,
{
    lemma_alphabet();
    assert forall|d: nat| d < 58 implies is_symbol(#[trigger] symbol(d)) && symbol_value(symbol(d))
        == d by {
        let c = symbol(d);
        let found = symbol_value(c);
        assert(found < 58 && symbol(found) == c);
        assert(alphabet()[found as int] == alphabet()[d as int]);
    }
}

/// Decoding the text of a byte string gives the byte string.
pub proof fn lemma_decoding_of_encoding(bytes: Seq<u8>)
    ensures
        well_formed(encoding(bytes)),
        decoding(encoding(bytes)) == Some(bytes),
{
    lemma_symbols();
    let digits = byte_digits(bytes);
    let numeral = convert(digits, 256, 58);
    let text = encoding(bytes);
    lemma_convert_below(digits, 256, 58);
    assert(well_formed(text)) by {
        assert forall|i: int| 0 <= i < text.len() implies is_symbol(#[trigger] text[i]) by {
            assert(numeral[i] < 58);
            assert(text[i] == symbol(numeral[i]));
        }
    }
    assert(symbol_digits(text) =~= numeral) by {
        assert forall|i: int| 0 <= i < numeral.len() implies symbol_digits(text)[i]
            == numeral[i] by {
            assert(numeral[i] < 58);
            assert(text[i] == symbol(numeral[i]));
        }
    }
    assert(all_below(digits, 256)) by {
        assert forall|i: int| 0 <= i < digits.len() implies #[trigger] digits[i] < 256 by {
            assert(digits[i] == bytes[i] as nat);
        }
    }
    lemma_convert_round_trip(digits, 256, 58);
    assert(digit_bytes(digits) =~= bytes);
}

/// Encoding the byte string that a text stands for gives the text.
pub proof fn lemma_encoding_of_decoding(text: Seq<char>)
    requires
        well_formed(text),
    ensures
        encoding(decoding(text).unwrap()) == text,
{
    lemma_symbols();
    let digits = symbol_digits(text);
    let numeral = convert(digits, 58, 256);
    let bytes = decoding(text).unwrap();
    lemma_convert_below(digits, 58, 256);
    assert(byte_digits(bytes) =~= numeral) by {
        assert forall|i: int| 0 <= i < numeral.len() implies byte_digits(bytes)[i]
            == numeral[i] by {
            assert(numeral[i] < 256);
            assert(bytes[i] == numeral[i] as u8);
        }
    }
    assert(all_below(digits, 58)) by {
        assert forall|i: int| 0 <= i < digits.len() implies #[trigger] digits[i] < 58 by {
            assert(is_symbol(text[i]));
            assert(digits[i] == symbol_value(text[i]));
        }
    }
    lemma_convert_round_trip(digits, 58, 256);
    assert(digit_symbols(digits) =~= text) by {
        assert forall|i: int| 0 <= i < text.len() implies digit_symbols(digits)[i] == text[i] by {
            assert(is_symbol(text[i]));
            assert(digits[i] == symbol_value(text[i]));
        }
    }
}

/// A text and a byte string that are worth the same, and start with as many
/// zero digits, stand for each other.
pub proof fn lemma_same_numeral(text: Seq<char>, bytes: Seq<u8>)
    requires
        well_formed(text),
        value_be(symbol_digits(text), 58) == value_be(byte_digits(bytes), 256),
        leading_zeros(symbol_digits(text)) == leading_zeros(byte_digits(bytes)),
    ensures
        decoding(text) == Some(bytes),
        encoding(bytes) == text,
{
    let digits = byte_digits(bytes);
    let count = leading_zeros(digits);
    let body = digits.skip(count as int);
    lemma_leading_zeros_split(digits);
    lemma_value_ignores_leading_zeros(count, body, 256);
    assert(all_below(body, 256)) by {
        assert forall|i: int| 0 <= i < body.len() implies #[trigger] body[i] < 256 by {
            assert(body[i] == bytes[i + count] as nat);
        }
    }
    lemma_digits_of_value(body, 256);
    assert(convert(symbol_digits(text), 58, 256) == digits);
    assert(digit_bytes(digits) =~= bytes);
    lemma_encoding_of_decoding(text);
}

/// Calls `bs58::encode(..).into_string()`, which writes the input as a
/// base-58 numeral in the Bitcoin alphabet: one `1` for each leading zero
/// byte, then the shortest digits of the value of the bytes.
#[verifier::external_body]
pub(crate) fn bs58_encode(bytes: &[u8]) -> (text: String)
    ensures
        text@ == encoding(bytes@),
{
    bs58::encode(bytes).into_string()
}

/// Calls `bs58::decode(..).into_vec()`, which fails on the first character
/// outside the Bitcoin alphabet and otherwise reads the text as a base-58
/// numeral: one zero byte for each leading `1`, then the shortest bytes of
/// the value of the digits.
#[verifier::external_body]
pub(crate) fn bs58_decode(text: &str) -> (bytes: Option<Vec<u8>>)
    ensures
        match bytes {
            Some(found) => decoding(text@) == Some(found@),
            None => decoding(text@) is None,
        },
{
    bs58::decode(text).into_vec().ok()
}

} // verus!
