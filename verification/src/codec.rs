//! The text codecs that the service speaks: base 58 for addresses, secrets
//! and signatures, base 64 for instruction payloads.

use vstd::prelude::*;
use crate::base58;
use crate::base64;

verus! {

/// Why a text could not be decoded.
#[derive(Clone, Copy, Debug, PartialEq, Eq)]
pub enum DecodeError {
    /// The text is not a valid encoding: a character outside the alphabet,
    /// or, in base 64, a length or padding that no encoding has.
    InvalidEncoding,
}

/// The base-58 text of `bytes`.
pub fn encode_base58(bytes: &[u8]) -> (text: String)
    ensures
        text@ == base58::encoding(bytes@),
{
    base58::bs58_encode(bytes)
}

/// The bytes that a base-58 text stands for. Fails exactly on a text with a
/// character outside the alphabet; never returns a shortened result.
pub fn decode_base58(text: &str) -> (result: Result<Vec<u8>, DecodeError>)
    ensures
        match result {
            Ok(bytes) => base58::decoding(text@) == Some(bytes@),
            Err(e) => e == DecodeError::InvalidEncoding && !base58::well_formed(text@),
        },
{
    match base58::bs58_decode(text) {
        Some(bytes) => Ok(bytes),
        None => Err(DecodeError::InvalidEncoding),
    }
}

/// The base-64 text of `bytes`.
pub fn encode_base64(bytes: &[u8]) -> (text: String)
    ensures
        text@ == base64::encoding(bytes@),
{
    base64::standard_encode(bytes)
}

/// The bytes that a base-64 text stands for: the one byte string whose
/// encoding the text is. Fails exactly on a text that is the encoding of no
/// byte string.
pub fn decode_base64(text: &str) -> (result: Result<Vec<u8>, DecodeError>)
    ensures
        match result {
            Ok(bytes) => base64::encoding(bytes@) == text@ && forall|other: Seq<u8>|
                base64::encoding(other) == text@ ==> other == bytes@,
            Err(e) => e == DecodeError::InvalidEncoding && !base64::well_formed(text@),
        },
{
    match base64::standard_decode(text) {
        Some(bytes) => {
            assert forall|other: Seq<u8>| base64::encoding(other) == text@ implies other
                == bytes@ by {
                base64::lemma_encoding_injective(other, bytes@);
            }
            Ok(bytes)
        },
        None => Err(DecodeError::InvalidEncoding),
    }
}

} // verus!
