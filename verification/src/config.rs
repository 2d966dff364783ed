//! Where the service listens and which ledger endpoint it asks: what was
//! configured, or the defaults.

use vstd::prelude::*;
use vstd::utf8::encode_utf8;
use crate::radix::{lemma_value_of_prefix, value_be};

verus! {

/// The port that is used where none is configured, or none that can be read.
pub const DEFAULT_PORT: u16 = 3000;

/// The endpoint that is asked where none is configured.
pub open spec fn default_rpc_url() -> Seq<char> {
    "https://api.mainnet-beta.solana.com"@
}

/// The settings of the service.
#[derive(Debug, Clone, PartialEq, Eq)]
pub struct ServiceConfig {
    pub rpc_url: String,
    pub port: u16,
}

/// Whether a byte is one of the characters `0` to `9`.
pub open spec fn is_digit(byte: u8) -> bool {
    48 <= byte <= 57
}

/// Every byte is a digit character.
pub open spec fn all_digits(bytes: Seq<u8>) -> bool {
    forall|i: int| 0 <= i < bytes.len() ==> is_digit(#[trigger] bytes[i])
}

/// The digits that digit characters stand for.
pub open spec fn digit_values(bytes: Seq<u8>) -> Seq<nat> {
    bytes.map_values(|b: u8| (b - 48) as nat)
}

/// A text without the `+` that may stand at its front.
pub open spec fn without_sign(bytes: Seq<u8>) -> Seq<u8> {
    if bytes.len() > 0 && bytes[0] == 43 {
        bytes.skip(1)
    } else {
        bytes
    }
}

/// The port that a text names: an optional `+`, then one or more decimal
/// digits and nothing else, worth at most 65535. Zeros at the front are
/// allowed.
pub open spec fn port_of_text(bytes: Seq<u8>) -> Option<u16> {
    let digits = without_sign(bytes);
    let value = value_be(digit_values(digits), 10);
    if digits.len() > 0 && all_digits(digits) && value <= 65535 {
        Some(value as u16)
    } else {
        None
    }
}

/// Reads a port from text, going by its UTF-8 bytes.
pub fn parse_port(text: &str) -> (port: Option<u16>)
    ensures
        port == port_of_text(encode_utf8(text@)),
{
    let bytes = text.as_bytes();
    let n = bytes.len();
    let start: usize = if n > 0 && bytes[0] == 43 {
        1
    } else {
        0
    };
    let ghost digits = without_sign(bytes@);
    assert(digits =~= bytes@.subrange(start as int, n as int));
    if start == n {
        return None;
    }
    let mut value: u32 = 0;
    let mut i: usize = start;
    assert(digits.take(0) =~= Seq::<u8>::empty());
    while i < n
        invariant
            start <= i <= n,
            n == bytes@.len(),
            digits == bytes@.subrange(start as int, n as int),
            digits == without_sign(encode_utf8(text@)),
            all_digits(digits.take(i - start)),
            value == value_be(digit_values(digits.take(i - start)), 10),
            value <= 65535,
        decreases n - i,
    {
        let byte = bytes[i];
        assert(digits[i - start] == byte);
        if byte < 48 || byte > 57 {
            assert(!is_digit(digits[i - start]));
            return None;
        }
        let next: u32 = value * 10 + (byte - 48) as u32;
        let ghost seen = digits.take(i - start + 1);
        proof {
            assert(seen.drop_last() =~= digits.take(i - start));
            assert(digit_values(seen).drop_last() =~= digit_values(seen.drop_last()));
            assert(digit_values(seen).last() == (byte - 48) as nat);
            assert(value_be(digit_values(seen), 10) == next);
            assert forall|k: int| 0 <= k < seen.len() implies is_digit(#[trigger] seen[k]) by {
                if k < seen.len() - 1 {
                    assert(digits.take(i - start)[k] == seen[k]);
                }
            }
        }
        if next > 65535 {
            proof {
                assert(digit_values(digits).take(i - start + 1) =~= digit_values(seen));
                lemma_value_of_prefix(digit_values(digits), i - start + 1, 10);
            }
            return None;
        }
        value = next;
        i += 1;
    }
    assert(digits.take(n - start) =~= digits);
    Some(value as u16)
}

/// The settings that come of what was configured. An endpoint is taken as it
/// is; a port that cannot be read counts as none.
pub fn resolve(rpc_url: Option<String>, port: Option<String>) -> (config: ServiceConfig)
    ensures
        config.rpc_url@ == (match rpc_url {
            Some(url) => url@,
            None => default_rpc_url(),
        }),
        config.port == (match port {
            Some(text) => match port_of_text(encode_utf8(text@)) {
                Some(number) => number,
                None => DEFAULT_PORT,
            },
            None => DEFAULT_PORT,
        }),
{
    let rpc_url = match rpc_url {
        Some(url) => url,
        None => "https://api.mainnet-beta.solana.com".to_owned(),
    };
    let port = match port {
        Some(text) => match parse_port(text.as_str()) {
            Some(number) => number,
            None => DEFAULT_PORT,
        },
        None => DEFAULT_PORT,
    };
    ServiceConfig { rpc_url, port }
}

} // verus!
