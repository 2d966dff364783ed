//! Key material: addresses, secrets and signatures as fixed-length byte
//! strings, parsed from base-58 text, and Ed25519 signing and verification.

use vstd::prelude::*;
use crate::base58;
use crate::codec::{decode_base58, encode_base58};
use solana_sdk::signature::{Keypair, Signature as LedgerSignature};
use solana_sdk::signer::Signer;

verus! {

/// The public identifier of an account: 32 bytes, written as base-58 text.
#[derive(Clone, Copy, Debug, PartialEq, Eq)]
pub struct PublicAddress {
    pub bytes: [u8; 32],
}

impl View for PublicAddress {
    type V = Seq<u8>;

    open spec fn view(&self) -> Seq<u8> {
        self.bytes@
    }
}

impl PublicAddress {
    /// The address as base-58 text, the way addresses are written. The
    /// text stands for the address again.
    pub fn to_text(&self) -> (text: String)
        ensures
            text@ == base58::encoding(self@),
            address_of_text(text@) == Some(self@),
    {
        proof {
            base58::lemma_decoding_of_encoding(self@);
        }
        encode_base58(&self.bytes)
    }
}

/// An Ed25519 signature: 64 bytes.
#[derive(Clone, Copy, Debug, PartialEq, Eq)]
pub struct Signature {
    pub bytes: [u8; 64],
}

impl View for Signature {
    type V = Seq<u8>;

    open spec fn view(&self) -> Seq<u8> {
        self.bytes@
    }
}

impl Signature {
    /// The signature as base-58 text. The text stands for the 64 bytes
    /// again.
    pub fn to_text(&self) -> (text: String)
        ensures
            text@ == base58::encoding(self@),
            signature_of_text(text@) == Some(self@),
    {
        proof {
            base58::lemma_decoding_of_encoding(self@);
        }
        encode_base58(&self.bytes)
    }
}

/// Why a text is no address.
#[derive(Clone, Copy, Debug, PartialEq, Eq)]
pub enum InvalidAddress {
    /// The text is not base 58.
    BadEncoding,
    /// The text stands for a byte string that is not 32 bytes long.
    WrongLength,
}

/// Why a text is no signature.
#[derive(Clone, Copy, Debug, PartialEq, Eq)]
pub enum InvalidSignature {
    /// The text is not base 58.
    BadEncoding,
    /// The text stands for a byte string that is not 64 bytes long.
    WrongLength,
}

/// Why a text is no secret.
#[derive(Clone, Copy, Debug, PartialEq, Eq)]
pub enum InvalidSecret {
    /// The text is not base 58.
    BadEncoding,
    /// The text stands for a byte string that is not 64 bytes long.
    WrongLength,
    /// The 64 bytes are no key pair: the second half is not the public key
    /// of the seed in the first half.
    Rejected,
}

impl InvalidSecret {
    /// The reason in words.
    pub open spec fn message_spec(self) -> Seq<char> {
        match self {
            InvalidSecret::BadEncoding => "Invalid base58 encoding"@,
            InvalidSecret::WrongLength => "Invalid keypair: must be 64 bytes"@,
            InvalidSecret::Rejected => "Invalid keypair: must be 64 bytes"@,
        }
    }

    /// The reason in words. A wrong encoding and a wrong length read
    /// differently; bytes that are no key pair read as a wrong length does.
    pub fn message(&self) -> (text: String)
        ensures
            text@ == self.message_spec(),
    {
        match self {
            InvalidSecret::BadEncoding => "Invalid base58 encoding".to_owned(),
            InvalidSecret::WrongLength => "Invalid keypair: must be 64 bytes".to_owned(),
            InvalidSecret::Rejected => "Invalid keypair: must be 64 bytes".to_owned(),
        }
    }
}

/// The bytes of `text` as a byte string of exactly `len` bytes, if it stands
/// for one.
pub open spec fn sized_decoding(text: Seq<char>, len: nat) -> Option<Seq<u8>> {
    match base58::decoding(text) {
        Some(bytes) => if bytes.len() == len {
            Some(bytes)
        } else {
            None
        },
        None => None,
    }
}

/// The address that a text stands for, if it stands for one.
pub open spec fn address_of_text(text: Seq<char>) -> Option<Seq<u8>> {
    sized_decoding(text, 32)
}

/// The signature that a text stands for, if it stands for one.
pub open spec fn signature_of_text(text: Seq<char>) -> Option<Seq<u8>> {
    sized_decoding(text, 64)
}

/// The `N` bytes of a vector as an array.
fn to_array<const N: usize>(bytes: &Vec<u8>) -> (out: [u8; N])
    requires
        bytes@.len() == N,
    ensures
        out@ == bytes@,
{
    let mut out = [0u8; N];
    let mut i: usize = 0;
    while i < N
        invariant
            i <= N,
            bytes@.len() == N,
            forall|k: int| 0 <= k < i ==> out@[k] == bytes@[k],
        decreases N - i,
    {
        out[i] = bytes[i];
        i += 1;
    }
    assert(out@ =~= bytes@);
    out
}

/// Reads an address from base-58 text: the text must decode, and to exactly
/// 32 bytes.
pub fn parse_address(text: &str) -> (result: Result<PublicAddress, InvalidAddress>)
    ensures
        match result {
            Ok(address) => address_of_text(text@) == Some(address@),
            Err(InvalidAddress::BadEncoding) => base58::decoding(text@) is None,
            Err(InvalidAddress::WrongLength) => base58::decoding(text@) is Some
                && base58::decoding(text@).unwrap().len() != 32,
        },
{
    match decode_base58(text) {
        Err(_) => Err(InvalidAddress::BadEncoding),
        Ok(bytes) => {
            if bytes.len() != 32 {
                Err(InvalidAddress::WrongLength)
            } else {
                Ok(PublicAddress { bytes: to_array(&bytes) })
            }
        },
    }
}

/// Reads a signature from base-58 text: the text must decode, and to exactly
/// 64 bytes.
pub fn parse_signature(text: &str) -> (result: Result<Signature, InvalidSignature>)
    ensures
        match result {
            Ok(signature) => signature_of_text(text@) == Some(signature@),
            Err(InvalidSignature::BadEncoding) => base58::decoding(text@) is None,
            Err(InvalidSignature::WrongLength) => base58::decoding(text@) is Some
                && base58::decoding(text@).unwrap().len() != 64,
        },
{
    match decode_base58(text) {
        Err(_) => Err(InvalidSignature::BadEncoding),
        Ok(bytes) => {
            if bytes.len() != 64 {
                Err(InvalidSignature::WrongLength)
            } else {
                Ok(Signature { bytes: to_array(&bytes) })
            }
        },
    }
}

/// A signature written as text and read again is the same signature.
pub proof fn lemma_signature_round_trip(bytes: Seq<u8>)
    requires
        bytes.len() == 64,
    ensures
        signature_of_text(base58::encoding(bytes)) == Some(bytes),
{
    base58::lemma_decoding_of_encoding(bytes);
}

/// An address written as text and read again is the same address.
pub proof fn lemma_address_round_trip(bytes: Seq<u8>)
    requires
        bytes.len() == 32,
    ensures
        address_of_text(base58::encoding(bytes)) == Some(bytes),
{
    base58::lemma_decoding_of_encoding(bytes);
}

/// A text that stands for an address is the text of that address: no two
/// texts stand for the same one.
pub proof fn lemma_address_text_unique(text: Seq<char>)
    requires
        address_of_text(text) is Some,
    ensures
        base58::encoding(address_of_text(text).unwrap()) == text,
{
    base58::lemma_encoding_of_decoding(text);
}

/// Whether `Keypair::from_bytes` takes these bytes for a key pair.
pub uninterp spec fn keypair_accepted(bytes: Seq<u8>) -> bool;

/// The signature that the key pair `secret` gives to `message`: 64 bytes.
pub uninterp spec fn signature_of(secret: Seq<u8>, message: Seq<u8>) -> [u8; 64];

/// Whether `signature` is a valid signature of `message` under the public
/// key `address`.
pub uninterp spec fn signature_verifies(
    address: Seq<u8>,
    signature: Seq<u8>,
    message: Seq<u8>,
) -> bool;

/// Calls `Keypair::from_bytes` and says whether it succeeded. It fails, and
/// does not panic, on bytes that are no key pair.
#[verifier::external_body]
#[allow(deprecated)]
fn keypair_accepts(bytes: &[u8; 64]) -> (accepted: bool)
    ensures
        accepted == keypair_accepted(bytes@),
{
    Keypair::from_bytes(bytes).is_ok()
}

/// Calls `Signer::pubkey` on the key pair that `Keypair::from_bytes` makes
/// of `bytes`. A key pair keeps its public key as it was given: the last 32
/// of the 64 bytes.
#[verifier::external_body]
#[allow(deprecated)]
fn keypair_public(bytes: &[u8; 64]) -> (public: [u8; 32])
    requires
        keypair_accepted(bytes@),
    ensures
        public@ == bytes@.subrange(32, 64),
{
    Keypair::from_bytes(bytes).unwrap().pubkey().to_bytes()
}

/// Calls `Signer::sign_message` on the key pair that `Keypair::from_bytes`
/// makes of `bytes`. Ed25519 signing draws no randomness: the signature is a
/// function of the key pair and the message.
#[verifier::external_body]
#[allow(deprecated)]
fn keypair_sign(bytes: &[u8; 64], message: &[u8]) -> (signature: [u8; 64])
    requires
        keypair_accepted(bytes@),
    ensures
        signature == signature_of(bytes@, message@),
{
    Keypair::from_bytes(bytes).unwrap().sign_message(message).into()
}

/// Calls `Signature::verify`, which answers `false`, and does not fail, on
/// a public key or a signature that is malformed.
#[verifier::external_body]
fn signature_verify(address: &[u8; 32], signature: &[u8; 64], message: &[u8]) -> (valid: bool)
    ensures
        valid == signature_verifies(address@, signature@, message@),
{
    LedgerSignature::from(*signature).verify(address, message)
}

/// Calls `Keypair::new`, which draws a seed from the operating system and
/// derives its public key, and `Keypair::to_bytes`. Whatever was drawn, the
/// bytes are a key pair.
#[verifier::external_body]
fn keypair_new() -> (bytes: [u8; 64])
    ensures
        keypair_accepted(bytes@),
{
    Keypair::new().to_bytes()
}

/// A key pair: 64 bytes, a 32-byte seed followed by its 32-byte public key.
/// Only bytes that are a key pair can be held.
#[derive(Debug)]
pub struct SecretMaterial {
    bytes: [u8; 64],
}

impl View for SecretMaterial {
    type V = Seq<u8>;

    closed spec fn view(&self) -> Seq<u8> {
        self.bytes@
    }
}

impl SecretMaterial {
    #[verifier::type_invariant]
    spec fn is_keypair(&self) -> bool {
        keypair_accepted(self.bytes@)
    }

    /// Takes 64 bytes for a secret if they are a key pair.
    pub fn from_bytes(bytes: [u8; 64]) -> (result: Option<SecretMaterial>)
        ensures
            match result {
                Some(secret) => secret@ == bytes@ && secret@.len() == 64 && keypair_accepted(
                    bytes@,
                ),
                None => !keypair_accepted(bytes@),
            },
    {
        if keypair_accepts(&bytes) {
            Some(SecretMaterial { bytes })
        } else {
            None
        }
    }

    /// A new key pair, its seed drawn at random.
    pub fn generate() -> (secret: SecretMaterial)
        ensures
            secret@.len() == 64,
            keypair_accepted(secret@),
    {
        let bytes = keypair_new();
        SecretMaterial { bytes }
    }

    /// The 64 bytes; they are a key pair.
    pub fn to_bytes(&self) -> (bytes: [u8; 64])
        ensures
            bytes@ == self@,
            keypair_accepted(self@),
    {
        proof {
            use_type_invariant(self);
        }
        self.bytes
    }

    /// The public address of the key pair: its last 32 bytes.
    pub fn public_address(&self) -> (address: PublicAddress)
        ensures
            address@ == self@.subrange(32, 64),
    {
        proof {
            use_type_invariant(self);
        }
        PublicAddress { bytes: keypair_public(&self.bytes) }
    }
}

/// Reads a key pair from base-58 text: the text must decode, to exactly 64
/// bytes, and the bytes must be a key pair.
pub fn keypair_from_secret(text: &str) -> (result: Result<SecretMaterial, InvalidSecret>)
    ensures
        match result {
            Ok(secret) => base58::decoding(text@) == Some(secret@) && secret@.len() == 64
                && keypair_accepted(secret@),
            Err(InvalidSecret::BadEncoding) => base58::decoding(text@) is None,
            Err(InvalidSecret::WrongLength) => base58::decoding(text@) is Some
                && base58::decoding(text@).unwrap().len() != 64,
            Err(InvalidSecret::Rejected) => base58::decoding(text@) is Some
                && base58::decoding(text@).unwrap().len() == 64 && !keypair_accepted(
                base58::decoding(text@).unwrap(),
            ),
        },
{
    match decode_base58(text) {
        Err(_) => Err(InvalidSecret::BadEncoding),
        Ok(bytes) => {
            if bytes.len() != 64 {
                Err(InvalidSecret::WrongLength)
            } else {
                match SecretMaterial::from_bytes(to_array(&bytes)) {
                    Some(secret) => Ok(secret),
                    None => Err(InvalidSecret::Rejected),
                }
            }
        },
    }
}

/// Signs exactly the bytes given: nothing is added, trimmed or re-encoded.
pub fn sign(secret: &SecretMaterial, message: &[u8]) -> (signature: Signature)
    ensures
        signature@ == signature_of(secret@, message@)@,
{
    proof {
        use_type_invariant(secret);
    }
    Signature { bytes: keypair_sign(&secret.bytes, message) }
}

/// Whether `signature` is a valid signature of exactly the bytes given under
/// `address`. A signature that does not verify is an answer, not an error.
pub fn verify(address: &PublicAddress, signature: &Signature, message: &[u8]) -> (valid: bool)
    ensures
        valid == signature_verifies(address@, signature@, message@),
{
    signature_verify(&address.bytes, &signature.bytes, message)
}

} // verus!
