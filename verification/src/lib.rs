//! Helpers for a ledger service: text codecs, key material, and the
//! construction of unsigned instructions, each with a proved contract.

pub mod radix;
pub mod base58;
pub mod base64;
pub mod codec;
pub mod keys;
pub mod programs;
pub mod instruction;
pub mod validation;
pub mod routes;
pub mod json_extractor;
pub mod config;
