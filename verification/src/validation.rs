//! Validation of requests: from the text fields of a request to typed
//! parameters, or the first thing that is wrong with it.
//!
//! Fields are looked at in a fixed order for each operation and the first
//! failure decides; failures are not collected.

use vstd::prelude::*;
use crate::keys::{
    address_of_text, parse_address, parse_signature, signature_of_text, PublicAddress, Signature,
};
use crate::routes::{
    MessageVerifyRequest, MessageVerifyRequestView, SendSolRequest, SendSolRequestView,
    SendTokenRequest, SendTokenRequestView, TokenCreateRequest, TokenCreateRequestView,
    TokenMintRequest, TokenMintRequestView,
};

verus! {

/// What is wrong with a request.
#[derive(Clone, Copy, Debug, PartialEq, Eq)]
pub enum ValidationError {
    /// A request to initialize a mint leaves the mint or its authority empty.
    MissingCreateFields,
    /// A request to mint leaves the mint, the destination or the authority
    /// empty.
    MissingMintFields,
    /// A request to transfer tokens leaves the destination, the owner or the
    /// mint empty.
    MissingTransferFields,
    /// The mint of a request to initialize a mint, or to mint, is no address.
    InvalidMint,
    /// The mint authority of a request to initialize a mint is no address.
    InvalidMintAuthority,
    /// The authority of a request to mint is no address.
    InvalidAuthority,
    /// The destination of a request to mint is no address.
    InvalidDestination,
    /// The destination of a request to transfer tokens is no address.
    InvalidDestinationKey,
    /// The owner of a request to transfer tokens is no address.
    InvalidOwnerKey,
    /// The mint of a request to transfer tokens is no address.
    InvalidMintKey,
    /// A transfer of native currency names an amount of zero.
    ZeroAmount,
    /// The sender of a transfer of native currency is no address.
    InvalidSender,
    /// The recipient of a transfer of native currency is no address.
    InvalidRecipient,
    /// The public key or the signature of a request to verify cannot be
    /// read.
    InvalidSignatureOrKey,
}

impl ValidationError {
    /// The failure in words.
    pub open spec fn message_spec(self) -> Seq<char> {
        match self {
            ValidationError::MissingCreateFields => {
                "Missing required fields: mint and mint_authority"@
            },
            ValidationError::MissingMintFields => {
                "Missing required fields: mint, destination, and authority"@
            },
            ValidationError::MissingTransferFields => {
                "Missing required fields: destination, owner, and mint"@
            },
            ValidationError::InvalidMint => "Invalid mint address"@,
            ValidationError::InvalidMintAuthority => "Invalid mint authority address"@,
            ValidationError::InvalidAuthority => "Invalid authority address"@,
            ValidationError::InvalidDestination => "Invalid destination address"@,
            ValidationError::InvalidDestinationKey => "Invalid destination public key"@,
            ValidationError::InvalidOwnerKey => "Invalid owner public key"@,
            ValidationError::InvalidMintKey => "Invalid mint public key"@,
            ValidationError::ZeroAmount => "Amount must be greater than 0"@,
            ValidationError::InvalidSender => "Invalid sender public key"@,
            ValidationError::InvalidRecipient => "Invalid recipient public key"@,
            ValidationError::InvalidSignatureOrKey => "Invalid signature or pubkey"@,
        }
    }

    /// The failure in words.
    pub fn message(&self) -> (text: String)
        ensures
            text@ == self.message_spec(),
    {
        match self {
            ValidationError::MissingCreateFields => {
                "Missing required fields: mint and mint_authority".to_owned()
            },
            ValidationError::MissingMintFields => {
                "Missing required fields: mint, destination, and authority".to_owned()
            },
            ValidationError::MissingTransferFields => {
                "Missing required fields: destination, owner, and mint".to_owned()
            },
            ValidationError::InvalidMint => "Invalid mint address".to_owned(),
            ValidationError::InvalidMintAuthority => "Invalid mint authority address".to_owned(),
            ValidationError::InvalidAuthority => "Invalid authority address".to_owned(),
            ValidationError::InvalidDestination => "Invalid destination address".to_owned(),
            ValidationError::InvalidDestinationKey => "Invalid destination public key".to_owned(),
            ValidationError::InvalidOwnerKey => "Invalid owner public key".to_owned(),
            ValidationError::InvalidMintKey => "Invalid mint public key".to_owned(),
            ValidationError::ZeroAmount => "Amount must be greater than 0".to_owned(),
            ValidationError::InvalidSender => "Invalid sender public key".to_owned(),
            ValidationError::InvalidRecipient => "Invalid recipient public key".to_owned(),
            ValidationError::InvalidSignatureOrKey => "Invalid signature or pubkey".to_owned(),
        }
    }
}

/// What a valid request to initialize a mint asks for.
#[derive(Clone, Copy, Debug, PartialEq, Eq)]
pub struct TokenCreateParams {
    pub mint: PublicAddress,
    pub mint_authority: PublicAddress,
    pub decimals: u8,
}

/// What a valid request to mint asks for.
#[derive(Clone, Copy, Debug, PartialEq, Eq)]
pub struct TokenMintParams {
    pub mint: PublicAddress,
    pub destination: PublicAddress,
    pub authority: PublicAddress,
    pub amount: u64,
}

/// What a valid request to transfer tokens asks for.
#[derive(Clone, Copy, Debug, PartialEq, Eq)]
pub struct SendTokenParams {
    pub destination: PublicAddress,
    pub mint: PublicAddress,
    pub owner: PublicAddress,
    pub amount: u64,
}

/// What a valid request to transfer native currency asks for: an amount
/// above zero between two addresses.
#[derive(Clone, Copy, Debug, PartialEq, Eq)]
pub struct SendSolParams {
    pub from: PublicAddress,
    pub to: PublicAddress,
    pub lamports: u64,
}

/// The first thing that is wrong with a request to initialize a mint.
pub open spec fn token_create_failure(req: TokenCreateRequestView) -> Option<ValidationError> {
    if req.mint.len() == 0 || req.mint_authority.len() == 0 {
        Some(ValidationError::MissingCreateFields)
    } else if address_of_text(req.mint) is None {
        Some(ValidationError::InvalidMint)
    } else if address_of_text(req.mint_authority) is None {
        Some(ValidationError::InvalidMintAuthority)
    } else {
        None
    }
}

/// Checks a request to initialize a mint: both addresses given, then the
/// mint valid, then the authority. Every number of decimals is taken.
pub fn validate_token_create(req: &TokenCreateRequest) -> (result: Result<
    TokenCreateParams,
    ValidationError,
>)
    ensures
        match result {
            Ok(params) => token_create_failure(req@) is None && address_of_text(req.mint@) == Some(
                params.mint@,
            ) && address_of_text(req.mint_authority@) == Some(params.mint_authority@)
                && params.decimals == req.decimals,
            Err(e) => token_create_failure(req@) == Some(e),
        },
{
    if req.mint.as_str().is_empty() || req.mint_authority.as_str().is_empty() {
        return Err(ValidationError::MissingCreateFields);
    }
    let mint = match parse_address(req.mint.as_str()) {
        Ok(address) => address,
        Err(_) => {
            return Err(ValidationError::InvalidMint);
        },
    };
    let mint_authority = match parse_address(req.mint_authority.as_str()) {
        Ok(address) => address,
        Err(_) => {
            return Err(ValidationError::InvalidMintAuthority);
        },
    };
    Ok(TokenCreateParams { mint, mint_authority, decimals: req.decimals })
}

/// The first thing that is wrong with a request to mint.
pub open spec fn token_mint_failure(req: TokenMintRequestView) -> Option<ValidationError> {
    if req.mint.len() == 0 || req.destination.len() == 0 || req.authority.len() == 0 {
        Some(ValidationError::MissingMintFields)
    } else if address_of_text(req.mint) is None {
        Some(ValidationError::InvalidMint)
    } else if address_of_text(req.authority) is None {
        Some(ValidationError::InvalidAuthority)
    } else if address_of_text(req.destination) is None {
        Some(ValidationError::InvalidDestination)
    } else {
        None
    }
}

/// Checks a request to mint: the three addresses given, then the mint
/// valid, then the authority, then the destination. Every amount is taken,
/// zero included.
pub fn validate_token_mint(req: &TokenMintRequest) -> (result: Result<
    TokenMintParams,
    ValidationError,
>)
    ensures
        match result {
            Ok(params) => token_mint_failure(req@) is None && address_of_text(req.mint@) == Some(
                params.mint@,
            ) && address_of_text(req.destination@) == Some(params.destination@)
                && address_of_text(req.authority@) == Some(params.authority@) && params.amount
                == req.amount,
            Err(e) => token_mint_failure(req@) == Some(e),
        },
{
    if req.mint.as_str().is_empty() || req.destination.as_str().is_empty()
        || req.authority.as_str().is_empty() {
        return Err(ValidationError::MissingMintFields);
    }
    let mint = match parse_address(req.mint.as_str()) {
        Ok(address) => address,
        Err(_) => {
            return Err(ValidationError::InvalidMint);
        },
    };
    let authority = match parse_address(req.authority.as_str()) {
        Ok(address) => address,
        Err(_) => {
            return Err(ValidationError::InvalidAuthority);
        },
    };
    let destination = match parse_address(req.destination.as_str()) {
        Ok(address) => address,
        Err(_) => {
            return Err(ValidationError::InvalidDestination);
        },
    };
    Ok(TokenMintParams { mint, destination, authority, amount: req.amount })
}

/// The first thing that is wrong with a request to transfer tokens.
pub open spec fn send_token_failure(req: SendTokenRequestView) -> Option<ValidationError> {
    if req.destination.len() == 0 || req.owner.len() == 0 || req.mint.len() == 0 {
        Some(ValidationError::MissingTransferFields)
    } else if address_of_text(req.destination) is None {
        Some(ValidationError::InvalidDestinationKey)
    } else if address_of_text(req.owner) is None {
        Some(ValidationError::InvalidOwnerKey)
    } else if address_of_text(req.mint) is None {
        Some(ValidationError::InvalidMintKey)
    } else {
        None
    }
}

/// Checks a request to transfer tokens: the three addresses given, then the
/// destination valid, then the owner, then the mint. Every amount is taken,
/// zero included.
pub fn validate_send_token(req: &SendTokenRequest) -> (result: Result<
    SendTokenParams,
    ValidationError,
>)
    ensures
        match result {
            Ok(params) => send_token_failure(req@) is None && address_of_text(req.destination@)
                == Some(params.destination@) && address_of_text(req.mint@) == Some(params.mint@)
                && address_of_text(req.owner@) == Some(params.owner@) && params.amount
                == req.amount,
            Err(e) => send_token_failure(req@) == Some(e),
        },
{
    if req.destination.as_str().is_empty() || req.owner.as_str().is_empty()
        || req.mint.as_str().is_empty() {
        return Err(ValidationError::MissingTransferFields);
    }
    let destination = match parse_address(req.destination.as_str()) {
        Ok(address) => address,
        Err(_) => {
            return Err(ValidationError::InvalidDestinationKey);
        },
    };
    let owner = match parse_address(req.owner.as_str()) {
        Ok(address) => address,
        Err(_) => {
            return Err(ValidationError::InvalidOwnerKey);
        },
    };
    let mint = match parse_address(req.mint.as_str()) {
        Ok(address) => address,
        Err(_) => {
            return Err(ValidationError::InvalidMintKey);
        },
    };
    Ok(SendTokenParams { destination, mint, owner, amount: req.amount })
}

/// The first thing that is wrong with a request to transfer native
/// currency.
pub open spec fn send_sol_failure(req: SendSolRequestView) -> Option<ValidationError> {
    if req.lamports == 0 {
        Some(ValidationError::ZeroAmount)
    } else if address_of_text(req.from) is None {
        Some(ValidationError::InvalidSender)
    } else if address_of_text(req.to) is None {
        Some(ValidationError::InvalidRecipient)
    } else {
        None
    }
}

/// Checks a request to transfer native currency: the amount above zero,
/// whatever the addresses are; then the sender valid, then the recipient.
pub fn validate_send_sol(req: &SendSolRequest) -> (result: Result<SendSolParams, ValidationError>)
    ensures
        match result {
            Ok(params) => send_sol_failure(req@) is None && address_of_text(req.from@) == Some(
                params.from@,
            ) && address_of_text(req.to@) == Some(params.to@) && params.lamports == req.lamports
                && params.lamports != 0,
            Err(e) => send_sol_failure(req@) == Some(e),
        },
        req.lamports == 0 ==> result == Err::<SendSolParams, ValidationError>(
            ValidationError::ZeroAmount,
        ),
{
    if req.lamports == 0 {
        return Err(ValidationError::ZeroAmount);
    }
    let from = match parse_address(req.from.as_str()) {
        Ok(address) => address,
        Err(_) => {
            return Err(ValidationError::InvalidSender);
        },
    };
    let to = match parse_address(req.to.as_str()) {
        Ok(address) => address,
        Err(_) => {
            return Err(ValidationError::InvalidRecipient);
        },
    };
    Ok(SendSolParams { from, to, lamports: req.lamports })
}

/// What a readable request to verify asks about. The message is taken as it
/// is.
#[derive(Clone, Copy, Debug, PartialEq, Eq)]
pub struct MessageVerifyParams {
    pub address: PublicAddress,
    pub signature: Signature,
}

/// What is wrong with a request to verify, if anything.
pub open spec fn message_verify_failure(req: MessageVerifyRequestView) -> Option<
    ValidationError,
> {
    if address_of_text(req.pubkey) is Some && signature_of_text(req.signature) is Some {
        None
    } else {
        Some(ValidationError::InvalidSignatureOrKey)
    }
}

/// Checks a request to verify: the public key must be an address and the
/// signature 64 bytes, both in base 58. One failure stands for both.
pub fn validate_message_verify(req: &MessageVerifyRequest) -> (result: Result<
    MessageVerifyParams,
    ValidationError,
>)
    ensures
        match result {
            Ok(params) => message_verify_failure(req@) is None && address_of_text(req.pubkey@)
                == Some(params.address@) && signature_of_text(req.signature@) == Some(
                params.signature@,
            ),
            Err(e) => message_verify_failure(req@) == Some(e),
        },
{
    let address = parse_address(req.pubkey.as_str());
    let signature = parse_signature(req.signature.as_str());
    match (address, signature) {
        (Ok(address), Ok(signature)) => Ok(MessageVerifyParams { address, signature }),
        _ => Err(ValidationError::InvalidSignatureOrKey),
    }
}

} // verus!
