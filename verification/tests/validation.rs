use solkit::keys::{parse_address, parse_signature};
use solkit::routes::{
    MessageVerifyRequest, SendSolRequest, SendTokenRequest, TokenCreateRequest, TokenMintRequest,
};
use solkit::validation::{
    validate_message_verify, validate_send_sol, validate_send_token, validate_token_create,
    validate_token_mint, MessageVerifyParams, SendSolParams, SendTokenParams, TokenCreateParams,
    TokenMintParams, ValidationError,
};

const A: &str = "FVen3X669xLzsi6N2V91DoiyzHzg1uAgqiT8jZ9nS96Z";
const B: &str = "586Z7H2vpX9qNhN2T4e9Utugie3ogjbxzGaMtM3E6HR5";
const C: &str = "Hyx62wPQGyvXCoihZq1BrbUjBRh2LuNxWiiqMkfAuSZr";
const SIGNATURE: &str =
    "3w2b4gJH2VXfrwycUgMiE3TZJTztazKppFVojCQ9NDMDHq8PVTHxQdQovxMFxqeqeQf1xaADvhkj2nMuB1kzouA7";

#[test]
fn every_failure_has_its_message() {
    let all = [
        (ValidationError::MissingCreateFields, "Missing required fields: mint and mint_authority"),
        (
            ValidationError::MissingMintFields,
            "Missing required fields: mint, destination, and authority",
        ),
        (
            ValidationError::MissingTransferFields,
            "Missing required fields: destination, owner, and mint",
        ),
        (ValidationError::InvalidMint, "Invalid mint address"),
        (ValidationError::InvalidMintAuthority, "Invalid mint authority address"),
        (ValidationError::InvalidAuthority, "Invalid authority address"),
        (ValidationError::InvalidDestination, "Invalid destination address"),
        (ValidationError::InvalidDestinationKey, "Invalid destination public key"),
        (ValidationError::InvalidOwnerKey, "Invalid owner public key"),
        (ValidationError::InvalidMintKey, "Invalid mint public key"),
        (ValidationError::ZeroAmount, "Amount must be greater than 0"),
        (ValidationError::InvalidSender, "Invalid sender public key"),
        (ValidationError::InvalidRecipient, "Invalid recipient public key"),
        (ValidationError::InvalidSignatureOrKey, "Invalid signature or pubkey"),
    ];
    for (failure, text) in all {
        assert_eq!(failure.message(), text);
    }
}

#[test]
fn token_create_is_checked_in_order() {
    let ask = |mint: &str, authority: &str, decimals: u8| {
        validate_token_create(&TokenCreateRequest {
            mint_authority: authority.to_string(),
            mint: mint.to_string(),
            decimals,
        })
    };
    assert_eq!(
        ask(A, B, 9),
        Ok(TokenCreateParams {
            mint: parse_address(A).unwrap(),
            mint_authority: parse_address(B).unwrap(),
            decimals: 9,
        })
    );
    assert_eq!(ask(A, A, 255).unwrap().decimals, 255);
    assert_eq!(ask("", B, 9), Err(ValidationError::MissingCreateFields));
    assert_eq!(ask(A, "", 9), Err(ValidationError::MissingCreateFields));
    assert_eq!(ask("", "?", 9), Err(ValidationError::MissingCreateFields));
    assert_eq!(ask("?", "?", 9), Err(ValidationError::InvalidMint));
    assert_eq!(ask(" ", B, 9), Err(ValidationError::InvalidMint));
    assert_eq!(ask(A, "?", 9), Err(ValidationError::InvalidMintAuthority));
}

#[test]
fn token_mint_is_checked_in_order() {
    let ask = |mint: &str, destination: &str, authority: &str, amount: u64| {
        validate_token_mint(&TokenMintRequest {
            mint: mint.to_string(),
            destination: destination.to_string(),
            authority: authority.to_string(),
            amount,
        })
    };
    assert_eq!(
        ask(A, B, C, 0),
        Ok(TokenMintParams {
            mint: parse_address(A).unwrap(),
            destination: parse_address(B).unwrap(),
            authority: parse_address(C).unwrap(),
            amount: 0,
        })
    );
    assert_eq!(ask(A, B, C, u64::MAX).unwrap().amount, u64::MAX);
    assert_eq!(ask("", "?", "?", 1), Err(ValidationError::MissingMintFields));
    assert_eq!(ask("?", "", "?", 1), Err(ValidationError::MissingMintFields));
    assert_eq!(ask("?", "?", "", 1), Err(ValidationError::MissingMintFields));
    assert_eq!(ask("?", "?", "?", 1), Err(ValidationError::InvalidMint));
    assert_eq!(ask(A, "?", "?", 1), Err(ValidationError::InvalidAuthority));
    assert_eq!(ask(A, "?", C, 1), Err(ValidationError::InvalidDestination));
}

#[test]
fn send_token_is_checked_in_order() {
    let ask = |destination: &str, mint: &str, owner: &str, amount: u64| {
        validate_send_token(&SendTokenRequest {
            destination: destination.to_string(),
            mint: mint.to_string(),
            owner: owner.to_string(),
            amount,
        })
    };
    assert_eq!(
        ask(A, B, C, 0),
        Ok(SendTokenParams {
            destination: parse_address(A).unwrap(),
            mint: parse_address(B).unwrap(),
            owner: parse_address(C).unwrap(),
            amount: 0,
        })
    );
    assert_eq!(ask("", "?", "?", 1), Err(ValidationError::MissingTransferFields));
    assert_eq!(ask("?", "", "?", 1), Err(ValidationError::MissingTransferFields));
    assert_eq!(ask("?", "?", "", 1), Err(ValidationError::MissingTransferFields));
    assert_eq!(ask("?", "?", "?", 1), Err(ValidationError::InvalidDestinationKey));
    assert_eq!(ask(A, "?", "?", 1), Err(ValidationError::InvalidOwnerKey));
    assert_eq!(ask(A, "?", C, 1), Err(ValidationError::InvalidMintKey));
}

#[test]
fn send_sol_is_checked_amount_first() {
    let ask = |from: &str, to: &str, lamports: u64| {
        validate_send_sol(&SendSolRequest {
            from: from.to_string(),
            to: to.to_string(),
            lamports,
        })
    };
    assert_eq!(
        ask(A, B, 1),
        Ok(SendSolParams {
            from: parse_address(A).unwrap(),
            to: parse_address(B).unwrap(),
            lamports: 1,
        })
    );
    assert_eq!(ask(A, A, u64::MAX).unwrap().lamports, u64::MAX);
    assert_eq!(ask(A, B, 0), Err(ValidationError::ZeroAmount));
    assert_eq!(ask("?", "?", 0), Err(ValidationError::ZeroAmount));
    assert_eq!(ask("", "", 0), Err(ValidationError::ZeroAmount));
    assert_eq!(ask("?", "?", 1), Err(ValidationError::InvalidSender));
    assert_eq!(ask("", B, 1), Err(ValidationError::InvalidSender));
    assert_eq!(ask(A, "?", 1), Err(ValidationError::InvalidRecipient));
    assert_eq!(ask(A, "", 1), Err(ValidationError::InvalidRecipient));
}

#[test]
fn message_verify_needs_a_key_and_a_signature() {
    let ask = |signature: &str, pubkey: &str| {
        validate_message_verify(&MessageVerifyRequest {
            message: "anything".to_string(),
            signature: signature.to_string(),
            pubkey: pubkey.to_string(),
        })
    };
    assert_eq!(
        ask(SIGNATURE, A),
        Ok(MessageVerifyParams {
            address: parse_address(A).unwrap(),
            signature: parse_signature(SIGNATURE).unwrap(),
        })
    );
    assert_eq!(ask(SIGNATURE, "?"), Err(ValidationError::InvalidSignatureOrKey));
    assert_eq!(ask("?", A), Err(ValidationError::InvalidSignatureOrKey));
    assert_eq!(ask(A, A), Err(ValidationError::InvalidSignatureOrKey));
    assert_eq!(ask(SIGNATURE, SIGNATURE), Err(ValidationError::InvalidSignatureOrKey));
    assert_eq!(ask("", ""), Err(ValidationError::InvalidSignatureOrKey));
}
