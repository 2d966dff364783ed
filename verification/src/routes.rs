//! The operations of the service, each from a decoded request to the reply
//! that is sent back.
//!
//! Every reply is an [`ApiResponse`]: the payload of the operation, or one
//! message that says why there is none. Requests are checked field by field
//! and the first failure decides the message.

use vstd::prelude::*;
use vstd::string::StringExecFns;
use vstd::utf8::encode_utf8;
use crate::base58;
use crate::base64;
use crate::codec::{encode_base58, encode_base64};
use crate::instruction::{
    associated_address, associated_token_address, build_initialize_mint, build_mint_to,
    build_sol_transfer, build_token_transfer, initialize_mint_instruction, mint_to_instruction,
    sol_transfer, sol_transfer_payload, token_transfer_instruction, AccountView, BuildError,
    Instruction, InstructionView,
};
use crate::keys::{
    address_of_text, keypair_accepted, keypair_from_secret, lemma_address_round_trip,
    lemma_address_text_unique, lemma_signature_round_trip, parse_address, sign, signature_of,
    signature_of_text, signature_verifies, verify, PublicAddress, SecretMaterial, Signature,
};
use crate::programs::{
    lemma_rent_sysvar, lemma_system_program, lemma_token_program, rent_sysvar_text,
    system_program_text, token_program_text,
};
use crate::validation::{
    message_verify_failure, send_sol_failure, send_token_failure, token_create_failure,
    token_mint_failure, validate_message_verify, validate_send_sol, validate_send_token,
    validate_token_create, validate_token_mint, ValidationError,
};

verus! {

/// The status that goes with a payload.
pub const STATUS_OK: u16 = 200;

/// The status that goes with a refusal.
pub const STATUS_BAD_REQUEST: u16 = 400;

/// A reply: the payload of an operation, or the reason why there is none.
/// `success` is `true` beside a payload and `false` beside a reason: every
/// reply that the library makes is [`well_formed`](ApiResponse::well_formed),
/// and [`into_response`](ApiResponse::into_response) sends no other.
#[derive(Debug, Clone, PartialEq, Eq)]
pub enum ApiResponse<T> {
    Success { success: bool, data: T },
    Error { success: bool, error: String },
}

impl<T: View> View for ApiResponse<T> {
    type V = Result<T::V, Seq<char>>;

    open spec fn view(&self) -> Result<T::V, Seq<char>> {
        match self {
            ApiResponse::Success { data, .. } => Ok(data@),
            ApiResponse::Error { error, .. } => Err(error@),
        }
    }
}

impl<T> ApiResponse<T> {
    /// The flag agrees with the variant.
    pub open spec fn well_formed(&self) -> bool {
        match self {
            ApiResponse::Success { success, .. } => *success,
            ApiResponse::Error { success, .. } => !*success,
        }
    }

    /// The reply that carries `data`.
    pub fn ok(data: T) -> (reply: Self)
        ensures
            reply == (ApiResponse::Success { success: true, data }),
            reply.well_formed(),
    {
        ApiResponse::Success { success: true, data }
    }

    /// The reply that refuses with `error`.
    pub fn fail(error: String) -> (reply: Self)
        ensures
            reply == (ApiResponse::<T>::Error { success: false, error }),
            reply.well_formed(),
    {
        ApiResponse::Error { success: false, error }
    }

    /// The reply as it is sent, with its status: 200 beside a payload, 400
    /// beside a reason, whatever the operation. The flag is set by the
    /// variant, whatever it was before: what is sent is always well formed,
    /// and carries the payload or the reason unchanged.
    pub fn into_response(self) -> (reply: (u16, Self))
        ensures
            reply.1.well_formed(),
            match self {
                ApiResponse::Success { data, .. } => reply.0 == STATUS_OK && reply.1 == (
                ApiResponse::Success { success: true, data }),
                ApiResponse::Error { error, .. } => reply.0 == STATUS_BAD_REQUEST && reply.1 == (
                ApiResponse::<T>::Error { success: false, error }),
            },
    {
        match self {
            ApiResponse::Success { data, .. } => (
                STATUS_OK,
                ApiResponse::Success { success: true, data },
            ),
            ApiResponse::Error { error, .. } => (
                STATUS_BAD_REQUEST,
                ApiResponse::Error { success: false, error },
            ),
        }
    }
}

/// A named message, echoed as it came.
#[derive(Debug, Clone, PartialEq, Eq)]
pub struct Message {
    pub name: String,
    pub message: String,
}

pub struct MessageView {
    pub name: Seq<char>,
    pub message: Seq<char>,
}

impl View for Message {
    type V = MessageView;

    open spec fn view(&self) -> MessageView {
        MessageView { name: self.name@, message: self.message@ }
    }
}

/// The answer to a [`Message`].
#[derive(Debug, Clone, PartialEq, Eq)]
pub struct Response {
    pub status: String,
    pub echoed: Message,
}

pub struct ResponseView {
    pub status: Seq<char>,
    pub echoed: MessageView,
}

impl View for Response {
    type V = ResponseView;

    open spec fn view(&self) -> ResponseView {
        ResponseView { status: self.status@, echoed: self.echoed@ }
    }
}

/// The balance of an account in lamports, the smallest unit.
#[derive(Debug, Clone, PartialEq, Eq)]
pub struct BalanceResponse {
    pub address: String,
    pub lamports: u64,
}

pub struct BalanceResponseView {
    pub address: Seq<char>,
    pub lamports: u64,
}

impl View for BalanceResponse {
    type V = BalanceResponseView;

    open spec fn view(&self) -> BalanceResponseView {
        BalanceResponseView { address: self.address@, lamports: self.lamports }
    }
}

/// A request to initialize a mint.
#[derive(Debug, Clone, PartialEq, Eq)]
pub struct TokenCreateRequest {
    pub mint_authority: String,
    pub mint: String,
    pub decimals: u8,
}

pub struct TokenCreateRequestView {
    pub mint_authority: Seq<char>,
    pub mint: Seq<char>,
    pub decimals: u8,
}

impl View for TokenCreateRequest {
    type V = TokenCreateRequestView;

    open spec fn view(&self) -> TokenCreateRequestView {
        TokenCreateRequestView {
            mint_authority: self.mint_authority@,
            mint: self.mint@,
            decimals: self.decimals,
        }
    }
}

/// A request to mint tokens to a wallet.
#[derive(Debug, Clone, PartialEq, Eq)]
pub struct TokenMintRequest {
    pub mint: String,
    pub destination: String,
    pub authority: String,
    pub amount: u64,
}

pub struct TokenMintRequestView {
    pub mint: Seq<char>,
    pub destination: Seq<char>,
    pub authority: Seq<char>,
    pub amount: u64,
}

impl View for TokenMintRequest {
    type V = TokenMintRequestView;

    open spec fn view(&self) -> TokenMintRequestView {
        TokenMintRequestView {
            mint: self.mint@,
            destination: self.destination@,
            authority: self.authority@,
            amount: self.amount,
        }
    }
}

/// A request to sign a message.
#[derive(Debug, Clone, PartialEq, Eq)]
pub struct MessageSignRequest {
    pub message: String,
    pub secret: String,
}

pub struct MessageSignRequestView {
    pub message: Seq<char>,
    pub secret: Seq<char>,
}

impl View for MessageSignRequest {
    type V = MessageSignRequestView;

    open spec fn view(&self) -> MessageSignRequestView {
        MessageSignRequestView { message: self.message@, secret: self.secret@ }
    }
}

/// A request to verify the signature of a message.
#[derive(Debug, Clone, PartialEq, Eq)]
pub struct MessageVerifyRequest {
    pub message: String,
    pub signature: String,
    pub pubkey: String,
}

pub struct MessageVerifyRequestView {
    pub message: Seq<char>,
    pub signature: Seq<char>,
    pub pubkey: Seq<char>,
}

impl View for MessageVerifyRequest {
    type V = MessageVerifyRequestView;

    open spec fn view(&self) -> MessageVerifyRequestView {
        MessageVerifyRequestView {
            message: self.message@,
            signature: self.signature@,
            pubkey: self.pubkey@,
        }
    }
}

/// Whether a signature verified.
#[derive(Debug, Clone, PartialEq, Eq)]
pub struct VerifyMessageResponse {
    pub valid: bool,
    pub message: String,
    pub pubkey: String,
}

pub struct VerifyMessageResponseView {
    pub valid: bool,
    pub message: Seq<char>,
    pub pubkey: Seq<char>,
}

impl View for VerifyMessageResponse {
    type V = VerifyMessageResponseView;

    open spec fn view(&self) -> VerifyMessageResponseView {
        VerifyMessageResponseView {
            valid: self.valid,
            message: self.message@,
            pubkey: self.pubkey@,
        }
    }
}

/// A request to transfer native currency.
#[derive(Debug, Clone, PartialEq, Eq)]
pub struct SendSolRequest {
    pub from: String,
    pub to: String,
    pub lamports: u64,
}

pub struct SendSolRequestView {
    pub from: Seq<char>,
    pub to: Seq<char>,
    pub lamports: u64,
}

impl View for SendSolRequest {
    type V = SendSolRequestView;

    open spec fn view(&self) -> SendSolRequestView {
        SendSolRequestView { from: self.from@, to: self.to@, lamports: self.lamports }
    }
}

/// A request to transfer tokens between two wallets.
#[derive(Debug, Clone, PartialEq, Eq)]
pub struct SendTokenRequest {
    pub destination: String,
    pub mint: String,
    pub owner: String,
    pub amount: u64,
}

pub struct SendTokenRequestView {
    pub destination: Seq<char>,
    pub mint: Seq<char>,
    pub owner: Seq<char>,
    pub amount: u64,
}

impl View for SendTokenRequest {
    type V = SendTokenRequestView;

    open spec fn view(&self) -> SendTokenRequestView {
        SendTokenRequestView {
            destination: self.destination@,
            mint: self.mint@,
            owner: self.owner@,
            amount: self.amount,
        }
    }
}

/// A new key pair, both halves as base-58 text.
#[derive(Debug, Clone, PartialEq, Eq)]
pub struct KeypairResponse {
    pub pubkey: String,
    pub secret: String,
}

pub struct KeypairResponseView {
    pub pubkey: Seq<char>,
    pub secret: Seq<char>,
}

impl View for KeypairResponse {
    type V = KeypairResponseView;

    open spec fn view(&self) -> KeypairResponseView {
        KeypairResponseView { pubkey: self.pubkey@, secret: self.secret@ }
    }
}

/// One account of an instruction, its address as base-58 text.
#[derive(Debug, Clone, PartialEq, Eq)]
pub struct AccountMetaResponse {
    pub pubkey: String,
    pub is_signer: bool,
    pub is_writable: bool,
}

pub struct AccountMetaResponseView {
    pub pubkey: Seq<char>,
    pub is_signer: bool,
    pub is_writable: bool,
}

impl View for AccountMetaResponse {
    type V = AccountMetaResponseView;

    open spec fn view(&self) -> AccountMetaResponseView {
        AccountMetaResponseView {
            pubkey: self.pubkey@,
            is_signer: self.is_signer,
            is_writable: self.is_writable,
        }
    }
}

/// An instruction as it is sent back: addresses as base-58 text, the payload
/// as base-64 text.
#[derive(Debug, Clone, PartialEq, Eq)]
pub struct InstructionResponse {
    pub program_id: String,
    pub accounts: Vec<AccountMetaResponse>,
    pub instruction_data: String,
}

pub struct InstructionResponseView {
    pub program_id: Seq<char>,
    pub accounts: Seq<AccountMetaResponseView>,
    pub instruction_data: Seq<char>,
}

impl View for InstructionResponse {
    type V = InstructionResponseView;

    open spec fn view(&self) -> InstructionResponseView {
        InstructionResponseView {
            program_id: self.program_id@,
            accounts: self.accounts@.map_values(|a: AccountMetaResponse| a@),
            instruction_data: self.instruction_data@,
        }
    }
}

/// A signature with the key and the message it belongs to.
#[derive(Debug, Clone, PartialEq, Eq)]
pub struct SignMessageResponse {
    pub signature: String,
    pub pubkey: String,
    pub message: String,
}

pub struct SignMessageResponseView {
    pub signature: Seq<char>,
    pub pubkey: Seq<char>,
    pub message: Seq<char>,
}

impl View for SignMessageResponse {
    type V = SignMessageResponseView;

    open spec fn view(&self) -> SignMessageResponseView {
        SignMessageResponseView {
            signature: self.signature@,
            pubkey: self.pubkey@,
            message: self.message@,
        }
    }
}

/// A transfer of native currency as it is sent back: the accounts by
/// address only.
#[derive(Debug, Clone, PartialEq, Eq)]
pub struct SendSolResponse {
    pub program_id: String,
    pub accounts: Vec<String>,
    pub instruction_data: String,
}

pub struct SendSolResponseView {
    pub program_id: Seq<char>,
    pub accounts: Seq<Seq<char>>,
    pub instruction_data: Seq<char>,
}

impl View for SendSolResponse {
    type V = SendSolResponseView;

    open spec fn view(&self) -> SendSolResponseView {
        SendSolResponseView {
            program_id: self.program_id@,
            accounts: self.accounts@.map_values(|a: String| a@),
            instruction_data: self.instruction_data@,
        }
    }
}

/// One account of a token transfer as it is sent back.
#[derive(Debug, Clone, PartialEq, Eq)]
pub struct TokenAccountResponse {
    pub pubkey: String,
    pub is_signer: bool,
    pub is_writable: bool,
}

pub struct TokenAccountResponseView {
    pub pubkey: Seq<char>,
    pub is_signer: bool,
    pub is_writable: bool,
}

impl View for TokenAccountResponse {
    type V = TokenAccountResponseView;

    open spec fn view(&self) -> TokenAccountResponseView {
        TokenAccountResponseView {
            pubkey: self.pubkey@,
            is_signer: self.is_signer,
            is_writable: self.is_writable,
        }
    }
}

/// A token transfer as it is sent back.
#[derive(Debug, Clone, PartialEq, Eq)]
pub struct SendTokenResponse {
    pub program_id: String,
    pub accounts: Vec<TokenAccountResponse>,
    pub instruction_data: String,
}

pub struct SendTokenResponseView {
    pub program_id: Seq<char>,
    pub accounts: Seq<TokenAccountResponseView>,
    pub instruction_data: Seq<char>,
}

impl View for SendTokenResponse {
    type V = SendTokenResponseView;

    open spec fn view(&self) -> SendTokenResponseView {
        SendTokenResponseView {
            program_id: self.program_id@,
            accounts: self.accounts@.map_values(|a: TokenAccountResponse| a@),
            instruction_data: self.instruction_data@,
        }
    }
}

/// Answers a message: the status `Received` and the message as it came.
pub fn receive_message(payload: Message) -> (reply: Response)
    ensures
        reply.status@ == "Received"@,
        reply.echoed == payload,
{
    Response { status: "Received".to_owned(), echoed: payload }
}

/// An account of an instruction as it is sent back.
pub open spec fn account_meta(account: AccountView) -> AccountMetaResponseView {
    AccountMetaResponseView {
        pubkey: base58::encoding(account.address),
        is_signer: account.is_signer,
        is_writable: account.is_writable,
    }
}

/// An instruction as it is sent back: the accounts in the order of the
/// instruction, each with its flags.
pub open spec fn instruction_reply(ix: InstructionView) -> InstructionResponseView {
    InstructionResponseView {
        program_id: base58::encoding(ix.program_id),
        accounts: ix.accounts.map_values(|a: AccountView| account_meta(a)),
        instruction_data: base64::encoding(ix.data),
    }
}

/// Writes an instruction out for the reply, keeping the order of its
/// accounts.
pub fn instruction_response(ix: &Instruction) -> (reply: InstructionResponse)
    ensures
        reply@ == instruction_reply(ix@),
{
    let mut accounts: Vec<AccountMetaResponse> = Vec::new();
    let mut i: usize = 0;
    while i < ix.accounts.len()
        invariant
            i <= ix.accounts.len(),
            accounts.len() == i,
            forall|k: int|
                0 <= k < i ==> (#[trigger] accounts[k])@ == account_meta(ix.accounts[k]@),
        decreases ix.accounts.len() - i,
    {
        let account = &ix.accounts[i];
        accounts.push(
            AccountMetaResponse {
                pubkey: account.address.to_text(),
                is_signer: account.is_signer,
                is_writable: account.is_writable,
            },
        );
        i += 1;
    }
    let reply = InstructionResponse {
        program_id: ix.program_id.to_text(),
        accounts,
        instruction_data: encode_base64(ix.data.as_slice()),
    };
    assert(reply@.accounts =~= instruction_reply(ix@).accounts);
    reply
}

/// The message for an instruction that could not be built: what was being
/// built, then the reason.
pub fn build_failure(what: &str, error: &BuildError) -> (text: String)
    ensures
        text@ == what@ + error.message_spec(),
{
    what.to_owned().concat(error.message().as_str())
}

/// What [`create_token`] answers to a request.
pub open spec fn create_token_outcome(req: TokenCreateRequestView) -> Result<
    InstructionResponseView,
    Seq<char>,
> {
    match token_create_failure(req) {
        Some(failure) => Err(failure.message_spec()),
        None => Ok(
            instruction_reply(
                initialize_mint_instruction(
                    address_of_text(req.mint).unwrap(),
                    address_of_text(req.mint_authority).unwrap(),
                    req.decimals,
                ),
            ),
        ),
    }
}

/// Builds the instruction that initializes a mint. A request that is not
/// valid is refused with the message of what is wrong with it first.
pub fn create_token(req: &TokenCreateRequest) -> (reply: ApiResponse<InstructionResponse>)
    ensures
        reply.well_formed(),
        reply@ == create_token_outcome(req@),
{
    let params = match validate_token_create(req) {
        Ok(params) => params,
        Err(failure) => {
            return ApiResponse::fail(failure.message());
        },
    };
    match build_initialize_mint(&params.mint, &params.mint_authority, params.decimals) {
        Ok(ix) => ApiResponse::ok(instruction_response(&ix)),
        Err(e) => ApiResponse::fail(build_failure("Failed to create instruction: ", &e)),
    }
}

/// What [`mint_token`] answers to a request.
pub open spec fn mint_token_outcome(req: TokenMintRequestView) -> Result<
    InstructionResponseView,
    Seq<char>,
> {
    match token_mint_failure(req) {
        Some(failure) => Err(failure.message_spec()),
        None => {
            let mint = address_of_text(req.mint).unwrap();
            match associated_address(address_of_text(req.destination).unwrap(), mint) {
                Some(account) => Ok(
                    instruction_reply(
                        mint_to_instruction(
                            mint,
                            account,
                            address_of_text(req.authority).unwrap(),
                            req.amount,
                        ),
                    ),
                ),
                None => Err("Failed to create mint instruction: no associated token account"@),
            }
        },
    }
}

/// Builds the instruction that mints tokens into the token account that the
/// destination wallet holds for the mint. A request that is not valid is
/// refused with the message of what is wrong with it first.
pub fn mint_token(req: &TokenMintRequest) -> (reply: ApiResponse<InstructionResponse>)
    ensures
        reply.well_formed(),
        reply@ == mint_token_outcome(req@),
{
    let params = match validate_token_mint(req) {
        Ok(params) => params,
        Err(failure) => {
            return ApiResponse::fail(failure.message());
        },
    };
    let account = match associated_token_address(&params.destination, &params.mint) {
        Some(address) => address,
        None => {
            return ApiResponse::fail(
                "Failed to create mint instruction: no associated token account".to_owned(),
            );
        },
    };
    match build_mint_to(&params.mint, &account, &params.authority, params.amount) {
        Ok(ix) => ApiResponse::ok(instruction_response(&ix)),
        Err(e) => ApiResponse::fail(build_failure("Failed to create mint instruction: ", &e)),
    }
}

/// An account of a token transfer as it is sent back: never marked as
/// signer.
pub open spec fn transfer_account(address: Seq<u8>, is_writable: bool)
    -> TokenAccountResponseView {
    TokenAccountResponseView { pubkey: base58::encoding(address), is_signer: false, is_writable }
}

/// A token transfer as it is sent back. The accounts are, in this order,
/// the owner, the token account of the destination, and the owner again as
/// authority. The flags go by the position alone: none is marked as signer;
/// the first two are marked as written to and the third as only read, as
/// the token program treats the accounts of a transfer at these positions.
pub open spec fn token_transfer_reply(
    ix: InstructionView,
    owner: Seq<u8>,
    destination_account: Seq<u8>,
) -> SendTokenResponseView {
    SendTokenResponseView {
        program_id: base58::encoding(ix.program_id),
        accounts: seq![
            transfer_account(owner, true),
            transfer_account(destination_account, true),
            transfer_account(owner, false),
        ],
        instruction_data: base64::encoding(ix.data),
    }
}

/// Writes a token transfer out for the reply.
///
/// The list of accounts is written here and is not the list of the
/// instruction. It keeps the three positions of a transfer, and the writable
/// flag of each position, but it names the owner where the instruction names
/// the owner's token account, and it marks nobody as signer, where the
/// instruction marks the authority. Callers rely on these three positions,
/// so they are kept as they are, and the difference is stated here.
pub fn token_transfer_response(
    ix: &Instruction,
    owner: &PublicAddress,
    destination_account: &PublicAddress,
) -> (reply: SendTokenResponse)
    ensures
        reply@ == token_transfer_reply(ix@, owner@, destination_account@),
{
    let mut accounts: Vec<TokenAccountResponse> = Vec::with_capacity(3);
    accounts.push(
        TokenAccountResponse { pubkey: owner.to_text(), is_signer: false, is_writable: true },
    );
    accounts.push(
        TokenAccountResponse {
            pubkey: destination_account.to_text(),
            is_signer: false,
            is_writable: true,
        },
    );
    accounts.push(
        TokenAccountResponse { pubkey: owner.to_text(), is_signer: false, is_writable: false },
    );
    let reply = SendTokenResponse {
        program_id: ix.program_id.to_text(),
        accounts,
        instruction_data: encode_base64(ix.data.as_slice()),
    };
    assert(reply@.accounts =~= token_transfer_reply(ix@, owner@, destination_account@).accounts);
    reply
}

/// What [`send_token`] answers to a request.
pub open spec fn send_token_outcome(req: SendTokenRequestView) -> Result<
    SendTokenResponseView,
    Seq<char>,
> {
    match send_token_failure(req) {
        Some(failure) => Err(failure.message_spec()),
        None => {
            let owner = address_of_text(req.owner).unwrap();
            let mint = address_of_text(req.mint).unwrap();
            let source = associated_address(owner, mint);
            let destination = associated_address(address_of_text(req.destination).unwrap(), mint);
            if source is Some && destination is Some {
                Ok(
                    token_transfer_reply(
                        token_transfer_instruction(
                            source.unwrap(),
                            destination.unwrap(),
                            owner,
                            req.amount,
                        ),
                        owner,
                        destination.unwrap(),
                    ),
                )
            } else {
                Err("Failed to create transfer instruction: no associated token account"@)
            }
        },
    }
}

/// Builds the instruction that moves tokens from the owner's token account
/// to the destination wallet's. A request that is not valid is refused with
/// the message of what is wrong with it first.
pub fn send_token(req: &SendTokenRequest) -> (reply: ApiResponse<SendTokenResponse>)
    ensures
        reply.well_formed(),
        reply@ == send_token_outcome(req@),
{
    let params = match validate_send_token(req) {
        Ok(params) => params,
        Err(failure) => {
            return ApiResponse::fail(failure.message());
        },
    };
    let source = associated_token_address(&params.owner, &params.mint);
    let destination = associated_token_address(&params.destination, &params.mint);
    let (source, destination) = match (source, destination) {
        (Some(source), Some(destination)) => (source, destination),
        _ => {
            return ApiResponse::fail(
                "Failed to create transfer instruction: no associated token account".to_owned(),
            );
        },
    };
    match build_token_transfer(&source, &destination, &params.owner, params.amount) {
        Ok(ix) => ApiResponse::ok(token_transfer_response(&ix, &params.owner, &destination)),
        Err(e) => ApiResponse::fail(
            build_failure("Failed to create transfer instruction: ", &e),
        ),
    }
}

/// A transfer of native currency as it is sent back: the accounts in the
/// order of the instruction, by address.
pub open spec fn sol_transfer_reply(ix: InstructionView) -> SendSolResponseView {
    SendSolResponseView {
        program_id: base58::encoding(ix.program_id),
        accounts: ix.accounts.map_values(|a: AccountView| base58::encoding(a.address)),
        instruction_data: base64::encoding(ix.data),
    }
}

/// Writes a transfer of native currency out for the reply.
pub fn sol_transfer_response(ix: &Instruction) -> (reply: SendSolResponse)
    ensures
        reply@ == sol_transfer_reply(ix@),
{
    let mut accounts: Vec<String> = Vec::new();
    let mut i: usize = 0;
    while i < ix.accounts.len()
        invariant
            i <= ix.accounts.len(),
            accounts.len() == i,
            forall|k: int|
                0 <= k < i ==> (#[trigger] accounts[k])@ == base58::encoding(
                    ix.accounts[k]@.address,
                ),
        decreases ix.accounts.len() - i,
    {
        accounts.push(ix.accounts[i].address.to_text());
        i += 1;
    }
    let reply = SendSolResponse {
        program_id: ix.program_id.to_text(),
        accounts,
        instruction_data: encode_base64(ix.data.as_slice()),
    };
    assert(reply@.accounts =~= sol_transfer_reply(ix@).accounts);
    reply
}

/// What [`send_sol`] answers to a request.
pub open spec fn send_sol_outcome(req: SendSolRequestView) -> Result<
    SendSolResponseView,
    Seq<char>,
> {
    match send_sol_failure(req) {
        Some(failure) => Err(failure.message_spec()),
        None => Ok(
            sol_transfer_reply(
                sol_transfer(
                    address_of_text(req.from).unwrap(),
                    address_of_text(req.to).unwrap(),
                    req.lamports,
                ),
            ),
        ),
    }
}

/// Builds the transfer of native currency. A request that is not valid is
/// refused with the message of what is wrong with it first; a transfer of
/// nothing is refused whatever the addresses are.
pub fn send_sol(req: &SendSolRequest) -> (reply: ApiResponse<SendSolResponse>)
    ensures
        reply.well_formed(),
        reply@ == send_sol_outcome(req@),
        req.lamports == 0 ==> reply@ == Err::<SendSolResponseView, Seq<char>>(
            ValidationError::ZeroAmount.message_spec(),
        ),
{
    let params = match validate_send_sol(req) {
        Ok(params) => params,
        Err(failure) => {
            return ApiResponse::fail(failure.message());
        },
    };
    match build_sol_transfer(&params.from, &params.to, params.lamports) {
        Ok(ix) => ApiResponse::ok(sol_transfer_response(&ix)),
        Err(e) => ApiResponse::fail(e.message()),
    }
}

/// A signature as it is sent back, with the signer's address and the
/// message as it came.
pub open spec fn signed_reply(
    signature: Seq<u8>,
    address: Seq<u8>,
    message: Seq<char>,
) -> SignMessageResponseView {
    SignMessageResponseView {
        signature: base58::encoding(signature),
        pubkey: base58::encoding(address),
        message,
    }
}

/// Writes a signature out for the reply, in base 58. Both texts can be read
/// again: the signature's stands for its 64 bytes, the address's for its 32.
pub fn signed_response(signature: &Signature, address: &PublicAddress, message: String) -> (reply:
    SignMessageResponse)
    ensures
        reply@ == signed_reply(signature@, address@, message@),
        signature_of_text(reply.signature@) == Some(signature@),
        address_of_text(reply.pubkey@) == Some(address@),
{
    SignMessageResponse {
        signature: signature.to_text(),
        pubkey: address.to_text(),
        message,
    }
}

/// What [`sign_message`] answers to a request. The bytes that are signed are
/// the UTF-8 bytes of the message.
pub open spec fn sign_message_outcome(req: MessageSignRequestView) -> Result<
    SignMessageResponseView,
    Seq<char>,
> {
    match base58::decoding(req.secret) {
        None => Err("Invalid base58 encoding"@),
        Some(bytes) => if bytes.len() == 64 && keypair_accepted(bytes) {
            Ok(
                signed_reply(
                    signature_of(bytes, encode_utf8(req.message))@,
                    bytes.subrange(32, 64),
                    req.message,
                ),
            )
        } else {
            Err("Invalid keypair: must be 64 bytes"@)
        },
    }
}

/// What [`sign_message`] sends back can be read again: the text of the
/// signature stands for exactly 64 bytes, the signature of the UTF-8 bytes of
/// the message; the text of the public key stands for the last 32 bytes of
/// the secret; and the message is the one of the request.
pub proof fn lemma_sign_message_reply(req: MessageSignRequestView)
    requires
        sign_message_outcome(req) is Ok,
    ensures
        signature_of_text(sign_message_outcome(req)->Ok_0.signature) == Some(
            signature_of(base58::decoding(req.secret).unwrap(), encode_utf8(req.message))@,
        ),
        address_of_text(sign_message_outcome(req)->Ok_0.pubkey) == Some(
            base58::decoding(req.secret).unwrap().subrange(32, 64),
        ),
        sign_message_outcome(req)->Ok_0.message == req.message,
{
    let secret = base58::decoding(req.secret).unwrap();
    lemma_signature_round_trip(signature_of(secret, encode_utf8(req.message))@);
    lemma_address_round_trip(secret.subrange(32, 64));
}

/// Signs a message with the key pair given as base-58 text. The message is
/// signed as it came, empty or not, and sent back unchanged. The signature
/// is sent as base-58 text that stands for exactly 64 bytes.
pub fn sign_message(req: &MessageSignRequest) -> (reply: ApiResponse<SignMessageResponse>)
    ensures
        reply.well_formed(),
        reply@ == sign_message_outcome(req@),
        reply@ is Ok ==> signature_of_text(reply@->Ok_0.signature) is Some && address_of_text(
            reply@->Ok_0.pubkey,
        ) is Some && reply@->Ok_0.message == req.message@,
{
    proof {
        if sign_message_outcome(req@) is Ok {
            lemma_sign_message_reply(req@);
        }
    }
    match keypair_from_secret(req.secret.as_str()) {
        Ok(secret) => {
            let signature = sign(&secret, req.message.as_str().as_bytes());
            let address = secret.public_address();
            ApiResponse::ok(signed_response(&signature, &address, req.message.clone()))
        },
        Err(e) => ApiResponse::fail(e.message()),
    }
}

/// The answer on a signature as it is sent back.
pub fn verified_response(valid: bool, message: String, pubkey: String) -> (reply:
    VerifyMessageResponse)
    ensures
        reply.valid == valid,
        reply.message == message,
        reply.pubkey == pubkey,
{
    VerifyMessageResponse { valid, message, pubkey }
}

/// What [`verify_message`] answers to a request.
pub open spec fn verify_message_outcome(req: MessageVerifyRequestView) -> Result<
    VerifyMessageResponseView,
    Seq<char>,
> {
    match message_verify_failure(req) {
        Some(failure) => Err(failure.message_spec()),
        None => Ok(
            VerifyMessageResponseView {
                valid: signature_verifies(
                    address_of_text(req.pubkey).unwrap(),
                    signature_of_text(req.signature).unwrap(),
                    encode_utf8(req.message),
                ),
                message: req.message,
                pubkey: req.pubkey,
            },
        ),
    }
}

/// Checks a base-58 signature of a message under a public key. A signature
/// that does not verify is answered with `valid: false`; only a key or a
/// signature that cannot be read is refused. The message and the key are
/// sent back as they came.
pub fn verify_message(req: &MessageVerifyRequest) -> (reply: ApiResponse<VerifyMessageResponse>)
    ensures
        reply.well_formed(),
        reply@ == verify_message_outcome(req@),
{
    match validate_message_verify(req) {
        Ok(params) => {
            let valid = verify(
                &params.address,
                &params.signature,
                req.message.as_str().as_bytes(),
            );
            ApiResponse::ok(verified_response(valid, req.message.clone(), req.pubkey.clone()))
        },
        Err(failure) => ApiResponse::fail(failure.message()),
    }
}

/// What [`sign_message`] writes, [`verify_message`] reads as it was written:
/// asked about the text of a signature and of an address, it answers what
/// Ed25519 says of that signature, that address and the UTF-8 bytes of the
/// message it is given.
pub proof fn lemma_verify_reads_what_sign_writes(
    signature: Seq<u8>,
    address: Seq<u8>,
    signed: Seq<char>,
    checked: Seq<char>,
)
    requires
        signature.len() == 64,
        address.len() == 32,
    ensures
        verify_message_outcome(
            MessageVerifyRequestView {
                message: checked,
                signature: signed_reply(signature, address, signed).signature,
                pubkey: signed_reply(signature, address, signed).pubkey,
            },
        ) == Ok::<VerifyMessageResponseView, Seq<char>>(
            VerifyMessageResponseView {
                valid: signature_verifies(address, signature, encode_utf8(checked)),
                message: checked,
                pubkey: base58::encoding(address),
            },
        ),
{
    base58::lemma_decoding_of_encoding(signature);
    base58::lemma_decoding_of_encoding(address);
}

/// Asked about what [`sign_message`] sent back, [`verify_message`] never
/// refuses: it answers with a payload, and `valid` is what Ed25519 says of
/// the signature that the secret gave to the signed message, under the public
/// half of the secret, over the UTF-8 bytes of the message that is checked.
/// Whether that is `true` is Ed25519's to say.
pub proof fn lemma_sign_then_verify(req: MessageSignRequestView, checked: Seq<char>)
    requires
        sign_message_outcome(req) is Ok,
    ensures
        verify_message_outcome(
            MessageVerifyRequestView {
                message: checked,
                signature: sign_message_outcome(req)->Ok_0.signature,
                pubkey: sign_message_outcome(req)->Ok_0.pubkey,
            },
        ) == Ok::<VerifyMessageResponseView, Seq<char>>(
            VerifyMessageResponseView {
                valid: signature_verifies(
                    base58::decoding(req.secret).unwrap().subrange(32, 64),
                    signature_of(base58::decoding(req.secret).unwrap(), encode_utf8(req.message))@,
                    encode_utf8(checked),
                ),
                message: checked,
                pubkey: sign_message_outcome(req)->Ok_0.pubkey,
            },
        ),
{
    let secret = base58::decoding(req.secret).unwrap();
    lemma_verify_reads_what_sign_writes(
        signature_of(secret, encode_utf8(req.message))@,
        secret.subrange(32, 64),
        req.message,
        checked,
    );
}

/// A key pair as it is sent back: the public address, and all 64 bytes as
/// the secret.
pub open spec fn keypair_reply(secret: Seq<u8>) -> KeypairResponseView {
    KeypairResponseView {
        pubkey: base58::encoding(secret.subrange(32, 64)),
        secret: base58::encoding(secret),
    }
}

/// Writes a key pair out for the reply, in base 58. Both texts can be read
/// again: the secret's stands for the 64 bytes, the public key's for the
/// last 32 of them.
pub fn keypair_response(secret: &SecretMaterial) -> (reply: KeypairResponse)
    ensures
        reply@ == keypair_reply(secret@),
        base58::decoding(reply.secret@) == Some(secret@),
        address_of_text(reply.pubkey@) == Some(secret@.subrange(32, 64)),
{
    proof {
        base58::lemma_decoding_of_encoding(secret@);
    }
    let address = secret.public_address();
    let bytes = secret.to_bytes();
    KeypairResponse { pubkey: address.to_text(), secret: encode_base58(&bytes) }
}

/// Makes a new key pair. It never fails; which key pair comes back is up to
/// the random source. Whichever it is, both texts of the reply can be read
/// again.
pub fn generate_keypair() -> (reply: ApiResponse<KeypairResponse>)
    ensures
        reply.well_formed(),
        reply@ is Ok,
        exists|secret: Seq<u8>|
            secret.len() == 64 && keypair_accepted(secret) && reply@ == Ok::<
                KeypairResponseView,
                Seq<char>,
            >(keypair_reply(secret)) && base58::decoding(keypair_reply(secret).secret) == Some(
                secret,
            ) && address_of_text(keypair_reply(secret).pubkey) == Some(secret.subrange(32, 64)),
{
    let secret = SecretMaterial::generate();
    let reply = keypair_response(&secret);
    let ghost bytes = secret@;
    assert(bytes.len() == 64 && keypair_accepted(bytes) && reply@ == keypair_reply(bytes)
        && base58::decoding(keypair_reply(bytes).secret) == Some(bytes) && address_of_text(
        keypair_reply(bytes).pubkey,
    ) == Some(bytes.subrange(32, 64)));
    ApiResponse::ok(reply)
}

/// Why no balance is known.
#[derive(Clone, Copy, Debug, PartialEq, Eq)]
pub enum QueryError {
    /// The text is no address; the ledger was not asked.
    InvalidAddress,
    /// The ledger was asked and gave no balance, for whatever reason.
    QueryFailed,
}

impl QueryError {
    /// The reason in words.
    pub open spec fn message_spec(self) -> Seq<char> {
        match self {
            QueryError::InvalidAddress => "Invalid address format"@,
            QueryError::QueryFailed => "Failed to fetch balance"@,
        }
    }

    /// The reason in words.
    pub fn message(&self) -> (text: String)
        ensures
            text@ == self.message_spec(),
    {
        match self {
            QueryError::InvalidAddress => "Invalid address format".to_owned(),
            QueryError::QueryFailed => "Failed to fetch balance".to_owned(),
        }
    }
}

/// Decides whether the ledger is to be asked for a balance: the account to
/// ask for, or a refusal. A text that is no address is refused here, so the
/// ledger is asked about valid addresses only.
pub fn get_balance(address: &str) -> (step: Result<PublicAddress, QueryError>)
    ensures
        match step {
            Ok(account) => address_of_text(address@) == Some(account@),
            Err(e) => address_of_text(address@) is None && e == QueryError::InvalidAddress,
        },
{
    match parse_address(address) {
        Ok(account) => Ok(account),
        Err(_) => Err(QueryError::InvalidAddress),
    }
}

/// The reply on a balance: the address as it was asked for and the lamports
/// that the ledger gave, or the reason why there are none.
pub fn balance_response(address: String, outcome: Result<u64, QueryError>) -> (reply: ApiResponse<
    BalanceResponse,
>)
    ensures
        reply.well_formed(),
        reply@ == (match outcome {
            Ok(lamports) => Ok(BalanceResponseView { address: address@, lamports }),
            Err(e) => Err(e.message_spec()),
        }),
{
    match outcome {
        Ok(lamports) => ApiResponse::ok(BalanceResponse { address, lamports }),
        Err(e) => ApiResponse::fail(e.message()),
    }
}

/// An account of an instruction as it is sent back, by its text.
pub open spec fn meta(pubkey: Seq<char>, is_signer: bool, is_writable: bool)
    -> AccountMetaResponseView {
    AccountMetaResponseView { pubkey, is_signer, is_writable }
}

/// A reply of [`create_token`] names the token program and lists the mint,
/// written to, then the rent sysvar; the addresses read as in the request.
pub proof fn lemma_create_token_reply(req: TokenCreateRequestView)
    requires
        create_token_outcome(req) is Ok,
    ensures
        create_token_outcome(req)->Ok_0.program_id == token_program_text(),
        create_token_outcome(req)->Ok_0.accounts == seq![
            meta(req.mint, false, true),
            meta(rent_sysvar_text(), false, false),
        ],
{
    lemma_token_program();
    lemma_rent_sysvar();
    lemma_address_text_unique(req.mint);
    let reply = create_token_outcome(req)->Ok_0;
    assert(reply.accounts =~= seq![
        meta(req.mint, false, true),
        meta(rent_sysvar_text(), false, false),
    ]);
}

/// A reply of [`mint_token`] names the token program and lists, in this
/// order, the mint, written to; the token account that the destination holds
/// for the mint, written to; and the authority, who signs and is only read.
/// Mint and authority read as in the request.
pub proof fn lemma_mint_token_reply(req: TokenMintRequestView)
    requires
        mint_token_outcome(req) is Ok,
    ensures
        mint_token_outcome(req)->Ok_0.program_id == token_program_text(),
        mint_token_outcome(req)->Ok_0.accounts == seq![
            meta(req.mint, false, true),
            meta(
                base58::encoding(
                    associated_address(
                        address_of_text(req.destination).unwrap(),
                        address_of_text(req.mint).unwrap(),
                    ).unwrap(),
                ),
                false,
                true,
            ),
            meta(req.authority, true, false),
        ],
{
    lemma_token_program();
    lemma_address_text_unique(req.mint);
    lemma_address_text_unique(req.authority);
    let reply = mint_token_outcome(req)->Ok_0;
    assert(reply.accounts =~= seq![
        meta(req.mint, false, true),
        meta(
            base58::encoding(
                associated_address(
                    address_of_text(req.destination).unwrap(),
                    address_of_text(req.mint).unwrap(),
                ).unwrap(),
            ),
            false,
            true,
        ),
        meta(req.authority, true, false),
    ]);
}

/// A reply of [`send_token`] names the token program and lists, in this
/// order, the owner, the token account that the destination holds for the
/// mint, and the owner again. None is marked as signer; the first two are
/// marked as written to, the third is not: the flags go by the position,
/// whatever the addresses and the amount are. The owner reads as in the
/// request.
pub proof fn lemma_send_token_reply(req: SendTokenRequestView)
    requires
        send_token_outcome(req) is Ok,
    ensures
        send_token_outcome(req)->Ok_0.program_id == token_program_text(),
        send_token_outcome(req)->Ok_0.accounts == seq![
            TokenAccountResponseView { pubkey: req.owner, is_signer: false, is_writable: true },
            transfer_account(
                associated_address(
                    address_of_text(req.destination).unwrap(),
                    address_of_text(req.mint).unwrap(),
                ).unwrap(),
                true,
            ),
            TokenAccountResponseView { pubkey: req.owner, is_signer: false, is_writable: false },
        ],
{
    lemma_token_program();
    lemma_address_text_unique(req.owner);
}

/// A reply of [`send_sol`] names the system program and lists the sender,
/// then the recipient, as in the request; its payload is the base-64 text of
/// the discriminator and the amount.
pub proof fn lemma_send_sol_reply(req: SendSolRequestView)
    requires
        send_sol_outcome(req) is Ok,
    ensures
        req.lamports != 0,
        send_sol_outcome(req)->Ok_0.program_id == system_program_text(),
        send_sol_outcome(req)->Ok_0.accounts == seq![req.from, req.to],
        send_sol_outcome(req)->Ok_0.instruction_data == base64::encoding(
            sol_transfer_payload(req.lamports),
        ),
{
    lemma_system_program();
    lemma_address_text_unique(req.from);
    lemma_address_text_unique(req.to);
    let reply = send_sol_outcome(req)->Ok_0;
    assert(reply.accounts =~= seq![req.from, req.to]);
}

} // verus!
