//! Unsigned instructions: a program, an ordered list of accounts with their
//! signer and writable flags, and a binary payload.
//!
//! The order of the accounts and the layout of the payload are what the
//! receiving program goes by, so each builder states both exactly.

use vstd::prelude::*;
use crate::keys::PublicAddress;
use crate::programs::{
    associated_program, associated_program_id, rent_sysvar_id, system_program_id, token_program,
    token_program_id,
};
use solana_sdk::pubkey::Pubkey;

verus! {

/// One account of an instruction.
#[derive(Clone, Copy, Debug, PartialEq, Eq)]
pub struct AccountRef {
    pub address: PublicAddress,
    pub is_signer: bool,
    pub is_writable: bool,
}

/// The mathematical value of an [`AccountRef`].
pub struct AccountView {
    pub address: Seq<u8>,
    pub is_signer: bool,
    pub is_writable: bool,
}

impl AccountRef {
    /// The account at the address with these bytes.
    pub fn new(address: [u8; 32], is_signer: bool, is_writable: bool) -> (account: AccountRef)
        ensures
            account.address@ == address@,
            account.is_signer == is_signer,
            account.is_writable == is_writable,
    {
        AccountRef { address: PublicAddress { bytes: address }, is_signer, is_writable }
    }
}

impl View for AccountRef {
    type V = AccountView;

    open spec fn view(&self) -> AccountView {
        AccountView {
            address: self.address@,
            is_signer: self.is_signer,
            is_writable: self.is_writable,
        }
    }
}

/// An instruction, not yet signed or sent.
#[derive(Clone, Debug, PartialEq, Eq)]
pub struct Instruction {
    pub program_id: PublicAddress,
    pub accounts: Vec<AccountRef>,
    pub data: Vec<u8>,
}

/// The mathematical value of an [`Instruction`].
pub struct InstructionView {
    pub program_id: Seq<u8>,
    pub accounts: Seq<AccountView>,
    pub data: Seq<u8>,
}

impl View for Instruction {
    type V = InstructionView;

    open spec fn view(&self) -> InstructionView {
        InstructionView {
            program_id: self.program_id@,
            accounts: self.accounts@.map_values(|a: AccountRef| a@),
            data: self.data@,
        }
    }
}

/// Why no instruction was built.
#[derive(Clone, Debug, PartialEq, Eq)]
pub enum BuildError {
    /// A transfer of nothing was asked for.
    ZeroAmount,
    /// The token program's own constructor refused the parameters; its
    /// reason is kept as it gave it.
    Rejected { reason: String },
}

impl BuildError {
    /// The reason in words.
    pub open spec fn message_spec(&self) -> Seq<char> {
        match self {
            BuildError::ZeroAmount => "Amount must be greater than 0"@,
            BuildError::Rejected { reason } => reason@,
        }
    }

    /// The reason in words.
    pub fn message(&self) -> (text: String)
        ensures
            text@ == self.message_spec(),
    {
        match self {
            BuildError::ZeroAmount => "Amount must be greater than 0".to_owned(),
            BuildError::Rejected { reason } => reason.clone(),
        }
    }
}

/// An account that the instruction writes to.
pub open spec fn writable(address: Seq<u8>, is_signer: bool) -> AccountView {
    AccountView { address, is_signer, is_writable: true }
}

/// An account that the instruction only reads.
pub open spec fn readonly(address: Seq<u8>, is_signer: bool) -> AccountView {
    AccountView { address, is_signer, is_writable: false }
}

/// The first `width` bytes of `value`, lowest first.
pub open spec fn le_bytes(value: nat, width: nat) -> Seq<u8>
    decreases width,
{
    if width == 0 {
        Seq::empty()
    } else {
        seq![(value % 256) as u8] + le_bytes(value / 256, (width - 1) as nat)
    }
}

/// The number that bytes stand for, lowest byte first.
pub open spec fn le_value(bytes: Seq<u8>) -> nat
    decreases bytes.len(),
{
    if bytes.len() == 0 {
        0
    } else {
        bytes[0] as nat + 256 * le_value(bytes.drop_first())
    }
}

/// The part of `value` that lies above its first `width` bytes.
pub open spec fn le_overflow(value: nat, width: nat) -> nat
    decreases width,
{
    if width == 0 {
        value
    } else {
        256 * le_overflow(value / 256, (width - 1) as nat)
    }
}

/// `le_bytes` gives as many bytes as it is asked for.
pub proof fn lemma_le_bytes_len(value: nat, width: nat)
    ensures
        le_bytes(value, width).len() == width,
    decreases width,
{
    if width > 0 {
        lemma_le_bytes_len(value / 256, (width - 1) as nat);
    }
}

/// What `le_bytes` drops is what does not fit: the bytes stand for the
/// value, less the part of it that lies above them.
pub proof fn lemma_le_bytes_value(value: nat, width: nat)
    ensures
        le_value(le_bytes(value, width)) + le_overflow(value, width) == value,
    decreases width,
{
    if width > 0 {
        let bytes = le_bytes(value, width);
        let rest = le_bytes(value / 256, (width - 1) as nat);
        assert(bytes.drop_first() =~= rest);
        assert(bytes[0] == (value % 256) as u8);
        lemma_le_bytes_value(value / 256, (width - 1) as nat);
    }
}

/// Eight bytes hold every 64-bit amount: the bytes stand for the amount
/// itself, so no two amounts have the same bytes.
pub proof fn lemma_amount_round_trip(amount: u64)
    ensures
        le_bytes(amount as nat, 8).len() == 8,
        le_value(le_bytes(amount as nat, 8)) == amount,
{
    lemma_le_bytes_len(amount as nat, 8);
    lemma_le_bytes_value(amount as nat, 8);
    assert(le_overflow(amount as nat, 8) == 0) by {
        reveal_with_fuel(le_overflow, 9);
    }
}

/// The four-byte number that tells the system program to transfer.
pub open spec fn transfer_discriminator() -> Seq<u8> {
    le_bytes(2, 4)
}

/// The payload of a transfer of native currency: the discriminator, then the
/// amount in eight bytes, both lowest byte first.
pub open spec fn sol_transfer_payload(lamports: u64) -> Seq<u8> {
    transfer_discriminator() + le_bytes(lamports as nat, 8)
}

/// The payload of a transfer is twelve bytes: 2, 0, 0, 0, then eight bytes
/// that stand for the amount.
pub proof fn lemma_sol_transfer_payload(lamports: u64)
    ensures
        sol_transfer_payload(lamports).len() == 12,
        sol_transfer_payload(lamports).subrange(0, 4) == seq![2u8, 0, 0, 0],
        le_value(sol_transfer_payload(lamports).subrange(4, 12)) == lamports,
{
    let head = transfer_discriminator();
    let tail = le_bytes(lamports as nat, 8);
    lemma_le_bytes_len(2, 4);
    lemma_amount_round_trip(lamports);
    assert(head =~= seq![2u8, 0, 0, 0]) by {
        reveal_with_fuel(le_bytes, 5);
    }
    assert((head + tail).subrange(0, 4) =~= head);
    assert((head + tail).subrange(4, 12) =~= tail);
}

/// The accounts of a transfer of native currency: the sender, who signs,
/// then the recipient; both are written to.
pub open spec fn sol_transfer_accounts(from: Seq<u8>, to: Seq<u8>) -> Seq<AccountView> {
    seq![writable(from, true), writable(to, false)]
}

/// The instruction that transfers `lamports` from `from` to `to`.
pub open spec fn sol_transfer(from: Seq<u8>, to: Seq<u8>, lamports: u64) -> InstructionView {
    InstructionView {
        program_id: system_program_id(),
        accounts: sol_transfer_accounts(from, to),
        data: sol_transfer_payload(lamports),
    }
}

/// The instruction that initializes `mint` with `authority` as its mint
/// authority, no freeze authority, and `decimals` decimal places. Accounts:
/// the mint, written to; the rent sysvar, read. Payload: tag 0, the decimals,
/// the authority, and a zero byte for the absent freeze authority.
pub open spec fn initialize_mint_instruction(
    mint: Seq<u8>,
    authority: Seq<u8>,
    decimals: u8,
) -> InstructionView {
    InstructionView {
        program_id: token_program_id(),
        accounts: seq![
            writable(mint, false),
            readonly(rent_sysvar_id(), false),
        ],
        data: seq![0u8, decimals] + authority + seq![0u8],
    }
}

/// The instruction that mints `amount` of `mint` into `account`. Accounts:
/// the mint and the receiving token account, both written to; the mint
/// authority, who signs. Payload: tag 7, the amount in eight bytes, lowest
/// first.
pub open spec fn mint_to_instruction(
    mint: Seq<u8>,
    account: Seq<u8>,
    authority: Seq<u8>,
    amount: u64,
) -> InstructionView {
    InstructionView {
        program_id: token_program_id(),
        accounts: seq![writable(mint, false), writable(account, false), readonly(authority, true)],
        data: seq![7u8] + le_bytes(amount as nat, 8),
    }
}

/// The instruction that moves `amount` from the token account `source` to
/// the token account `destination`. Accounts: source and destination, both
/// written to; the owner of the source, who signs. Payload: tag 3, the amount
/// in eight bytes, lowest first.
pub open spec fn token_transfer_instruction(
    source: Seq<u8>,
    destination: Seq<u8>,
    authority: Seq<u8>,
    amount: u64,
) -> InstructionView {
    InstructionView {
        program_id: token_program_id(),
        accounts: seq![
            writable(source, false),
            writable(destination, false),
            readonly(authority, true),
        ],
        data: seq![3u8] + le_bytes(amount as nat, 8),
    }
}

/// The address that `Pubkey::try_find_program_address` derives from the
/// seeds for the program, if it finds one.
pub uninterp spec fn program_address(seeds: Seq<Seq<u8>>, program: Seq<u8>) -> Option<Seq<u8>>;

/// The token account that the wallet `wallet` holds for `mint`: the address
/// derived for the associated-token-account program from the wallet, the
/// token program and the mint, in this order.
pub open spec fn associated_address(wallet: Seq<u8>, mint: Seq<u8>) -> Option<Seq<u8>> {
    program_address(
        seq![wallet, token_program_id(), mint],
        associated_program_id(),
    )
}

/// Calls `Pubkey::try_find_program_address` with three seeds. It hashes the
/// seeds and the program with a bump seed, counting the bump down until the
/// hash is no point of the curve, and gives up where none is left.
#[verifier::external_body]
fn find_program_address(
    first: &PublicAddress,
    second: &PublicAddress,
    third: &PublicAddress,
    program: &PublicAddress,
) -> (found: Option<PublicAddress>)
    ensures
        match found {
            Some(address) => program_address(seq![first@, second@, third@], program@) == Some(
                address@,
            ),
            None => program_address(seq![first@, second@, third@], program@) is None,
        },
{
    let seeds: [&[u8]; 3] = [&first.bytes, &second.bytes, &third.bytes];
    Pubkey::try_find_program_address(&seeds, &Pubkey::from(program.bytes)).map(
        |(address, _)| PublicAddress { bytes: address.to_bytes() },
    )
}

/// Calls `solana_sdk::system_instruction::transfer`, which addresses the
/// system program and lists the sender as a writable signer, then the
/// recipient as writable.
#[verifier::external_body]
fn system_transfer(from: &PublicAddress, to: &PublicAddress, lamports: u64) -> (ix: Instruction)
    ensures
        ix@.program_id == system_program_id(),
        ix@.accounts == sol_transfer_accounts(from@, to@),
{
    let [from, to] = [from, to].map(|k| Pubkey::from(k.bytes));
    let ix = solana_sdk::system_instruction::transfer(&from, &to, lamports);
    Instruction {
        program_id: PublicAddress { bytes: ix.program_id.to_bytes() },
        accounts: ix
            .accounts
            .iter()
            .map(|a| AccountRef::new(a.pubkey.to_bytes(), a.is_signer, a.is_writable))
            .collect(),
        data: ix.data,
    }
}

/// Calls `spl_token::instruction::initialize_mint` without a freeze
/// authority. It refuses any program but the token program, and otherwise
/// lists the mint and the rent sysvar and packs tag 0, the decimals, the
/// authority and the absent freeze authority.
#[verifier::external_body]
fn token_initialize_mint(
    program: &PublicAddress,
    mint: &PublicAddress,
    authority: &PublicAddress,
    decimals: u8,
) -> (result: Result<Instruction, String>)
    ensures
        result is Ok <==> program@ == token_program_id(),
        result is Ok ==> result.unwrap()@ == initialize_mint_instruction(
            mint@,
            authority@,
            decimals,
        ),
{
    let [program, mint, authority] = [program, mint, authority].map(|k| Pubkey::from(k.bytes));
    let ix = spl_token::instruction::initialize_mint(&program, &mint, &authority, None, decimals)
        .map_err(|e| e.to_string())?;
    Ok(Instruction {
        program_id: PublicAddress { bytes: ix.program_id.to_bytes() },
        accounts: ix
            .accounts
            .iter()
            .map(|a| AccountRef::new(a.pubkey.to_bytes(), a.is_signer, a.is_writable))
            .collect(),
        data: ix.data,
    })
}

/// Calls `spl_token::instruction::mint_to` with no further signers. It
/// refuses any program but the token program, and otherwise lists the mint,
/// the receiving account and the authority as sole signer, and packs tag 7
/// and the amount.
#[verifier::external_body]
fn token_mint_to(
    program: &PublicAddress,
    mint: &PublicAddress,
    account: &PublicAddress,
    authority: &PublicAddress,
    amount: u64,
) -> (result: Result<Instruction, String>)
    ensures
        result is Ok <==> program@ == token_program_id(),
        result is Ok ==> result.unwrap()@ == mint_to_instruction(
            mint@,
            account@,
            authority@,
            amount,
        ),
{
    let [program, mint, account, authority] =
        [program, mint, account, authority].map(|k| Pubkey::from(k.bytes));
    let ix = spl_token::instruction::mint_to(&program, &mint, &account, &authority, &[], amount)
        .map_err(|e| e.to_string())?;
    Ok(Instruction {
        program_id: PublicAddress { bytes: ix.program_id.to_bytes() },
        accounts: ix
            .accounts
            .iter()
            .map(|a| AccountRef::new(a.pubkey.to_bytes(), a.is_signer, a.is_writable))
            .collect(),
        data: ix.data,
    })
}

/// Calls `spl_token::instruction::transfer` with no further signers. It
/// refuses any program but the token program, and otherwise lists source,
/// destination and the authority as sole signer, and packs tag 3 and the
/// amount.
#[verifier::external_body]
fn token_transfer(
    program: &PublicAddress,
    source: &PublicAddress,
    destination: &PublicAddress,
    authority: &PublicAddress,
    amount: u64,
) -> (result: Result<Instruction, String>)
    ensures
        result is Ok <==> program@ == token_program_id(),
        result is Ok ==> result.unwrap()@ == token_transfer_instruction(
            source@,
            destination@,
            authority@,
            amount,
        ),
{
    let [program, from, to, owner] =
        [program, source, destination, authority].map(|k| Pubkey::from(k.bytes));
    let ix = spl_token::instruction::transfer(&program, &from, &to, &owner, &[], amount)
        .map_err(|e| e.to_string())?;
    Ok(Instruction {
        program_id: PublicAddress { bytes: ix.program_id.to_bytes() },
        accounts: ix
            .accounts
            .iter()
            .map(|a| AccountRef::new(a.pubkey.to_bytes(), a.is_signer, a.is_writable))
            .collect(),
        data: ix.data,
    })
}

/// Appends the first `width` bytes of `value`, lowest first.
pub fn push_le_bytes(out: &mut Vec<u8>, value: u64, width: usize)
    ensures
        final(out)@ == old(out)@ + le_bytes(value as nat, width as nat),
{
    let mut rest: u64 = value;
    let mut done: usize = 0;
    assert(old(out)@ + le_bytes(value as nat, width as nat) =~= out@ + le_bytes(
        rest as nat,
        (width - done) as nat,
    ));
    while done < width
        invariant
            done <= width,
            out@ + le_bytes(rest as nat, (width - done) as nat) == old(out)@ + le_bytes(
                value as nat,
                width as nat,
            ),
        decreases width - done,
    {
        let ghost before = out@;
        out.push((rest % 256) as u8);
        proof {
            let tail = le_bytes((rest / 256) as nat, (width - done - 1) as nat);
            assert(le_bytes(rest as nat, (width - done) as nat) == seq![(rest % 256) as u8]
                + tail);
            assert(out@ + tail =~= before + (seq![(rest % 256) as u8] + tail));
        }
        rest = rest / 256;
        done += 1;
    }
    assert(le_bytes(rest as nat, 0) =~= Seq::<u8>::empty());
    assert(out@ + Seq::<u8>::empty() =~= out@);
}

/// The token account that `wallet` holds for `mint`, where one can be
/// derived.
pub fn associated_token_address(wallet: &PublicAddress, mint: &PublicAddress) -> (found: Option<
    PublicAddress,
>)
    ensures
        match found {
            Some(address) => associated_address(wallet@, mint@) == Some(address@),
            None => associated_address(wallet@, mint@) is None,
        },
{
    let token = token_program();
    let program = associated_program();
    find_program_address(wallet, &token, mint, &program)
}

/// Builds the transfer of `lamports` of native currency from `from` to `to`.
/// A transfer of nothing is refused. The payload is put together here, byte
/// by byte.
pub fn build_sol_transfer(from: &PublicAddress, to: &PublicAddress, lamports: u64) -> (result:
    Result<Instruction, BuildError>)
    ensures
        match result {
            Ok(ix) => lamports != 0 && ix@ == sol_transfer(from@, to@, lamports),
            Err(e) => lamports == 0 && e == BuildError::ZeroAmount,
        },
{
    if lamports == 0 {
        return Err(BuildError::ZeroAmount);
    }
    let mut ix = system_transfer(from, to, lamports);
    let mut data: Vec<u8> = Vec::with_capacity(12);
    push_le_bytes(&mut data, 2, 4);
    push_le_bytes(&mut data, lamports, 8);
    assert(data@ =~= sol_transfer_payload(lamports));
    ix.data = data;
    Ok(ix)
}

/// Builds the instruction that initializes a mint.
pub fn build_initialize_mint(
    mint: &PublicAddress,
    authority: &PublicAddress,
    decimals: u8,
) -> (result: Result<Instruction, BuildError>)
    ensures
        result is Ok,
        result.unwrap()@ == initialize_mint_instruction(mint@, authority@, decimals),
{
    let program = token_program();
    match token_initialize_mint(&program, mint, authority, decimals) {
        Ok(ix) => Ok(ix),
        Err(reason) => Err(BuildError::Rejected { reason }),
    }
}

/// Builds the instruction that mints `amount` into the token account
/// `account`.
pub fn build_mint_to(
    mint: &PublicAddress,
    account: &PublicAddress,
    authority: &PublicAddress,
    amount: u64,
) -> (result: Result<Instruction, BuildError>)
    ensures
        result is Ok,
        result.unwrap()@ == mint_to_instruction(mint@, account@, authority@, amount),
{
    let program = token_program();
    match token_mint_to(&program, mint, account, authority, amount) {
        Ok(ix) => Ok(ix),
        Err(reason) => Err(BuildError::Rejected { reason }),
    }
}

/// Builds the instruction that moves `amount` between two token accounts.
pub fn build_token_transfer(
    source: &PublicAddress,
    destination: &PublicAddress,
    authority: &PublicAddress,
    amount: u64,
) -> (result: Result<Instruction, BuildError>)
    ensures
        result is Ok,
        result.unwrap()@ == token_transfer_instruction(source@, destination@, authority@, amount),
{
    let program = token_program();
    match token_transfer(&program, source, destination, authority, amount) {
        Ok(ix) => Ok(ix),
        Err(reason) => Err(BuildError::Rejected { reason }),
    }
}

} // verus!
