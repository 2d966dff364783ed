use solkit::codec::encode_base58;
use solkit::instruction::{
    associated_token_address, build_initialize_mint, build_mint_to, build_sol_transfer,
    build_token_transfer, push_le_bytes, AccountRef, BuildError, Instruction,
};
use solkit::keys::{parse_address, PublicAddress};
use solkit::programs::{associated_program, token_program};

const WALLET: &str = "FVen3X669xLzsi6N2V91DoiyzHzg1uAgqiT8jZ9nS96Z";
const MINT: &str = "586Z7H2vpX9qNhN2T4e9Utugie3ogjbxzGaMtM3E6HR5";
const OTHER: &str = "Hyx62wPQGyvXCoihZq1BrbUjBRh2LuNxWiiqMkfAuSZr";
const TOKEN_PROGRAM: &str = "TokenkegQfeZyiNwAJbNbGKPFXCWuBvf9Ss623VQ5DA";
const RENT_SYSVAR: &str = "SysvarRent111111111111111111111111111111111";

fn address(text: &str) -> PublicAddress {
    parse_address(text).unwrap()
}

fn account(text: &str, is_signer: bool, is_writable: bool) -> AccountRef {
    AccountRef { address: address(text), is_signer, is_writable }
}

fn ledger_key(a: &PublicAddress) -> solana_sdk::pubkey::Pubkey {
    solana_sdk::pubkey::Pubkey::from(a.bytes)
}

fn same_as_ledger(ours: &Instruction, theirs: &solana_sdk::instruction::Instruction) {
    assert_eq!(ours.program_id.bytes, theirs.program_id.to_bytes());
    assert_eq!(ours.data, theirs.data);
    assert_eq!(ours.accounts.len(), theirs.accounts.len());
    for (a, b) in ours.accounts.iter().zip(theirs.accounts.iter()) {
        assert_eq!(a.address.bytes, b.pubkey.to_bytes());
        assert_eq!(a.is_signer, b.is_signer);
        assert_eq!(a.is_writable, b.is_writable);
    }
}

#[test]
fn le_bytes_of_a_million() {
    let mut out = vec![9u8];
    push_le_bytes(&mut out, 1_000_000, 8);
    assert_eq!(out, vec![9, 0x40, 0x42, 0x0f, 0, 0, 0, 0, 0]);
}

#[test]
fn le_bytes_widths() {
    let mut out = Vec::new();
    push_le_bytes(&mut out, 2, 4);
    assert_eq!(out, vec![2, 0, 0, 0]);
    let mut out = Vec::new();
    push_le_bytes(&mut out, 0x0102030405060708, 8);
    assert_eq!(out, vec![8, 7, 6, 5, 4, 3, 2, 1]);
    let mut out = Vec::new();
    push_le_bytes(&mut out, 0x0102030405060708, 3);
    assert_eq!(out, vec![8, 7, 6]);
    let mut out = Vec::new();
    push_le_bytes(&mut out, u64::MAX, 10);
    assert_eq!(out, vec![255, 255, 255, 255, 255, 255, 255, 255, 0, 0]);
    let mut out = vec![1, 2];
    push_le_bytes(&mut out, 77, 0);
    assert_eq!(out, vec![1, 2]);
}

#[test]
fn sol_transfer_of_a_million_lamports() {
    let ix = build_sol_transfer(&address(WALLET), &address(OTHER), 1_000_000).unwrap();
    assert_eq!(ix.data, vec![2, 0, 0, 0, 0x40, 0x42, 0x0f, 0, 0, 0, 0, 0]);
    assert_eq!(ix.program_id, PublicAddress { bytes: [0; 32] });
    assert_eq!(encode_base58(&ix.program_id.bytes), "11111111111111111111111111111111");
    assert_eq!(ix.accounts, vec![account(WALLET, true, true), account(OTHER, false, true)]);
}

#[test]
fn sol_transfer_payload_is_discriminator_then_amount() {
    for lamports in [1u64, 255, 256, 1_000_000_000, u64::MAX] {
        let ix = build_sol_transfer(&address(WALLET), &address(OTHER), lamports).unwrap();
        assert_eq!(ix.data.len(), 12);
        assert_eq!(&ix.data[..4], &2u32.to_le_bytes());
        assert_eq!(&ix.data[4..], &lamports.to_le_bytes());
    }
}

#[test]
fn sol_transfer_agrees_with_the_ledger_sdk() {
    let from = address(WALLET);
    let to = address(OTHER);
    let ours = build_sol_transfer(&from, &to, 123_456_789_012).unwrap();
    let theirs = solana_sdk::system_instruction::transfer(
        &ledger_key(&from),
        &ledger_key(&to),
        123_456_789_012,
    );
    same_as_ledger(&ours, &theirs);
}

#[test]
fn sol_transfer_of_nothing_is_refused() {
    assert_eq!(
        build_sol_transfer(&address(WALLET), &address(OTHER), 0),
        Err(BuildError::ZeroAmount)
    );
    assert_eq!(
        build_sol_transfer(&address(WALLET), &address(WALLET), 0),
        Err(BuildError::ZeroAmount)
    );
    assert_eq!(BuildError::ZeroAmount.message(), "Amount must be greater than 0");
}

#[test]
fn sol_transfer_to_oneself_is_built() {
    let ix = build_sol_transfer(&address(WALLET), &address(WALLET), 5).unwrap();
    assert_eq!(ix.accounts, vec![account(WALLET, true, true), account(WALLET, false, true)]);
}

#[test]
fn initialize_mint_golden() {
    let ix = build_initialize_mint(&address(MINT), &address(WALLET), 6).unwrap();
    assert_eq!(ix.program_id, address(TOKEN_PROGRAM));
    assert_eq!(ix.accounts, vec![account(MINT, false, true), account(RENT_SYSVAR, false, false)]);
    let mut data = vec![0u8, 6];
    data.extend_from_slice(&address(WALLET).bytes);
    data.push(0);
    assert_eq!(ix.data, data);
    assert_eq!(ix.data.len(), 35);
}

#[test]
fn initialize_mint_takes_every_number_of_decimals() {
    for decimals in [0u8, 9, 18, 255] {
        let ix = build_initialize_mint(&address(MINT), &address(OTHER), decimals).unwrap();
        assert_eq!(ix.data[0], 0);
        assert_eq!(ix.data[1], decimals);
        assert_eq!(&ix.data[2..34], &address(OTHER).bytes);
        assert_eq!(ix.data[34], 0);
    }
}

#[test]
fn initialize_mint_agrees_with_the_token_program_crate() {
    let mint = address(MINT);
    let authority = address(WALLET);
    let ours = build_initialize_mint(&mint, &authority, 9).unwrap();
    let theirs = spl_token::instruction::initialize_mint(
        &spl_token::id(),
        &ledger_key(&mint),
        &ledger_key(&authority),
        None,
        9,
    )
    .unwrap();
    same_as_ledger(&ours, &theirs);
}

#[test]
fn mint_to_golden() {
    let ix = build_mint_to(&address(MINT), &address(OTHER), &address(WALLET), 1000).unwrap();
    assert_eq!(ix.program_id, address(TOKEN_PROGRAM));
    assert_eq!(
        ix.accounts,
        vec![account(MINT, false, true), account(OTHER, false, true), account(WALLET, true, false)]
    );
    assert_eq!(ix.data, vec![7, 0xe8, 0x03, 0, 0, 0, 0, 0, 0]);
}

#[test]
fn mint_to_takes_zero_and_the_largest_amount() {
    let ix = build_mint_to(&address(MINT), &address(OTHER), &address(WALLET), 0).unwrap();
    assert_eq!(ix.data, vec![7, 0, 0, 0, 0, 0, 0, 0, 0]);
    let ix = build_mint_to(&address(MINT), &address(OTHER), &address(WALLET), u64::MAX).unwrap();
    assert_eq!(ix.data, vec![7, 255, 255, 255, 255, 255, 255, 255, 255]);
}

#[test]
fn token_transfer_golden() {
    let ix = build_token_transfer(&address(WALLET), &address(OTHER), &address(MINT), 250).unwrap();
    assert_eq!(ix.program_id, address(TOKEN_PROGRAM));
    assert_eq!(
        ix.accounts,
        vec![account(WALLET, false, true), account(OTHER, false, true), account(MINT, true, false)]
    );
    assert_eq!(ix.data, vec![3, 250, 0, 0, 0, 0, 0, 0, 0]);
}

#[test]
fn token_instructions_agree_with_the_token_program_crate() {
    let a = address(WALLET);
    let b = address(MINT);
    let c = address(OTHER);
    let ours = build_mint_to(&a, &b, &c, 77_000).unwrap();
    let theirs = spl_token::instruction::mint_to(
        &spl_token::id(),
        &ledger_key(&a),
        &ledger_key(&b),
        &ledger_key(&c),
        &[],
        77_000,
    )
    .unwrap();
    same_as_ledger(&ours, &theirs);
    let ours = build_token_transfer(&a, &b, &c, 1).unwrap();
    let theirs = spl_token::instruction::transfer(
        &spl_token::id(),
        &ledger_key(&a),
        &ledger_key(&b),
        &ledger_key(&c),
        &[],
        1,
    )
    .unwrap();
    same_as_ledger(&ours, &theirs);
}

#[test]
fn associated_token_address_golden() {
    assert_eq!(
        associated_token_address(&address(WALLET), &address(MINT)),
        Some(address("3Sg6adGSSBcGxiiqoRq2jtsM5D2tfQvpivW5YAfViCgH"))
    );
    assert_eq!(
        associated_token_address(&address(OTHER), &address(MINT)),
        Some(address("DL9csuLC1Y7pZHns4VLWh6YF8nmeYk53sKhgRFCfhc3x"))
    );
    assert_eq!(
        associated_token_address(&address(MINT), &address(OTHER)),
        Some(address("EWhmUjXnGnbZoHBjM3JqkQqHEnDLSZ9QuYL5qrc1bQFf"))
    );
}

#[test]
fn associated_token_address_agrees_with_the_account_program_crate() {
    let mut wallet = [0u8; 32];
    let mut mint = [0u8; 32];
    for round in 0..25u32 {
        for i in 0..32 {
            wallet[i] = ((i as u32 * 7 + round * 13) % 256) as u8;
            mint[i] = ((i as u32 * 11 + round * 29 + 5) % 256) as u8;
        }
        let ours = associated_token_address(
            &PublicAddress { bytes: wallet },
            &PublicAddress { bytes: mint },
        );
        let theirs = spl_associated_token_account::get_associated_token_address(
            &solana_sdk::pubkey::Pubkey::from(wallet),
            &solana_sdk::pubkey::Pubkey::from(mint),
        );
        assert_eq!(ours, Some(PublicAddress { bytes: theirs.to_bytes() }));
    }
}

#[test]
fn associated_token_address_depends_on_the_order_of_its_arguments() {
    let forward = associated_token_address(&address(WALLET), &address(MINT));
    let backward = associated_token_address(&address(MINT), &address(WALLET));
    assert_ne!(forward, backward);
    assert_ne!(forward, Some(address(WALLET)));
}

#[test]
fn well_known_programs_are_what_their_texts_stand_for() {
    assert_eq!(token_program(), address(TOKEN_PROGRAM));
    assert_eq!(
        associated_program(),
        address("ATokenGPvbdGVxr1b2hvZbsiqW5xWH25efTNsLJA8knL")
    );
    assert_eq!(
        token_program().bytes,
        [
            6, 221, 246, 225, 215, 101, 161, 147, 217, 203, 225, 70, 206, 235, 121, 172, 28, 180,
            133, 237, 95, 91, 55, 145, 58, 140, 245, 133, 126, 255, 0, 169
        ]
    );
    assert_eq!(
        associated_program().bytes,
        [
            140, 151, 37, 143, 78, 36, 137, 241, 187, 61, 16, 41, 20, 142, 13, 131, 11, 90, 19,
            153, 218, 255, 16, 132, 4, 142, 123, 216, 219, 233, 248, 89
        ]
    );
    assert_eq!(
        address(RENT_SYSVAR).bytes,
        [
            6, 167, 213, 23, 25, 44, 92, 81, 33, 140, 201, 76, 61, 74, 241, 127, 88, 218, 238, 8,
            155, 161, 253, 68, 227, 219, 217, 138, 0, 0, 0, 0
        ]
    );
    assert_eq!(token_program().bytes, spl_token::id().to_bytes());
    assert_eq!(associated_program().bytes, spl_associated_token_account::id().to_bytes());
    assert_eq!(address(RENT_SYSVAR).bytes, solana_sdk::sysvar::rent::id().to_bytes());
    assert_eq!([0u8; 32], solana_sdk::system_program::id().to_bytes());
}
