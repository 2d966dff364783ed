//! The well-known addresses that the instructions name, as bytes, with the
//! proof that each is what its published text stands for.

use vstd::prelude::*;
use crate::base58::{
    byte_digits, decoding, encoding, is_symbol, lemma_same_numeral, lemma_symbols, symbol,
    symbol_digits, well_formed,
};
use crate::keys::PublicAddress;
use crate::radix::{
    leading_zeros, lemma_leading_zeros_of_padded, lemma_value_ignores_leading_zeros,
    lemma_value_push, value_be, zeros,
};

verus! {

/// A text that is written with the symbols of `digits` stands for `bytes`,
/// and is the text of `bytes`, where digits and bytes are worth the same and
/// start with as many zeros.
proof fn lemma_text_of_digits(text: Seq<char>, digits: Seq<nat>, bytes: Seq<u8>)
    requires
        text.len() == digits.len(),
        forall|i: int|
            #![trigger digits[i]]
            0 <= i < digits.len() ==> digits[i] < 58 && text[i] == symbol(digits[i]),
        value_be(digits, 58) == value_be(byte_digits(bytes), 256),
        leading_zeros(digits) == leading_zeros(byte_digits(bytes)),
    ensures
        decoding(text) == Some(bytes),
        encoding(bytes) == text,
{
    lemma_symbols();
    assert(well_formed(text)) by {
        assert forall|i: int| 0 <= i < text.len() implies is_symbol(#[trigger] text[i]) by {
            assert(digits[i] < 58 && text[i] == symbol(digits[i]));
        }
    }
    assert(symbol_digits(text) =~= digits) by {
        assert forall|i: int| 0 <= i < digits.len() implies symbol_digits(text)[i]
            == digits[i] by {
            assert(digits[i] < 58 && text[i] == symbol(digits[i]));
        }
    }
    lemma_same_numeral(text, bytes);
}

/// The system program, as text.
pub open spec fn system_program_text() -> Seq<char> {
    "11111111111111111111111111111111"@
}

/// The system program, as bytes: 32 zeros.
pub open spec fn system_program_id() -> Seq<u8> {
    seq![0u8; 32]
}

/// The system program is what its text stands for, and its text is the text
/// of its bytes.
pub proof fn lemma_system_program()
    ensures
        decoding(system_program_text()) == Some(system_program_id()),
        encoding(system_program_id()) == system_program_text(),
{
    let text = system_program_text();
    let digits = zeros(32);
    let none = Seq::<nat>::empty();
    assert(text.len() == 32 && (forall|i: int| 0 <= i < 32 ==> text[i] == symbol(0))) by {
        reveal_strlit("11111111111111111111111111111111");
        reveal_strlit("123456789ABCDEFGHJKLMNPQRSTUVWXYZabcdefghijkmnopqrstuvwxyz");
    }
    assert(digits + none =~= digits);
    assert(byte_digits(system_program_id()) =~= digits);
    lemma_value_ignores_leading_zeros(32, none, 58);
    lemma_value_ignores_leading_zeros(32, none, 256);
    lemma_leading_zeros_of_padded(32, none);
    lemma_text_of_digits(text, digits, system_program_id());
}

/// The token program, as text.
pub open spec fn token_program_text() -> Seq<char> {
    "TokenkegQfeZyiNwAJbNbGKPFXCWuBvf9Ss623VQ5DA"@
}

/// The token program, as bytes.
pub open spec fn token_program_id() -> Seq<u8> {
    seq![
        6u8, 221, 246, 225, 215, 101, 161, 147, 217, 203, 225, 70, 206, 235, 121, 172, 28, 180,
        133, 237, 95, 91, 55, 145, 58, 140, 245, 133, 126, 255, 0, 169,
    ]
}

/// The digits that the symbols of the text of the token program stand for.
spec fn token_program_digits() -> Seq<nat> {
    Seq::<nat>::empty().push(26).push(46).push(43).push(37).push(45).push(43).push(37).push(39)
        .push(23).push(38).push(37).push(32).push(56).push(41).push(21).push(54).push(9)
        .push(17).push(34).push(21).push(34).push(15).push(18).push(22).push(14).push(30)
        .push(11).push(29).push(52).push(10).push(53).push(38).push(8).push(25).push(50).push(5)
        .push(1).push(2).push(28).push(23).push(4).push(12).push(9)
}

proof fn lemma_token_program_symbols()
    ensures
        token_program_text().len() == 43,
        token_program_digits().len() == 43,
        forall|i: int|
            #![trigger token_program_digits()[i]]
            0 <= i < 43 ==> token_program_digits()[i] < 58 && token_program_text()[i] == symbol(
                token_program_digits()[i],
            ),
{
    reveal_strlit("TokenkegQfeZyiNwAJbNbGKPFXCWuBvf9Ss623VQ5DA");
    reveal_strlit("123456789ABCDEFGHJKLMNPQRSTUVWXYZabcdefghijkmnopqrstuvwxyz");
}

proof fn lemma_token_program_value()
    ensures
        value_be(token_program_digits(), 58) == value_be(byte_digits(token_program_id()), 256),
        leading_zeros(token_program_digits()) == 0,
        leading_zeros(byte_digits(token_program_id())) == 0,
{
    broadcast use lemma_value_push;

    let value = 0x6ddf6e1d765a193d9cbe146ceeb79ac1cb485ed5f5b37913a8cf5857eff00a9nat;
    assert(value_be(token_program_digits(), 58) == value);
    let bytes: Seq<nat> =
        Seq::<nat>::empty().push(6).push(221).push(246).push(225).push(215).push(101).push(161)
            .push(147).push(217).push(203).push(225).push(70).push(206).push(235).push(121)
            .push(172).push(28).push(180).push(133).push(237).push(95).push(91).push(55)
            .push(145).push(58).push(140).push(245).push(133).push(126).push(255).push(0)
            .push(169);
    assert(byte_digits(token_program_id()) =~= bytes);
    assert(value_be(bytes, 256) == value);
}

/// The token program is what its text stands for, and its text is the text
/// of its bytes.
pub proof fn lemma_token_program()
    ensures
        decoding(token_program_text()) == Some(token_program_id()),
        encoding(token_program_id()) == token_program_text(),
{
    lemma_token_program_symbols();
    lemma_token_program_value();
    lemma_text_of_digits(token_program_text(), token_program_digits(), token_program_id());
}

/// The associated-token-account program, as text.
pub open spec fn associated_program_text() -> Seq<char> {
    "ATokenGPvbdGVxr1b2hvZbsiqW5xWH25efTNsLJA8knL"@
}

/// The associated-token-account program, as bytes.
pub open spec fn associated_program_id() -> Seq<u8> {
    seq![
        140u8, 151, 37, 143, 78, 36, 137, 241, 187, 61, 16, 41, 20, 142, 13, 131, 11, 90, 19,
        153, 218, 255, 16, 132, 4, 142, 123, 216, 219, 233, 248, 89,
    ]
}

/// The digits that the symbols of the text of the associated-token-account
/// program stand for.
spec fn associated_program_digits() -> Seq<nat> {
    Seq::<nat>::empty().push(9).push(26).push(46).push(43).push(37).push(45).push(15).push(22)
        .push(53).push(34).push(36).push(15).push(28).push(55).push(49).push(0).push(34).push(1)
        .push(40).push(53).push(32).push(34).push(50).push(41).push(48).push(29).push(4)
        .push(55).push(29).push(16).push(1).push(4).push(37).push(38).push(26).push(21).push(50)
        .push(19).push(17).push(9).push(7).push(43).push(45).push(19)
}

proof fn lemma_associated_program_symbols()
    ensures
        associated_program_text().len() == 44,
        associated_program_digits().len() == 44,
        forall|i: int|
            #![trigger associated_program_digits()[i]]
            0 <= i < 44 ==> associated_program_digits()[i] < 58 && associated_program_text()[i]
                == symbol(associated_program_digits()[i]),
{
    reveal_strlit("ATokenGPvbdGVxr1b2hvZbsiqW5xWH25efTNsLJA8knL");
    reveal_strlit("123456789ABCDEFGHJKLMNPQRSTUVWXYZabcdefghijkmnopqrstuvwxyz");
}

proof fn lemma_associated_program_value()
    ensures
        value_be(associated_program_digits(), 58) == value_be(
            byte_digits(associated_program_id()),
            256,
        ),
        leading_zeros(associated_program_digits()) == 0,
        leading_zeros(byte_digits(associated_program_id())) == 0,
{
    broadcast use lemma_value_push;

    let value = 0x8c97258f4e2489f1bb3d1029148e0d830b5a1399daff1084048e7bd8dbe9f859nat;
    assert(value_be(associated_program_digits(), 58) == value);
    let bytes: Seq<nat> =
        Seq::<nat>::empty().push(140).push(151).push(37).push(143).push(78).push(36).push(137)
            .push(241).push(187).push(61).push(16).push(41).push(20).push(142).push(13)
            .push(131).push(11).push(90).push(19).push(153).push(218).push(255).push(16)
            .push(132).push(4).push(142).push(123).push(216).push(219).push(233).push(248)
            .push(89);
    assert(byte_digits(associated_program_id()) =~= bytes);
    assert(value_be(bytes, 256) == value);
}

/// The associated-token-account program is what its text stands for, and
/// its text is the text of its bytes.
pub proof fn lemma_associated_program()
    ensures
        decoding(associated_program_text()) == Some(associated_program_id()),
        encoding(associated_program_id()) == associated_program_text(),
{
    lemma_associated_program_symbols();
    lemma_associated_program_value();
    lemma_text_of_digits(
        associated_program_text(),
        associated_program_digits(),
        associated_program_id(),
    );
}

/// The rent sysvar, as text.
pub open spec fn rent_sysvar_text() -> Seq<char> {
    "SysvarRent111111111111111111111111111111111"@
}

/// The rent sysvar, as bytes.
pub open spec fn rent_sysvar_id() -> Seq<u8> {
    seq![
        6u8, 167, 213, 23, 25, 44, 92, 81, 33, 140, 201, 76, 61, 74, 241, 127, 88, 218, 238, 8,
        155, 161, 253, 68, 227, 219, 217, 138, 0, 0, 0, 0,
    ]
}

/// The digits that the symbols of the text of the rent sysvar stand for.
spec fn rent_sysvar_digits() -> Seq<nat> {
    Seq::<nat>::empty().push(25).push(56).push(50).push(53).push(33).push(49).push(24).push(37)
        .push(45).push(51).push(0).push(0).push(0).push(0).push(0).push(0).push(0).push(0)
        .push(0).push(0).push(0).push(0).push(0).push(0).push(0).push(0).push(0).push(0).push(0)
        .push(0).push(0).push(0).push(0).push(0).push(0).push(0).push(0).push(0).push(0).push(0)
        .push(0).push(0).push(0)
}

proof fn lemma_rent_sysvar_symbols()
    ensures
        rent_sysvar_text().len() == 43,
        rent_sysvar_digits().len() == 43,
        forall|i: int|
            #![trigger rent_sysvar_digits()[i]]
            0 <= i < 43 ==> rent_sysvar_digits()[i] < 58 && rent_sysvar_text()[i] == symbol(
                rent_sysvar_digits()[i],
            ),
{
    reveal_strlit("SysvarRent111111111111111111111111111111111");
    reveal_strlit("123456789ABCDEFGHJKLMNPQRSTUVWXYZabcdefghijkmnopqrstuvwxyz");
}

proof fn lemma_rent_sysvar_value()
    ensures
        value_be(rent_sysvar_digits(), 58) == value_be(byte_digits(rent_sysvar_id()), 256),
        leading_zeros(rent_sysvar_digits()) == 0,
        leading_zeros(byte_digits(rent_sysvar_id())) == 0,
{
    broadcast use lemma_value_push;

    let value = 0x6a7d517192c5c51218cc94c3d4af17f58daee089ba1fd44e3dbd98a00000000nat;
    assert(value_be(rent_sysvar_digits(), 58) == value);
    let bytes: Seq<nat> =
        Seq::<nat>::empty().push(6).push(167).push(213).push(23).push(25).push(44).push(92)
            .push(81).push(33).push(140).push(201).push(76).push(61).push(74).push(241)
            .push(127).push(88).push(218).push(238).push(8).push(155).push(161).push(253)
            .push(68).push(227).push(219).push(217).push(138).push(0).push(0).push(0).push(0);
    assert(byte_digits(rent_sysvar_id()) =~= bytes);
    assert(value_be(bytes, 256) == value);
}

/// The rent sysvar is what its text stands for, and its text is the text of
/// its bytes.
pub proof fn lemma_rent_sysvar()
    ensures
        decoding(rent_sysvar_text()) == Some(rent_sysvar_id()),
        encoding(rent_sysvar_id()) == rent_sysvar_text(),
{
    lemma_rent_sysvar_symbols();
    lemma_rent_sysvar_value();
    lemma_text_of_digits(rent_sysvar_text(), rent_sysvar_digits(), rent_sysvar_id());
}

/// Calls `spl_token::id`, the address that the crate declares by the text
/// `TokenkegQfeZyiNwAJbNbGKPFXCWuBvf9Ss623VQ5DA`.
#[verifier::external_body]
fn spl_token_id() -> (id: PublicAddress)
    ensures
        id@ == token_program_id(),
{
    PublicAddress { bytes: spl_token::id().to_bytes() }
}

/// Calls `spl_associated_token_account::id`, the address that the crate
/// declares by the text `ATokenGPvbdGVxr1b2hvZbsiqW5xWH25efTNsLJA8knL`.
#[verifier::external_body]
fn spl_associated_token_account_id() -> (id: PublicAddress)
    ensures
        id@ == associated_program_id(),
{
    PublicAddress { bytes: spl_associated_token_account::id().to_bytes() }
}

/// The token program.
pub fn token_program() -> (id: PublicAddress)
    ensures
        id@ == token_program_id(),
{
    spl_token_id()
}

/// The associated-token-account program.
pub fn associated_program() -> (id: PublicAddress)
    ensures
        id@ == associated_program_id(),
{
    spl_associated_token_account_id()
}

} // verus!
