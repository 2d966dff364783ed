use solkit::codec::{decode_base58, encode_base58};
use solkit::keys::{
    keypair_from_secret, parse_address, parse_signature, sign, verify, InvalidAddress,
    InvalidSecret, InvalidSignature, PublicAddress, SecretMaterial, Signature,
};
use std::str::FromStr;

const SECRET_1: &str =
    "49W385L4rePHy6PAaQUovbD2aacgN4HsKXSMeUzRg4fmwXszN91JuMFrQRj3vMDpZuRF3ZknQBuRBoWQJEfXstMw";
const ADDRESS_1: &str = "FVen3X669xLzsi6N2V91DoiyzHzg1uAgqiT8jZ9nS96Z";
const SECRET_2: &str =
    "2Y4QjyJVZf9tTmTPP1SY9ACpFYTo7brW9iCQ8SunQht5yQ2r1U9KsVv5aMsCGnzj3NR8KG9P3NY7FKBiYbbTJ2no";
const ADDRESS_2: &str = "586Z7H2vpX9qNhN2T4e9Utugie3ogjbxzGaMtM3E6HR5";

fn hex(text: &str) -> Vec<u8> {
    (0..text.len() / 2).map(|i| u8::from_str_radix(&text[2 * i..2 * i + 2], 16).unwrap()).collect()
}

#[test]
fn parse_address_reads_32_bytes() {
    let address = parse_address(ADDRESS_1).unwrap();
    assert_eq!(
        address.bytes.to_vec(),
        hex("d75a980182b10ab7d54bfed3c964073a0ee172f3daa62325af021a68f707511a")
    );
    assert_eq!(parse_address("11111111111111111111111111111111"), Ok(PublicAddress { bytes: [0; 32] }));
}

#[test]
fn parse_address_after_encode_is_identity() {
    let mut bytes = [0u8; 32];
    for round in 0..40u32 {
        for (i, b) in bytes.iter_mut().enumerate() {
            *b = ((i as u32 * 31 + round * 17) % 256) as u8;
        }
        if round % 3 == 0 {
            bytes[0] = 0;
            bytes[1] = 0;
        }
        assert_eq!(parse_address(&encode_base58(&bytes)), Ok(PublicAddress { bytes }));
    }
    assert_eq!(parse_address(&encode_base58(&[255; 32])), Ok(PublicAddress { bytes: [255; 32] }));
}

#[test]
fn parse_address_tells_bad_text_from_wrong_length() {
    assert_eq!(parse_address("not-valid-base58!!"), Err(InvalidAddress::BadEncoding));
    assert_eq!(parse_address("0OIl"), Err(InvalidAddress::BadEncoding));
    assert_eq!(parse_address(""), Err(InvalidAddress::WrongLength));
    assert_eq!(
        parse_address("7DUeBUtEcb7nujVZRJmeBju3X1mo6PpnWNtJ9EBhdY"),
        Err(InvalidAddress::WrongLength)
    );
    assert_eq!(
        parse_address("365efUdXGhRExyDEUeKXWPg1zTZyfvuJQJDLsS7JZqzyt"),
        Err(InvalidAddress::WrongLength)
    );
    assert_eq!(parse_address(SECRET_1), Err(InvalidAddress::WrongLength));
    assert_eq!(
        parse_address("1111111111111111111111111111111"),
        Err(InvalidAddress::WrongLength)
    );
    assert_eq!(
        parse_address("111111111111111111111111111111111"),
        Err(InvalidAddress::WrongLength)
    );
}

#[test]
fn parse_address_agrees_with_the_ledger_sdk() {
    for text in [
        ADDRESS_1,
        ADDRESS_2,
        "11111111111111111111111111111111",
        "TokenkegQfeZyiNwAJbNbGKPFXCWuBvf9Ss623VQ5DA",
        "",
        "abc",
        "not-valid-base58!!",
        SECRET_1,
        "7DUeBUtEcb7nujVZRJmeBju3X1mo6PpnWNtJ9EBhdY",
        "365efUdXGhRExyDEUeKXWPg1zTZyfvuJQJDLsS7JZqzyt",
        "111111111111111111111111111111111",
        "FVen3X669xLzsi6N2V91DoiyzHzg1uAgqiT8jZ9nS96Z ",
    ] {
        let ours = parse_address(text).ok().map(|a| a.bytes);
        let theirs = solana_sdk::pubkey::Pubkey::from_str(text).ok().map(|p| p.to_bytes());
        assert_eq!(ours, theirs, "{:?}", text);
    }
}

#[test]
fn parse_signature_reads_64_bytes() {
    let text = "5awYiUvGiDFA33EJjj4TXJG44a5afJc8QjWRpGgQiu6b23jCr7yndW2fmp9ujwqJVe32J456wV3VF78Asb1obnTc";
    let signature = parse_signature(text).unwrap();
    assert_eq!(
        signature.bytes.to_vec(),
        hex("e5564300c360ac729086e2cc806e828a84877f1eb8e5d974d873e065224901555fb8821590a33bacc61e39701cf9b46bd25bf5f0595bbe24655141438e7a100b")
    );
    assert_eq!(encode_base58(&signature.bytes), text);
}

#[test]
fn parse_signature_tells_bad_text_from_wrong_length() {
    assert_eq!(parse_signature("not-valid-base58!!"), Err(InvalidSignature::BadEncoding));
    assert_eq!(parse_signature(""), Err(InvalidSignature::WrongLength));
    assert_eq!(parse_signature(ADDRESS_1), Err(InvalidSignature::WrongLength));
    assert_eq!(
        parse_signature(
            "23FdBkwDAnpcaYKRQj9wVcdVLPSxf8cbktmjKsE1Pdj3ivdkTzKJb6ftqDVkfjL6n1EbjNza4jc14CMf2wqDNUX"
        ),
        Err(InvalidSignature::WrongLength)
    );
}

#[test]
fn keypair_from_secret_reads_a_key_pair() {
    let secret = keypair_from_secret(SECRET_1).unwrap();
    assert_eq!(secret.to_bytes().to_vec(), decode_base58(SECRET_1).unwrap());
    assert_eq!(
        secret.to_bytes()[..32].to_vec(),
        hex("9d61b19deffd5a60ba844af492ec2cc44449c5697b326919703bac031cae7f60")
    );
    assert_eq!(encode_base58(&secret.public_address().bytes), ADDRESS_1);
    assert_eq!(secret.public_address().bytes.to_vec(), secret.to_bytes()[32..].to_vec());
}

#[test]
fn keypair_from_secret_rejects_bad_text() {
    let error = keypair_from_secret("not-valid-base58!!").unwrap_err();
    assert_eq!(error, InvalidSecret::BadEncoding);
    assert_eq!(error.message(), "Invalid base58 encoding");
}

#[test]
fn keypair_from_secret_rejects_wrong_lengths() {
    for text in [
        "",
        "BbMQkQYZspmkytduTWvXEtc4mMURjsekJDvty2WtKeSb",
        "GMkH3brNXiNNs1tiFZHu4yZSRrzJwxi5wB9bHFtMinfCXNnR1adh8Vo8NTheK4evneedH4qmvjeqcBBNAefgS",
        ADDRESS_1,
    ] {
        let error = keypair_from_secret(text).unwrap_err();
        assert_eq!(error, InvalidSecret::WrongLength, "{:?}", text);
        assert_eq!(error.message(), "Invalid keypair: must be 64 bytes");
    }
    let mut longer = decode_base58(SECRET_1).unwrap();
    longer.push(1);
    assert_eq!(
        keypair_from_secret(&encode_base58(&longer)).unwrap_err(),
        InvalidSecret::WrongLength
    );
}

#[test]
fn keypair_from_secret_rejects_a_public_key_of_another_seed() {
    let text =
        "49W385L4rePHy6PAaQUovbD2aacgN4HsKXSMeUzRg4fmmAKmRtx9Zv4guQziLvixpzbwmuov52LhLMddT2YyY2gT";
    let error = keypair_from_secret(text).unwrap_err();
    assert_eq!(error, InvalidSecret::Rejected);
    assert_eq!(error.message(), "Invalid keypair: must be 64 bytes");
    let zeros = "1111111111111111111111111111111111111111111111111111111111111111";
    assert_eq!(keypair_from_secret(zeros).unwrap_err(), InvalidSecret::Rejected);
    assert!(SecretMaterial::from_bytes([0u8; 64]).is_none());
}

#[test]
fn secret_from_bytes_takes_a_key_pair() {
    let bytes: [u8; 64] = decode_base58(SECRET_2).unwrap().try_into().unwrap();
    let secret = SecretMaterial::from_bytes(bytes).unwrap();
    assert_eq!(secret.to_bytes(), bytes);
    assert_eq!(encode_base58(&secret.public_address().bytes), ADDRESS_2);
}

#[test]
fn sign_gives_the_reference_signatures() {
    let first = keypair_from_secret(SECRET_1).unwrap();
    assert_eq!(
        sign(&first, b"").bytes.to_vec(),
        hex("e5564300c360ac729086e2cc806e828a84877f1eb8e5d974d873e065224901555fb8821590a33bacc61e39701cf9b46bd25bf5f0595bbe24655141438e7a100b")
    );
    let second = keypair_from_secret(SECRET_2).unwrap();
    assert_eq!(
        sign(&second, &[0x72]).bytes.to_vec(),
        hex("92a009a9f0d4cab8720e820b5f642540a2b27b5416503f8fb3762223ebdb69da085ac1e43e15996e458f3613d0f11d8c387b2eaeb4302aeeb00d291612bb0c00")
    );
}

#[test]
fn sign_is_deterministic() {
    let secret = keypair_from_secret(SECRET_1).unwrap();
    assert_eq!(sign(&secret, b"hello world"), sign(&secret, b"hello world"));
    assert_ne!(sign(&secret, b"hello world"), sign(&secret, b"hello world "));
}

#[test]
fn sign_then_verify_holds_and_any_altered_byte_breaks_it() {
    for text in [SECRET_1, SECRET_2] {
        let secret = keypair_from_secret(text).unwrap();
        let address = secret.public_address();
        let message = b"pay 12 to alice".to_vec();
        let signature = sign(&secret, &message);
        assert!(verify(&address, &signature, &message));
        for i in 0..message.len() {
            for flip in [1u8, 0x80, 0xff] {
                let mut altered = message.clone();
                altered[i] ^= flip;
                assert!(!verify(&address, &signature, &altered));
            }
        }
        let mut shorter = message.clone();
        shorter.pop();
        assert!(!verify(&address, &signature, &shorter));
        assert!(verify(&address, &sign(&secret, b""), b""));
    }
}

#[test]
fn verify_answers_false_for_the_wrong_key_or_signature() {
    let secret = keypair_from_secret(SECRET_1).unwrap();
    let other = parse_address(ADDRESS_2).unwrap();
    let signature = sign(&secret, b"abc");
    assert!(!verify(&other, &signature, b"abc"));
    let mut broken = signature;
    broken.bytes[10] ^= 4;
    assert!(!verify(&secret.public_address(), &broken, b"abc"));
    assert!(!verify(&secret.public_address(), &Signature { bytes: [0; 64] }, b"abc"));
    assert!(!verify(&PublicAddress { bytes: [0; 32] }, &signature, b"abc"));
    assert!(!verify(&PublicAddress { bytes: [255; 32] }, &signature, b"abc"));
}

#[test]
fn generated_key_pairs_are_key_pairs() {
    let first = SecretMaterial::generate();
    let second = SecretMaterial::generate();
    assert_ne!(first.to_bytes(), second.to_bytes());
    let again = SecretMaterial::from_bytes(first.to_bytes()).unwrap();
    assert_eq!(again.public_address(), first.public_address());
    let signature = sign(&first, b"fresh");
    assert!(verify(&first.public_address(), &signature, b"fresh"));
    assert!(!verify(&second.public_address(), &signature, b"fresh"));
}
