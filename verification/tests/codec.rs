use solkit::codec::{decode_base58, decode_base64, encode_base58, encode_base64, DecodeError};

#[test]
fn base58_known_vector() {
    assert_eq!(encode_base58(&[0x04, 0x30, 0x5e, 0x2b, 0x24, 0x73, 0xf0, 0x58]), "he11owor1d");
    assert_eq!(
        decode_base58("he11owor1d"),
        Ok(vec![0x04, 0x30, 0x5e, 0x2b, 0x24, 0x73, 0xf0, 0x58])
    );
}

#[test]
fn base58_rejects_foreign_characters() {
    assert_eq!(decode_base58("not-valid-base58!!"), Err(DecodeError::InvalidEncoding));
}

#[test]
fn base58_rejects_the_four_look_alikes() {
    for text in ["0", "O", "I", "l", "abc0", "Il"] {
        assert_eq!(decode_base58(text), Err(DecodeError::InvalidEncoding), "{}", text);
    }
}

#[test]
fn base58_rejects_non_ascii() {
    assert_eq!(decode_base58("hé11o"), Err(DecodeError::InvalidEncoding));
    assert_eq!(decode_base58("abc "), Err(DecodeError::InvalidEncoding));
}

#[test]
fn base58_empty_text_is_no_bytes() {
    assert_eq!(encode_base58(&[]), "");
    assert_eq!(decode_base58(""), Ok(vec![]));
}

#[test]
fn base58_leading_zero_bytes_become_ones() {
    assert_eq!(encode_base58(&[0u8; 32]), "11111111111111111111111111111111");
    assert_eq!(decode_base58("11111111111111111111111111111111"), Ok(vec![0u8; 32]));
    assert_eq!(encode_base58(&[0, 0, 1]), "112");
    assert_eq!(decode_base58("112"), Ok(vec![0, 0, 1]));
    assert_eq!(decode_base58("1"), Ok(vec![0]));
}

#[test]
fn base58_single_digits() {
    assert_eq!(encode_base58(&[57]), "z");
    assert_eq!(encode_base58(&[58]), "21");
    assert_eq!(decode_base58("z"), Ok(vec![57]));
    assert_eq!(decode_base58("21"), Ok(vec![58]));
    assert_eq!(encode_base58(&[255]), "5Q");
    assert_eq!(encode_base58(&[1, 0]), "5R");
}

#[test]
fn base58_round_trip_on_samples() {
    let mut sample: Vec<u8> = Vec::new();
    for k in 0..70u32 {
        assert_eq!(decode_base58(&encode_base58(&sample)), Ok(sample.clone()));
        sample.push((k.wrapping_mul(37) % 251) as u8);
    }
    let mut zeros_then: Vec<u8> = vec![0, 0, 0, 0];
    zeros_then.extend_from_slice(&[9, 0, 0, 200]);
    assert_eq!(decode_base58(&encode_base58(&zeros_then)), Ok(zeros_then));
}

#[test]
fn base58_text_round_trip_on_samples() {
    for text in ["he11owor1d", "111", "z", "FVen3X669xLzsi6N2V91DoiyzHzg1uAgqiT8jZ9nS96Z"] {
        let bytes = decode_base58(text).unwrap();
        assert_eq!(encode_base58(&bytes), text);
    }
}

#[test]
fn base64_known_vectors() {
    assert_eq!(encode_base64(b""), "");
    assert_eq!(encode_base64(b"f"), "Zg==");
    assert_eq!(encode_base64(b"fo"), "Zm8=");
    assert_eq!(encode_base64(b"foo"), "Zm9v");
    assert_eq!(encode_base64(b"foob"), "Zm9vYg==");
    assert_eq!(encode_base64(b"fooba"), "Zm9vYmE=");
    assert_eq!(encode_base64(b"foobar"), "Zm9vYmFy");
    assert_eq!(encode_base64(&[0xfb, 0xff, 0xbf]), "+/+/");
    assert_eq!(encode_base64(&[0xff]), "/w==");
}

#[test]
fn base64_decodes_known_vectors() {
    assert_eq!(decode_base64(""), Ok(vec![]));
    assert_eq!(decode_base64("Zg=="), Ok(b"f".to_vec()));
    assert_eq!(decode_base64("Zm8="), Ok(b"fo".to_vec()));
    assert_eq!(decode_base64("Zm9v"), Ok(b"foo".to_vec()));
    assert_eq!(decode_base64("Zm9vYmFy"), Ok(b"foobar".to_vec()));
    assert_eq!(decode_base64("+/+/"), Ok(vec![0xfb, 0xff, 0xbf]));
}

#[test]
fn base64_rejects_what_no_encoding_looks_like() {
    for text in [
        "Zg", "Zg=", "Zm8", "Z", "Z===", "====", "=", "Zh==", "Zm9=", "Zm9v=", "Zm9v====",
        "Zg==Zg==", "Zm 9v", "Zm9v\n", "Zm9-", "Zm9_", "Zg==\n", " Zg==",
    ] {
        assert_eq!(decode_base64(text), Err(DecodeError::InvalidEncoding), "{:?}", text);
    }
}

#[test]
fn base64_round_trip_on_samples() {
    let mut sample: Vec<u8> = Vec::new();
    for k in 0..50u32 {
        assert_eq!(decode_base64(&encode_base64(&sample)), Ok(sample.clone()));
        sample.push((k.wrapping_mul(91) % 256) as u8);
    }
}
