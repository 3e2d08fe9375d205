//! The claims codec on concrete records: exact encodings, the round trip,
//! and corrupt inputs degrading to nothing.

use session_auth::claims::Claims;
use session_auth::codec::{decode_claims, encode_claims};

fn sample() -> Claims {
    Claims {
        sub: String::from("ab"),
        username: String::from("u@x.io"),
        uid: String::from("i"),
        exp: 10000000000,
        totp_enabled: true,
        totp_attempt: 2,
        totp: None,
    }
}

fn assert_claims_eq(a: &Claims, b: &Claims) {
    assert_eq!(a.sub, b.sub);
    assert_eq!(a.username, b.username);
    assert_eq!(a.uid, b.uid);
    assert_eq!(a.exp, b.exp);
    assert_eq!(a.totp_enabled, b.totp_enabled);
    assert_eq!(a.totp_attempt, b.totp_attempt);
    assert_eq!(a.totp, b.totp);
}

#[test]
fn encode_writes_exactly_the_documented_shape() {
    let encoded = encode_claims(&sample());
    let expected = [
        "00000000000000000002",
        "ab",
        "00000000000000000006",
        "u@x.io",
        "00000000000000000001",
        "i",
        "00000000010000000000",
        "T",
        "00000000000000000002",
        "N",
    ]
    .concat();
    assert_eq!(encoded, expected);
}

#[test]
fn round_trip_reproduces_record() {
    let c = sample();
    let back = decode_claims(encode_claims(&c).as_str()).unwrap();
    assert_claims_eq(&c, &back);
}

#[test]
fn round_trip_with_satisfied_second_factor() {
    let mut c = sample();
    c.totp = Some(10000000000);
    let back = decode_claims(encode_claims(&c).as_str()).unwrap();
    assert_claims_eq(&c, &back);
}

#[test]
fn round_trip_with_empty_strings_and_digit_names() {
    let c = Claims {
        sub: String::from(""),
        username: String::from("007"),
        uid: String::from("99999999999999999999"),
        exp: 0,
        totp_enabled: false,
        totp_attempt: 0,
        totp: Some(0),
    };
    let back = decode_claims(encode_claims(&c).as_str()).unwrap();
    assert_claims_eq(&c, &back);
}

#[test]
fn round_trip_at_largest_values() {
    let c = Claims {
        sub: String::from("s"),
        username: String::from("n"),
        uid: String::from("u"),
        exp: u64::MAX,
        totp_enabled: true,
        totp_attempt: u64::MAX,
        totp: Some(u64::MAX),
    };
    let back = decode_claims(encode_claims(&c).as_str()).unwrap();
    assert_claims_eq(&c, &back);
}

#[test]
fn round_trip_with_multibyte_characters() {
    let c = Claims {
        sub: String::from("ალისა"),
        username: String::from("ålice@exämple.com"),
        uid: String::from("идентификатор"),
        exp: 42,
        totp_enabled: true,
        totp_attempt: 7,
        totp: None,
    };
    let back = decode_claims(encode_claims(&c).as_str()).unwrap();
    assert_claims_eq(&c, &back);
}

#[test]
fn empty_input_decodes_to_nothing() {
    assert!(decode_claims("").is_none());
}

#[test]
fn truncated_input_decodes_to_nothing() {
    let encoded = encode_claims(&sample());
    let mut cut = encoded.clone();
    cut.pop();
    assert!(decode_claims(cut.as_str()).is_none());
}

#[test]
fn trailing_garbage_decodes_to_nothing() {
    let mut encoded = encode_claims(&sample());
    encoded.push('x');
    assert!(decode_claims(encoded.as_str()).is_none());
}

#[test]
fn corrupt_digit_decodes_to_nothing() {
    let encoded = encode_claims(&sample());
    let corrupted: String = encoded.replace("00000000000000000002", "0000000000000000000x");
    assert!(decode_claims(corrupted.as_str()).is_none());
}

#[test]
fn oversized_number_decodes_to_nothing() {
    // A length field beyond any 64-bit value is refused outright.
    let input = ["99999999999999999999", "ab"].concat();
    assert!(decode_claims(input.as_str()).is_none());
}
