use webhook_receiver::encoding::{encode, HexError};
use webhook_receiver::signature::{sign, verify_signature, SignatureError};

const SECRET: &str = "testsecret";
const BODY: &[u8] = b"{\"zen\":\"test\"}";
const SIGNATURE: &str = "sha256=9973ed1e2e86e0a27eec9de30c322e4696cb9f7dc91a2c4096d89e01e94e87e2";

fn header(secret: &str, body: &[u8]) -> String {
    sign(secret, body).unwrap()
}

#[test]
fn sign_gives_the_known_code() {
    assert_eq!(header(SECRET, BODY), SIGNATURE);
}

#[test]
fn sign_with_empty_secret_and_body() {
    assert_eq!(
        header("", b""),
        "sha256=b613679a0814d9ec772f95d778c35fc5ff1697c493715653c6c712144292c5ad"
    );
}

#[test]
fn sign_known_vector() {
    assert_eq!(
        header("key", b"The quick brown fox jumps over the lazy dog"),
        "sha256=f7bc83f430538424b13298e6aa6fb143ef4d59a14946175997479dbc2d1a3cd8"
    );
}

#[test]
fn own_signature_verifies() {
    assert_eq!(verify_signature(SECRET, BODY, &header(SECRET, BODY)), Ok(()));
    assert_eq!(verify_signature("", b"", &header("", b"")), Ok(()));
    let long: Vec<u8> = (0..100_000u32).map(|i| (i % 251) as u8).collect();
    assert_eq!(verify_signature("s3cr3t", &long, &header("s3cr3t", &long)), Ok(()));
}

#[test]
fn known_signature_verifies() {
    assert_eq!(verify_signature(SECRET, BODY, SIGNATURE), Ok(()));
}

#[test]
fn upper_case_digits_verify() {
    let upper = format!("sha256={}", SIGNATURE[7..].to_uppercase());
    assert_eq!(verify_signature(SECRET, BODY, &upper), Ok(()));
}

#[test]
fn signature_of_another_body_is_a_mismatch() {
    let other = header(SECRET, b"{\"zen\":\"tesT\"}");
    assert_eq!(verify_signature(SECRET, BODY, &other), Err(SignatureError::Mismatch));
}

#[test]
fn signature_under_another_secret_is_a_mismatch() {
    let other = header("testsecreT", BODY);
    assert_eq!(verify_signature(SECRET, BODY, &other), Err(SignatureError::Mismatch));
}

#[test]
fn zero_code_is_a_mismatch() {
    let zeros = format!("sha256={}", "0".repeat(64));
    assert_eq!(verify_signature(SECRET, BODY, &zeros), Err(SignatureError::Mismatch));
}

#[test]
fn short_or_long_code_is_a_mismatch() {
    assert_eq!(verify_signature(SECRET, BODY, "sha256="), Err(SignatureError::Mismatch));
    assert_eq!(
        verify_signature(SECRET, BODY, &SIGNATURE[..SIGNATURE.len() - 2]),
        Err(SignatureError::Mismatch)
    );
    let long = format!("{}00", SIGNATURE);
    assert_eq!(verify_signature(SECRET, BODY, &long), Err(SignatureError::Mismatch));
}

#[test]
fn missing_prefix_is_refused() {
    assert_eq!(verify_signature(SECRET, BODY, ""), Err(SignatureError::MissingPrefix));
    assert_eq!(verify_signature(SECRET, BODY, "sha256"), Err(SignatureError::MissingPrefix));
    assert_eq!(
        verify_signature(SECRET, BODY, &SIGNATURE[7..]),
        Err(SignatureError::MissingPrefix)
    );
    let sha1 = format!("sha1={}", &SIGNATURE[7..]);
    assert_eq!(verify_signature(SECRET, BODY, &sha1), Err(SignatureError::MissingPrefix));
    let upper = format!("SHA256={}", &SIGNATURE[7..]);
    assert_eq!(verify_signature(SECRET, BODY, &upper), Err(SignatureError::MissingPrefix));
}

#[test]
fn odd_length_is_malformed() {
    assert_eq!(
        verify_signature(SECRET, BODY, "sha256=123"),
        Err(SignatureError::Malformed(HexError::OddLength))
    );
    assert_eq!(
        verify_signature(SECRET, BODY, "sha256=zzz"),
        Err(SignatureError::Malformed(HexError::OddLength))
    );
}

#[test]
fn first_bad_character_is_reported() {
    assert_eq!(
        verify_signature(SECRET, BODY, "sha256=00g0zz"),
        Err(SignatureError::Malformed(HexError::InvalidHexCharacter { c: 'g', index: 2 }))
    );
    assert_eq!(
        verify_signature(SECRET, BODY, "sha256=0 "),
        Err(SignatureError::Malformed(HexError::InvalidHexCharacter { c: ' ', index: 1 }))
    );
    assert_eq!(
        verify_signature(SECRET, BODY, "sha256=\u{e9}"),
        Err(SignatureError::Malformed(HexError::InvalidHexCharacter { c: '\u{c3}', index: 0 }))
    );
}

#[test]
fn encode_writes_lower_case_pairs() {
    assert_eq!(encode(&[1, 2, 3, 15, 16]), "0102030f10");
    assert_eq!(encode(b"Hello world!"), "48656c6c6f20776f726c6421");
    assert_eq!(encode(&[]), "");
    assert_eq!(encode(&[0x00, 0x9a, 0xff]), "009aff");
}

#[test]
fn encode_agrees_with_the_hex_crate() {
    let all: Vec<u8> = (0..=255u8).collect();
    assert_eq!(encode(&all), hex::encode(&all));
    assert_eq!(hex::decode(encode(&all)), Ok(all));
}
