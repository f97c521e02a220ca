use eventstore_tcp::auth::UsernamePassword;
use eventstore_tcp::errors::CredentialError;
use eventstore_tcp::errors::DecodeError;

fn text_of(len: usize) -> String {
    "x".repeat(len)
}

#[test]
fn new_keeps_both_fields() {
    let token = UsernamePassword::new("admin".to_string(), "changeit".to_string()).unwrap();
    assert_eq!(token.username(), "admin");
    assert_eq!(token.password(), "changeit");
    let (username, password) = token.into_parts();
    assert_eq!(username, "admin");
    assert_eq!(password, "changeit");
}

#[test]
fn new_accepts_254_bytes() {
    let token = UsernamePassword::new(text_of(254), text_of(254));
    assert!(token.is_ok());
}

#[test]
fn new_rejects_a_long_username() {
    let r = UsernamePassword::new(text_of(255), "p".to_string());
    assert!(matches!(r, Err(CredentialError::UsernameTooLong)));
    let r = UsernamePassword::new(text_of(4000), text_of(4000));
    assert!(matches!(r, Err(CredentialError::UsernameTooLong)));
}

#[test]
fn new_rejects_a_long_password() {
    let r = UsernamePassword::new("u".to_string(), text_of(255));
    assert!(matches!(r, Err(CredentialError::PasswordTooLong)));
}

#[test]
fn new_counts_bytes_not_characters() {
    // 127 characters of two bytes each: 254 bytes
    assert!(UsernamePassword::new("é".repeat(127), String::new()).is_ok());
    // 128 of them: 256 bytes
    let r = UsernamePassword::new("é".repeat(128), String::new());
    assert!(matches!(r, Err(CredentialError::UsernameTooLong)));
}

#[test]
fn encode_writes_lengths_and_bytes() {
    let token = UsernamePassword::new("ab".to_string(), "é".to_string()).unwrap();
    let mut out = vec![0x7f];
    let written = token.encode(&mut out);
    assert_eq!(written, 6);
    assert_eq!(out, vec![0x7f, 2, b'a', b'b', 2, 0xc3, 0xa9]);
}

#[test]
fn encode_of_empty_fields() {
    let token = UsernamePassword::new(String::new(), String::new()).unwrap();
    let mut out = Vec::new();
    assert_eq!(token.encode(&mut out), 2);
    assert_eq!(out, vec![0, 0]);
}

#[test]
fn decode_reads_exactly_the_block() {
    let bytes = vec![2, b'a', b'b', 3, b'x', b'y', b'z', 0xde, 0xad];
    let (token, used) = match UsernamePassword::decode(&bytes) {
        Ok(r) => r,
        Err(e) => panic!("decoding failed: {:?}", e),
    };
    assert_eq!(used, 7);
    assert_eq!(token.username(), "ab");
    assert_eq!(token.password(), "xyz");
}

#[test]
fn decode_inverts_encode() {
    let token = UsernamePassword::new("käyttäjä".to_string(), "salasana".to_string()).unwrap();
    let mut out = Vec::new();
    let written = token.encode(&mut out);
    let (back, used) = match UsernamePassword::decode(&out) {
        Ok(r) => r,
        Err(e) => panic!("decoding failed: {:?}", e),
    };
    assert_eq!(used, written);
    assert!(back == token);
}

#[test]
fn decode_accepts_a_full_length_byte() {
    let mut bytes = vec![255u8];
    bytes.extend(vec![b'a'; 255]);
    bytes.push(0);
    let (token, used) = match UsernamePassword::decode(&bytes) {
        Ok(r) => r,
        Err(e) => panic!("decoding failed: {:?}", e),
    };
    assert_eq!(used, 257);
    assert_eq!(token.username().len(), 255);
    let mut out = Vec::new();
    token.encode(&mut out);
    assert_eq!(out, bytes);
}

#[test]
fn decode_reports_invalid_utf8() {
    assert!(matches!(
        UsernamePassword::decode(&[2, 0xc3, 0x28, 0]),
        Err(DecodeError::InvalidEncoding)
    ));
    assert!(matches!(
        UsernamePassword::decode(&[1, b'a', 1, 0x80]),
        Err(DecodeError::InvalidEncoding)
    ));
}

#[test]
fn decode_reports_missing_bytes() {
    assert!(matches!(UsernamePassword::decode(&[]), Err(DecodeError::Truncated)));
    assert!(matches!(UsernamePassword::decode(&[3, b'a']), Err(DecodeError::Truncated)));
    assert!(matches!(UsernamePassword::decode(&[1, b'a']), Err(DecodeError::Truncated)));
    assert!(matches!(UsernamePassword::decode(&[1, b'a', 2, b'b']), Err(DecodeError::Truncated)));
}
