use base64::Engine;

use session_auth::api_error::ApiErrorType;
use session_auth::token::{SessionId, TokenCodec};

fn secret() -> Vec<u8> {
    b"a sufficiently long demo secret".to_vec()
}

fn id_from(bytes: [u8; 16]) -> SessionId {
    SessionId::from_bytes(bytes.to_vec()).expect("16 bytes make a session id")
}

#[test]
fn round_trip_recovers_the_identifier() {
    let codec = TokenCodec::new(secret());
    let id = id_from([7u8; 16]);
    let token = codec.encrypt(&id).expect("encryption succeeds");
    assert!(!token.is_empty());
    let back = codec.decrypt(token.as_str()).expect("the minted token decrypts");
    assert_eq!(back.as_bytes(), id.as_bytes());
}

#[test]
fn round_trip_is_exact_for_every_byte_pattern_tried() {
    let codec = TokenCodec::new(secret());
    for seed in 0u8..8 {
        let mut bytes = [0u8; 16];
        for (i, b) in bytes.iter_mut().enumerate() {
            *b = seed.wrapping_mul(31).wrapping_add(i as u8);
        }
        let id = id_from(bytes);
        let token = codec.encrypt(&id).expect("encryption succeeds");
        let back = codec.decrypt(token.as_str()).expect("decrypts");
        assert_eq!(back.as_bytes().as_slice(), &bytes);
    }
}

#[test]
fn truncated_token_is_unauthorized() {
    let codec = TokenCodec::new(secret());
    let id = id_from([1u8; 16]);
    let token = codec.encrypt(&id).expect("encryption succeeds");
    let truncated = &token[..token.len() / 2];
    match codec.decrypt(truncated) {
        Err(e) => assert!(matches!(e, ApiErrorType::Unauthorized)),
        Ok(_) => panic!("a truncated token must not decrypt"),
    }
}

#[test]
fn bit_flipped_token_is_unauthorized() {
    let engine = &base64::engine::general_purpose::URL_SAFE;
    let codec = TokenCodec::new(secret());
    let id = id_from([2u8; 16]);
    let token = codec.encrypt(&id).expect("encryption succeeds");
    let mut blob = engine.decode(&token).expect("the token is valid base64");
    let last = blob.len() - 1;
    blob[last] ^= 0x01;
    let tampered = engine.encode(&blob);
    match codec.decrypt(tampered.as_str()) {
        Err(e) => assert!(matches!(e, ApiErrorType::Unauthorized)),
        Ok(_) => panic!("a tampered token must not decrypt"),
    }
}

#[test]
fn wrong_alphabet_is_unauthorized() {
    let codec = TokenCodec::new(secret());
    for bad in ["!!not-base64!!", "abc def", "####", "\u{00e9}\u{00e9}"] {
        match codec.decrypt(bad) {
            Err(e) => assert!(matches!(e, ApiErrorType::Unauthorized)),
            Ok(_) => panic!("garbage must not decrypt"),
        }
    }
}

#[test]
fn empty_token_is_unauthorized() {
    let codec = TokenCodec::new(secret());
    match codec.decrypt("") {
        Err(e) => assert!(matches!(e, ApiErrorType::Unauthorized)),
        Ok(_) => panic!("the empty token must not decrypt"),
    }
}

#[test]
fn foreign_key_is_unauthorized() {
    let codec_a = TokenCodec::new(secret());
    let codec_b = TokenCodec::new(b"a different secret entirely!".to_vec());
    let id = id_from([3u8; 16]);
    let token = codec_a.encrypt(&id).expect("encryption succeeds");
    match codec_b.decrypt(token.as_str()) {
        Err(e) => assert!(matches!(e, ApiErrorType::Unauthorized)),
        Ok(_) => panic!("a token under another key must not decrypt"),
    }
}

#[test]
fn wrong_plaintext_length_is_unauthorized() {
    // A well-formed ciphertext of the right secret whose plaintext is not 16
    // bytes must still be rejected.
    let blob = simple_crypt::encrypt(b"short", secret().as_slice()).expect("encrypts");
    let token = base64::engine::general_purpose::URL_SAFE.encode(&blob);
    let codec = TokenCodec::new(secret());
    match codec.decrypt(token.as_str()) {
        Err(e) => assert!(matches!(e, ApiErrorType::Unauthorized)),
        Ok(_) => panic!("a 5-byte plaintext is not a session id"),
    }
}

#[test]
fn session_id_from_bytes_requires_16() {
    assert!(SessionId::from_bytes(vec![0u8; 16]).is_ok());
    for n in [0usize, 1, 15, 17, 32] {
        match SessionId::from_bytes(vec![0u8; n]) {
            Err(e) => assert!(matches!(e, ApiErrorType::Unauthorized)),
            Ok(_) => panic!("{n} bytes must not make a session id"),
        }
    }
}

#[test]
fn error_labels_are_exact() {
    assert_eq!(ApiErrorType::BadRequest.label(), "Bad Request");
    assert_eq!(ApiErrorType::DbError.label(), "DB Error");
    assert_eq!(
        ApiErrorType::NotFoundError.label(),
        "Not found requested API endpoint"
    );
    assert_eq!(ApiErrorType::Unauthorized.label(), "Unauthorized");
    assert_eq!(ApiErrorType::Expired.label(), "Expired");
}

#[test]
fn unexpected_label_is_generic_and_detail_goes_to_the_log_only() {
    let e = ApiErrorType::Unexpected("connection pool exhausted".to_string());
    assert_eq!(e.label(), "Unexpected Error");
    assert_eq!(
        e.detail().expect("the catch-all carries its cause").as_str(),
        "connection pool exhausted"
    );
    assert!(ApiErrorType::DbError.detail().is_none());
    assert!(ApiErrorType::Unauthorized.detail().is_none());
}
