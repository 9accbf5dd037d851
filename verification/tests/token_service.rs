use forkforge::auth::token_service::{to_hex_lower, TokenService};
use uuid::Uuid;

#[test]
fn test_generate_api_token() {
    let token1 = TokenService::generate_api_token();
    let token2 = TokenService::generate_api_token();

    // Tokens should be unique
    assert_ne!(token1, token2);

    // Should be valid UUID format
    assert!(Uuid::parse_str(&token1).is_ok());
}

#[test]
fn test_hash_token() {
    let token = "test-token";
    let user_id = "550e8400-e29b-41d4-a716-446655440000";

    let hash1 = TokenService::hash_token(token, user_id);
    let hash2 = TokenService::hash_token(token, user_id);

    // Same token + salt should produce same hash
    assert_eq!(hash1, hash2);

    // Hash should be 64 chars (SHA256 hex)
    assert_eq!(hash1.len(), 64);

    // Different tokens should produce different hashes
    let different_hash = TokenService::hash_token("different-token", user_id);
    assert_ne!(hash1, different_hash);

    // Same token with different salt should produce different hash
    let different_salt_hash = TokenService::hash_token(token, "different-user-id");
    assert_ne!(hash1, different_salt_hash);
}

#[test]
fn generated_token_has_hyphenated_lower_case_form() {
    let token = TokenService::generate_api_token();
    assert_eq!(token.len(), 36);
    for (i, c) in token.chars().enumerate() {
        if i == 8 || i == 13 || i == 18 || i == 23 {
            assert_eq!(c, '-');
        } else {
            assert!(c.is_ascii_digit() || ('a'..='f').contains(&c));
        }
    }
    assert_eq!(token.chars().nth(14), Some('4'));
    assert!("89ab".contains(token.chars().nth(19).unwrap()));
    let parsed = Uuid::parse_str(&token).unwrap();
    assert_eq!(parsed.get_version_num(), 4);
    assert_eq!(parsed.to_string(), token);
}

#[test]
fn hash_of_known_message_is_its_sha256_in_hex() {
    // SHA-256("abc"), split between token and salt in every way.
    let expected = "ba7816bf8f01cfea414140de5dae2223b00361a396177a9cb410ff61f20015ad";
    assert_eq!(TokenService::hash_token("abc", ""), expected);
    assert_eq!(TokenService::hash_token("ab", "c"), expected);
    assert_eq!(TokenService::hash_token("", "abc"), expected);
}

#[test]
fn hash_of_empty_token_and_salt_is_sha256_of_nothing() {
    assert_eq!(
        TokenService::hash_token("", ""),
        "e3b0c44298fc1c149afbf4c8996fb92427ae41e4649b934ca495991b7852b855"
    );
}

#[test]
fn hash_takes_the_utf8_bytes_of_token_and_salt() {
    // SHA-256 of the two bytes c3 a9.
    let from_token = TokenService::hash_token("é", "");
    let from_salt = TokenService::hash_token("", "é");
    assert_eq!(from_token, from_salt);
    assert_eq!(from_token.len(), 64);
    assert_ne!(from_token, TokenService::hash_token("e", ""));
}

#[test]
fn hash_is_not_the_token_handed_back() {
    let hash = TokenService::hash_token("test-token", "salt");
    assert_ne!(hash, "test-token");
    assert!(hash.chars().all(|c| c.is_ascii_digit() || ('a'..='f').contains(&c)));
}

#[test]
fn hex_rendering_of_bytes() {
    assert_eq!(to_hex_lower(&[]), "");
    assert_eq!(to_hex_lower(&[0x00]), "00");
    assert_eq!(to_hex_lower(&[0x0f, 0xf0, 0xff]), "0ff0ff");
    assert_eq!(to_hex_lower(&[0xde, 0xad, 0xbe, 0xef]), "deadbeef");
    assert_eq!(to_hex_lower(&[0x12, 0x34, 0x56, 0x78, 0x9a, 0xbc]), "123456789abc");
}
