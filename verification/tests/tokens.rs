use reset_tokens::token_generator::{
    generate_secure_token, generate_vulnerable_token, is_uuid_v4_format,
};
use std::collections::HashSet;

fn is_decimal(s: &str) -> bool {
    !s.is_empty() && s.chars().all(|c| c.is_ascii_digit())
}

#[test]
fn vulnerable_same_user_identical() {
    let first = generate_vulnerable_token("alice");
    let second = generate_vulnerable_token("alice");
    assert_eq!(first, second);
    for _ in 0..10 {
        assert_eq!(generate_vulnerable_token("alice"), first);
    }
}

#[test]
fn vulnerable_pinned_value() {
    assert_eq!(generate_vulnerable_token("alice"), "alice-3622306099");
    assert_eq!(generate_vulnerable_token(""), "-3622306099");
}

#[test]
fn vulnerable_distinct_users_share_suffix() {
    let alice = generate_vulnerable_token("alice");
    let bob = generate_vulnerable_token("bob");
    let suffix_alice = &alice["alice".len()..];
    let suffix_bob = &bob["bob".len()..];
    assert_eq!(suffix_alice, suffix_bob);
    assert!(suffix_alice.starts_with('-'));
    assert!(is_decimal(&suffix_alice[1..]));
}

#[test]
fn vulnerable_empty_user() {
    let token = generate_vulnerable_token("");
    assert!(token.starts_with('-'));
    assert!(is_decimal(&token[1..]));
}

#[test]
fn vulnerable_token_shape() {
    let token = generate_vulnerable_token("alice");
    assert!(token.starts_with("alice-"));
    assert!(is_decimal(&token["alice-".len()..]));
}

#[test]
fn secure_tokens_pairwise_distinct() {
    let mut seen: HashSet<String> = HashSet::new();
    for _ in 0..1000 {
        let token = generate_secure_token();
        assert!(seen.insert(token));
    }
}

#[test]
fn secure_token_canonical_form() {
    for _ in 0..100 {
        let token = generate_secure_token();
        assert_eq!(token.len(), 36);
        for (i, c) in token.chars().enumerate() {
            if i == 8 || i == 13 || i == 18 || i == 23 {
                assert_eq!(c, '-');
            } else {
                assert!(c.is_ascii_digit() || ('a'..='f').contains(&c));
            }
        }
        let bytes = token.as_bytes();
        assert_eq!(bytes[14], b'4');
        assert!(matches!(bytes[19], b'8' | b'9' | b'a' | b'b'));
        assert!(is_uuid_v4_format(&token));
    }
}

#[test]
fn format_checker_accepts_canonical_text() {
    assert!(is_uuid_v4_format("67e55044-10b1-426f-9247-bb680e5fe0c8"));
    assert!(is_uuid_v4_format("00000000-0000-4000-8000-000000000000"));
}

#[test]
fn format_checker_rejects_malformed_text() {
    assert!(!is_uuid_v4_format(""));
    assert!(!is_uuid_v4_format("67e55044-10b1-426f-9247-bb680e5fe0c"));
    assert!(!is_uuid_v4_format("67e55044-10b1-426f-9247-bb680e5fe0c8a"));
    assert!(!is_uuid_v4_format("67E55044-10B1-426F-9247-BB680E5FE0C8"));
    assert!(!is_uuid_v4_format("67e55044-10b1-126f-9247-bb680e5fe0c8"));
    assert!(!is_uuid_v4_format("67e55044-10b1-426f-7247-bb680e5fe0c8"));
    assert!(!is_uuid_v4_format("67e55044x10b1-426f-9247-bb680e5fe0c8"));
    assert!(!is_uuid_v4_format("67e5504410b1-426f--9247-bb680e5fe0c8"));
}
