use reset_tokens::handlers::{secure, vulnerable};
use reset_tokens::token_generator::is_uuid_v4_format;

#[test]
fn vulnerable_endpoint_repeats_token() {
    let request = vulnerable::UserRequest {
        user_id: String::from("bob"),
    };
    let first = vulnerable::forgot_password(&request);
    let second = vulnerable::forgot_password(&request);
    assert_eq!(first.token, second.token);
    assert!(first.token.starts_with("bob-"));
}

#[test]
fn secure_endpoint_fresh_tokens() {
    let first = secure::forgot_password();
    let second = secure::forgot_password();
    assert_ne!(first.token, second.token);
    assert!(is_uuid_v4_format(&first.token));
    assert!(is_uuid_v4_format(&second.token));
}
