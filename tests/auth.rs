use ai_json_analysis_api::auth::{
    create_user_api_key, user_from_claims, validate_user_integration, AccessError, TokenClaims,
};

#[test]
fn test_create_user_api_key() {
    let user_id = "user_123";
    let api_key = create_user_api_key(user_id);

    assert!(api_key.starts_with("json_oracle_user_123_"));
    assert!(api_key.len() > 30);
}

#[test]
fn test_validate_user_integration() {
    let integration_id = "integration_user_123_abc";
    let user_id = "user_123";

    assert!(validate_user_integration(integration_id, user_id).is_ok());
}

#[test]
fn user_api_key_has_hex_token() {
    let key = create_user_api_key("u");
    assert_eq!(key.len(), "json_oracle_u_".len() + 32);
    assert!(key["json_oracle_u_".len()..].chars().all(|c| c.is_ascii_hexdigit()));
    assert_ne!(create_user_api_key("u"), key);
}

#[test]
fn foreign_integration_is_forbidden() {
    assert_eq!(validate_user_integration("integration_bob", "alice"), Err(AccessError::Forbidden));
}

fn claims(iss: &str) -> TokenClaims {
    TokenClaims {
        sub: "user_1".to_string(),
        email: "a@example.com".to_string(),
        given_name: Some("Ada".to_string()),
        family_name: None,
        picture: None,
        iat: 1_700_000_000,
        exp: 1_700_003_600,
        aud: "app".to_string(),
        iss: iss.to_string(),
    }
}

#[test]
fn claims_from_the_provider_make_a_user() {
    let user = user_from_claims(claims("https://x.clerk.accounts.dev")).unwrap();
    assert_eq!(user.id, "user_1");
    assert_eq!(user.first_name.as_deref(), Some("Ada"));
    assert_eq!(user.created_at, 1_700_000_000);
    assert_eq!(user_from_claims(claims("https://evil.example")).unwrap_err(), AccessError::InvalidIssuer);
}
