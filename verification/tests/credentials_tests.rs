use ustats::credentials::{access_token, oauth_section, token_from_keychain_output};

fn token(succeeded: bool, out: &str) -> Option<String> {
    token_from_keychain_output(succeeded, out.as_bytes().to_vec())
}

#[test]
fn extracts_the_access_token() {
    let out = r#"{"claudeAiOauth":{"accessToken":"sk-ant-oat01-abc","refreshToken":"r","expiresAt":1}}"#;
    assert_eq!(token(true, out), Some("sk-ant-oat01-abc".to_string()));
}

#[test]
fn surrounding_whitespace_is_trimmed() {
    let out = "\n  {\"claudeAiOauth\": {\"accessToken\": \"tok\"}}\n\u{a0}";
    assert_eq!(token(true, out), Some("tok".to_string()));
}

#[test]
fn failed_query_gives_nothing() {
    let out = r#"{"claudeAiOauth":{"accessToken":"tok"}}"#;
    assert_eq!(token(false, out), None);
}

#[test]
fn malformed_or_incomplete_documents_give_nothing() {
    assert_eq!(token(true, ""), None);
    assert_eq!(token(true, "not json"), None);
    assert_eq!(token(true, "[1,2]"), None);
    assert_eq!(token(true, r#"{"other":{"accessToken":"tok"}}"#), None);
    assert_eq!(token(true, r#"{"claudeAiOauth":"tok"}"#), None);
    assert_eq!(token(true, r#"{"claudeAiOauth":{"accessToken":""}}"#), None);
    assert_eq!(token(true, r#"{"claudeAiOauth":{"accessToken":42}}"#), None);
    assert_eq!(token(true, r#"{"claudeAiOauth":[{"accessToken":"tok"}]}"#), None);
}

#[test]
fn escapes_and_unicode_survive() {
    let out = r#"{"claudeAiOauth":{"accessToken":"a\"b\\c\u00e9"}}"#;
    assert_eq!(token(true, out), Some("a\"b\\c\u{e9}".to_string()));
}

#[test]
fn invalid_utf8_gives_nothing() {
    let mut bytes = br#"{"claudeAiOauth":{"accessToken":"tok"}}"#.to_vec();
    bytes.push(0xff);
    assert_eq!(token_from_keychain_output(true, bytes), None);
}

#[test]
fn duplicate_keys_keep_the_last_value() {
    let out = r#"{"claudeAiOauth":{"accessToken":"first","accessToken":"second"}}"#;
    let parsed: serde_json::Value = serde_json::from_str(out).unwrap();
    let expected = parsed["claudeAiOauth"]["accessToken"].as_str().map(|s| s.to_string());
    assert_eq!(token(true, out), expected);
}

#[test]
fn member_helpers() {
    let members = vec![
        ("a".to_string(), true, "x".to_string()),
        ("claudeAiOauth".to_string(), false, "{\"accessToken\":\"t\"}".to_string()),
    ];
    assert_eq!(oauth_section(&members), Some("{\"accessToken\":\"t\"}".to_string()));
    let inner = vec![("accessToken".to_string(), true, "t".to_string())];
    assert_eq!(access_token(&inner), Some("t".to_string()));
    let inner = vec![("accessToken".to_string(), false, "7".to_string())];
    assert_eq!(access_token(&inner), None);
}
