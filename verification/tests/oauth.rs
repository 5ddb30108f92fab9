use base64::{engine::general_purpose::URL_SAFE_NO_PAD, Engine};
use sha2::{Digest, Sha256};

use nestr_cli::config::CredentialStorage;
use nestr_cli::oauth::{
    after_refresh, build_auth_url, callback_from_pairs, callback_outcome, callback_reply, code_exchange_form,
    current_refresh_token, generate_pkce, generate_state, http_response, pct_encode,
    pkce_challenge, redirect_uri, refresh_form, rotated_refresh_token, token_plan,
    tokens_to_stored, tokens_to_stored_at, unix_now_secs, CallbackOutcome, StoredOAuthTokens,
    TokenError, TokenPlan, TokenResponse,
};

fn response(access: &str, refresh: Option<&str>, expires_in: Option<u64>) -> TokenResponse {
    TokenResponse {
        access_token: access.to_string(),
        token_type: Some("Bearer".to_string()),
        expires_in,
        refresh_token: refresh.map(str::to_string),
        id_token: None,
        scope: None,
    }
}

fn stored(access: &str, refresh: Option<&str>, expiry: Option<u64>) -> StoredOAuthTokens {
    StoredOAuthTokens {
        access_token: access.to_string(),
        refresh_token: refresh.map(str::to_string),
        id_token: None,
        expiry,
    }
}

#[test]
fn challenge_is_s256_of_verifier() {
    let (verifier, challenge) = generate_pkce();
    let expected = URL_SAFE_NO_PAD.encode(Sha256::digest(verifier.as_bytes()));
    assert_eq!(challenge, expected);
    assert!(!verifier.is_empty());
}

#[test]
fn pkce_challenge_of_a_known_verifier() {
    // RFC 7636 appendix B.
    assert_eq!(
        pkce_challenge("dBjftJeZ4CVP-mB92K27uhbUJU1p1r_wW1gFWFOEjXk"),
        "E9Melhoa2OwvFrEMTJguCHaoeK1t8URWbuGJSstw-cM"
    );
}

#[test]
fn state_is_43_url_safe_chars() {
    let s = generate_state();
    assert_eq!(s.len(), 43);
    assert!(s.chars().all(|c| c.is_ascii_alphanumeric() || c == '-' || c == '_'));
    assert_ne!(generate_state(), s);
}

#[test]
fn auth_url_contains_required_params() {
    let url = build_auth_url(
        "https://app.nestr.io/dialog/oauth",
        "nestr-cli",
        "http://127.0.0.1:21783/callback",
        "CHALLENGE",
        "STATE",
    );
    assert!(url.starts_with("https://app.nestr.io/dialog/oauth?"));
    assert!(url.contains("response_type=code"));
    assert!(url.contains("client_id=nestr-cli"));
    assert!(url.contains("code_challenge=CHALLENGE"));
    assert!(url.contains("code_challenge_method=S256"));
    assert!(url.contains("state=STATE"));
    assert!(url.contains("scope=user%20nest"));
}

#[test]
fn auth_url_is_exact() {
    let url = build_auth_url("https://h/a", "c i", "http://127.0.0.1:1/cb", "X", "S");
    assert_eq!(
        url,
        "https://h/a?response_type=code&client_id=c%20i&redirect_uri=http%3A%2F%2F127.0.0.1%3A1%2Fcb&scope=user%20nest&code_challenge=X&code_challenge_method=S256&state=S"
    );
}

#[test]
fn pct_encode_keeps_unreserved_and_encodes_utf8() {
    assert_eq!(pct_encode("AZaz09-_.~"), "AZaz09-_.~");
    assert_eq!(pct_encode("a b/c"), "a%20b%2Fc");
    assert_eq!(pct_encode("é"), "%C3%A9");
    assert_eq!(pct_encode(""), "");
}

#[test]
fn stored_tokens_validity_uses_expiry() {
    let now = unix_now_secs();
    let valid = StoredOAuthTokens {
        access_token: "t".into(),
        refresh_token: None,
        id_token: None,
        expiry: Some(now + 600),
    };
    let expired = StoredOAuthTokens {
        access_token: "t".into(),
        refresh_token: None,
        id_token: None,
        expiry: Some(now.saturating_sub(10)),
    };
    assert!(valid.is_valid());
    assert!(!expired.is_valid());
}

#[test]
fn validity_needs_thirty_seconds_left() {
    assert!(stored("t", None, Some(131)).is_valid_at(100));
    assert!(!stored("t", None, Some(130)).is_valid_at(100));
    assert!(!stored("t", None, None).is_valid_at(0));
}

#[test]
fn tokens_are_stored_with_absolute_expiry() {
    let s = tokens_to_stored_at(&response("a", Some("r"), Some(3600)), 1000);
    assert_eq!(s.access_token, "a");
    assert_eq!(s.refresh_token.as_deref(), Some("r"));
    assert_eq!(s.expiry, Some(4600));
    let s = tokens_to_stored_at(&response("a", None, Some(10)), u64::MAX - 1);
    assert_eq!(s.expiry, Some(u64::MAX));
    let s = tokens_to_stored(&response("a", None, None));
    assert_eq!(s.expiry, None);
}

#[test]
fn token_plan_uses_refreshes_or_fails() {
    let now = 1000;
    let valid = stored("acc", Some("ref"), Some(2000));
    let expired = stored("acc", Some("ref"), Some(1010));
    let dead = stored("acc", None, Some(10));
    assert!(matches!(
        token_plan("p", CredentialStorage::File, Some(&valid), None, now),
        Ok(TokenPlan::Use(a)) if a == "acc"
    ));
    assert!(matches!(
        token_plan("p", CredentialStorage::File, Some(&expired), None, now),
        Ok(TokenPlan::Refresh(r)) if r == "ref"
    ));
    assert!(matches!(
        token_plan("p", CredentialStorage::OsStore, Some(&valid), None, now),
        Err(TokenError::NoSession(n)) if n == "p"
    ));
    let e = token_plan("p", CredentialStorage::OsStore, None, Some(&dead), now).unwrap_err();
    assert_eq!(e.to_string(), "OAuth session expired for 'p'. Run `nestr auth login`.");
    let e = token_plan("q", CredentialStorage::File, None, None, now).unwrap_err();
    assert_eq!(e.to_string(), "No OAuth session for 'q'. Run `nestr auth login`.");
}

#[test]
fn after_refresh_persists_only_for_file_storage() {
    let r = response("new", Some("r2"), Some(60));
    let (bearer, keep) = after_refresh(CredentialStorage::OsStore, &r, 5);
    assert_eq!(bearer, "new");
    assert!(keep.is_none());
    let (bearer, keep) = after_refresh(CredentialStorage::File, &r, 5);
    assert_eq!(bearer, "new");
    let keep = keep.unwrap();
    assert_eq!(keep.access_token, "new");
    assert_eq!(keep.expiry, Some(65));
}

#[test]
fn current_refresh_token_reads_the_profiles_store() {
    let f = stored("a", Some("file-rt"), None);
    let k = stored("a", Some("key-rt"), None);
    assert_eq!(
        current_refresh_token(CredentialStorage::File, Some(&f), Some(&k)),
        Some("file-rt".to_string())
    );
    assert_eq!(
        current_refresh_token(CredentialStorage::OsStore, Some(&f), Some(&k)),
        Some("key-rt".to_string())
    );
    assert_eq!(current_refresh_token(CredentialStorage::OsStore, Some(&f), None), None);
}

#[test]
fn callback_request_outcomes() {
    assert!(matches!(
        callback_outcome("GET /callback?code=abc&state=xyz HTTP/1.1\r\n", "xyz"),
        CallbackOutcome::Code(c) if c == "abc"
    ));
    assert!(matches!(
        callback_outcome("GET /callback?code=abc&state=bad HTTP/1.1", "xyz"),
        CallbackOutcome::StateMismatch
    ));
    assert!(matches!(
        callback_outcome("GET /favicon.ico HTTP/1.1", "xyz"),
        CallbackOutcome::Ignored
    ));
    assert!(matches!(
        callback_outcome("GET /callback?code=abc HTTP/1.1", "xyz"),
        CallbackOutcome::Ignored
    ));
    assert!(matches!(callback_outcome("GARBAGE", "xyz"), CallbackOutcome::Malformed));
    assert!(matches!(
        callback_outcome("GET /callback?code=a%20b&state=s%2F1 HTTP/1.1", "s/1"),
        CallbackOutcome::Code(c) if c == "a b"
    ));
}

#[test]
fn callback_replies() {
    assert_eq!(callback_reply(&CallbackOutcome::Ignored), Some((204, "")));
    assert_eq!(callback_reply(&CallbackOutcome::StateMismatch), Some((400, "State mismatch.")));
    assert_eq!(callback_reply(&CallbackOutcome::Malformed), None);
    assert_eq!(callback_reply(&CallbackOutcome::Code("c".into())).unwrap().0, 200);
}

#[test]
fn http_responses_are_exact() {
    assert_eq!(
        http_response(204, ""),
        "HTTP/1.1 204 No Content\r\nContent-Length: 0\r\nConnection: close\r\n\r\n"
    );
    assert_eq!(
        http_response(400, "State mismatch."),
        "HTTP/1.1 400 Bad Request\r\nContent-Type: text/html\r\nContent-Length: 15\r\nConnection: close\r\n\r\nState mismatch."
    );
    assert_eq!(
        http_response(500, "é"),
        "HTTP/1.1 200 OK\r\nContent-Type: text/html\r\nContent-Length: 2\r\nConnection: close\r\n\r\né"
    );
}

#[test]
fn token_endpoint_forms() {
    assert_eq!(redirect_uri(21783), "http://127.0.0.1:21783/callback");
    let f = code_exchange_form("cid", "code1", "http://r", "ver");
    assert_eq!(
        f,
        vec![
            ("grant_type".to_string(), "authorization_code".to_string()),
            ("client_id".to_string(), "cid".to_string()),
            ("code".to_string(), "code1".to_string()),
            ("redirect_uri".to_string(), "http://r".to_string()),
            ("code_verifier".to_string(), "ver".to_string()),
        ]
    );
    let f = refresh_form("cid", "rt");
    assert_eq!(f.len(), 3);
    assert_eq!(f[0], ("grant_type".to_string(), "refresh_token".to_string()));
    assert_eq!(f[2], ("refresh_token".to_string(), "rt".to_string()));
    assert_eq!(rotated_refresh_token("old", &response("a", Some("new"), None)), "new");
    assert_eq!(rotated_refresh_token("old", &response("a", None, None)), "old");
}

#[test]
fn callback_pairs_decide_the_outcome() {
    let p = |v: &[(&str, &str)]| v.iter().map(|(a, b)| (a.to_string(), b.to_string())).collect::<Vec<_>>();
    assert!(matches!(
        callback_from_pairs(&p(&[("code", "c1"), ("state", "s")]), "s"),
        CallbackOutcome::Code(c) if c == "c1"
    ));
    assert!(matches!(
        callback_from_pairs(&p(&[("code", "c1"), ("state", "x"), ("state", "s")]), "s"),
        CallbackOutcome::Code(c) if c == "c1"
    ));
    assert!(matches!(
        callback_from_pairs(&p(&[("code", "c1"), ("state", "x")]), "s"),
        CallbackOutcome::StateMismatch
    ));
    assert!(matches!(callback_from_pairs(&p(&[("state", "s")]), "s"), CallbackOutcome::Ignored));
}
