use nestr_cli::api_client::{
    error_detail, error_for_status, extract_error_detail, is_success, json_text, pick_error_detail,
    retry_after_refresh, validate_path, NestrError,
};
use nestr_cli::json::{unwrap_data, Json};

fn s(x: &str) -> Json {
    Json::Str(x.to_string())
}

fn n(x: &str) -> Json {
    Json::Number(x.to_string())
}

fn obj(members: Vec<(&str, Json)>) -> Json {
    Json::Object(members.into_iter().map(|(k, v)| (k.to_string(), v)).collect())
}

fn arr(items: Vec<Json>) -> Json {
    Json::Array(items)
}

#[test]
fn unwrap_data_pulls_data_when_wrapped() {
    let v = obj(vec![
        ("status", s("ok")),
        ("data", arr(vec![obj(vec![("_id", s("a"))])])),
        ("meta", obj(vec![("total", n("1"))])),
        ("links", obj(vec![("next", s("x"))])),
    ]);
    let (data, meta, links) = unwrap_data(v);
    assert_eq!(data, arr(vec![obj(vec![("_id", s("a"))])]));
    assert_eq!(meta, Some(obj(vec![("total", n("1"))])));
    assert_eq!(links, Some(obj(vec![("next", s("x"))])));
}

#[test]
fn unwrap_data_passes_through_bare_object() {
    let make = || obj(vec![("_id", s("u1")), ("profile", obj(vec![("fullName", s("A"))]))]);
    let (data, meta, links) = unwrap_data(make());
    assert_eq!(data, make());
    assert!(meta.is_none() && links.is_none());
}

#[test]
fn unwrap_data_passes_through_bare_array() {
    let make = || arr(vec![obj(vec![("_id", s("a"))]), obj(vec![("_id", s("b"))])]);
    let (data, _, _) = unwrap_data(make());
    assert_eq!(data, make());
}

#[test]
fn unwrap_data_keeps_object_that_only_has_data_key() {
    // A real nest could legitimately have a `data` field with no envelope siblings.
    let make = || obj(vec![("data", obj(vec![("k", n("1"))]))]);
    let (data, _, _) = unwrap_data(make());
    assert_eq!(data, make());
}

#[test]
fn unwrap_data_with_meta_only_sibling() {
    let v = obj(vec![("data", s("d")), ("meta", obj(vec![("page", n("2"))]))]);
    let (data, meta, links) = unwrap_data(v);
    assert_eq!(data, s("d"));
    assert_eq!(meta, Some(obj(vec![("page", n("2"))])));
    assert_eq!(links, None);
}

#[test]
fn validate_path_accepts_normal_routes() {
    assert!(validate_path("/nests/abc/search").is_ok());
    assert!(validate_path("/workspaces/ws1/users/u-1/groups").is_ok());
    assert!(validate_path("/nests/a,b,c").is_ok()); // multi-id route
    assert!(validate_path("/users/me/notifications/mark-all-read").is_ok());
}

#[test]
fn validate_path_rejects_traversal_and_injection() {
    assert!(validate_path("/nests/../workspaces/W/webhooks/X").is_err());
    assert!(validate_path("/nests/abc?x=1").is_err()); // query injection
    assert!(validate_path("/nests/abc#frag").is_err());
    assert!(validate_path("/nests/a b").is_err()); // space
    assert!(validate_path("/nests/.").is_err());
}

#[test]
fn validate_path_messages() {
    match validate_path("/nests/..").unwrap_err() {
        NestrError::Validation(m) => {
            assert_eq!(m, "illegal path segment '..' in request path '/nests/..'")
        }
        _ => panic!("expected a validation error"),
    }
    match validate_path("/a/b?c").unwrap_err() {
        NestrError::Validation(m) => {
            assert_eq!(m, "illegal characters in id/path segment 'b?c' (request path '/a/b?c')")
        }
        _ => panic!("expected a validation error"),
    }
    assert!(validate_path("").is_ok());
    assert!(validate_path("//x//").is_ok());
}

#[test]
fn status_mapping() {
    assert!(is_success(200) && is_success(299) && !is_success(300) && !is_success(199));
    assert!(matches!(
        error_for_status(403, Some("Bad token".into()), "raw".into()),
        NestrError::Permission(m) if m == "Bad token. Check your token/scopes (run `nestr auth status`)."
    ));
    assert!(matches!(
        error_for_status(401, None, "raw".into()),
        NestrError::Permission(m) if m.starts_with("raw.")
    ));
    assert!(matches!(error_for_status(404, None, "gone".into()), NestrError::NotFound(m) if m == "gone"));
    assert!(matches!(error_for_status(402, Some("Pro".into()), "x".into()), NestrError::PlanRequired(m) if m == "Pro"));
    assert!(matches!(error_for_status(422, None, "bad".into()), NestrError::Validation(m) if m == "bad"));
    assert!(matches!(error_for_status(400, None, "bad".into()), NestrError::Validation(_)));
    assert!(matches!(
        error_for_status(500, None, "boom".into()),
        NestrError::Api { status: 500, message } if message == "boom"
    ));
}

#[test]
fn extracts_message_field() {
    // Nestr insights-style error body
    let body = r#"{"status":"error","message":"Pro plan required"}"#;
    assert_eq!(extract_error_detail(body), Some("Pro plan required".to_string()));
}

#[test]
fn extracts_description_field() {
    // Nestr default error body
    let body = r#"{"description":"Nest not found"}"#;
    assert_eq!(extract_error_detail(body), Some("Nest not found".to_string()));
}

#[test]
fn returns_none_for_unstructured_body() {
    assert_eq!(extract_error_detail("plain text error"), None);
    assert_eq!(extract_error_detail(r#"{"other":"x"}"#), None);
}

#[test]
fn extract_error_detail_prefers_message_and_skips_empty() {
    assert_eq!(
        extract_error_detail(r#"{"error":"E","description":"D","message":"M"}"#),
        Some("M".to_string())
    );
    assert_eq!(
        extract_error_detail(r#"{"message":"","description":3,"error":"E"}"#),
        Some("E".to_string())
    );
    assert_eq!(extract_error_detail(r#"["message"]"#), None);
    assert_eq!(extract_error_detail(""), None);
}

#[test]
fn error_detail_of_parsed_values() {
    let body = obj(vec![("status", s("error")), ("message", s("Pro plan required"))]);
    assert_eq!(error_detail(&body), Some("Pro plan required".to_string()));
    assert_eq!(error_detail(&s("plain text error")), None);
}

#[test]
fn error_detail_skips_empty_members() {
    let body = obj(vec![("message", s("")), ("description", n("3")), ("error", s("E"))]);
    assert_eq!(error_detail(&body), Some("E".to_string()));
    assert_eq!(pick_error_detail(Some("".into()), Some("d".into()), None), Some("d".to_string()));
    assert_eq!(pick_error_detail(None, None, None), None);
}

#[test]
fn refresh_retry_and_empty_bodies() {
    assert!(retry_after_refresh(403, true));
    assert!(!retry_after_refresh(403, false));
    assert!(!retry_after_refresh(401, true));
    assert_eq!(json_text(""), "{}");
    assert_eq!(json_text(" \n\t"), "{}");
    assert_eq!(json_text(" [1] "), " [1] ");
}

#[test]
fn error_messages() {
    assert_eq!(NestrError::NotFound("x".into()).to_string(), "not found: x");
    assert_eq!(
        NestrError::Api { status: 503, message: "down".into() }.to_string(),
        "API error (503): down"
    );
    assert_eq!(NestrError::Auth("no".into()).to_string(), "authentication failed: no");
}
