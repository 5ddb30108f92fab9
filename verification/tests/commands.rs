use nestr_cli::commands::{comment_body, me_lines, nested_text_body, text_body};
use nestr_cli::api_client::NestrError;
use nestr_cli::commands::{
    app_toggle_body, auth_status_lines, base, check_added_label, clean_params, clear_credentials,
    create_body, governance_body, list_has_id, map_direction, message_or, names_me,
    nest_scope_workspace, new_profile, profiles_table, resolve_assignees_with, should_set_default,
    sole_workspace_id, storage_choice, tension_body, update_body, vote_state, workspace_body,
};
use nestr_cli::config::{AuthKind, CredentialStorage, OutputFormat, Profile};
use nestr_cli::json::Json;
use nestr_cli::oauth::StoredOAuthTokens;

fn s(x: &str) -> Json {
    Json::Str(x.to_string())
}

fn obj(members: Vec<(&str, Json)>) -> Json {
    Json::Object(members.into_iter().map(|(k, v)| (k.to_string(), v)).collect())
}

fn arr(items: Vec<Json>) -> Json {
    Json::Array(items)
}

fn strs(v: &[&str]) -> Vec<String> {
    v.iter().map(|x| x.to_string()).collect()
}

#[test]
fn direction_mapping() {
    assert_eq!(map_direction("in"), "incoming");
    assert_eq!(map_direction("out"), "outgoing");
}

#[test]
fn clean_params_only_in_text_mode() {
    assert_eq!(clean_params(OutputFormat::Text), vec![("cleanText", "true")]);
    assert!(clean_params(OutputFormat::Json).is_empty());
}

#[test]
fn nest_scope_workspace_extracts_nest_id() {
    assert_eq!(nest_scope_workspace(Some("user:u1 nest:ws9")), Some("ws9".to_string()));
    assert_eq!(nest_scope_workspace(Some("nest:abc")), Some("abc".to_string()));
    assert_eq!(nest_scope_workspace(Some("user:u1")), None);
    assert_eq!(nest_scope_workspace(Some("")), None);
    assert_eq!(nest_scope_workspace(None), None);
}

#[test]
fn nest_scope_takes_the_first_nest_word() {
    assert_eq!(nest_scope_workspace(Some("  nest:a\tnest:b ")), Some("a".to_string()));
    assert_eq!(nest_scope_workspace(Some("xnest:a nest:")), Some(String::new()));
}

#[test]
fn tension_paths_and_votes() {
    assert_eq!(base("n1", "t2"), "/nests/n1/tensions/t2");
    assert_eq!(vote_state("accept"), "accepted");
    assert_eq!(vote_state("escalate"), "escalated");
}

#[test]
fn sole_workspace_only_when_exactly_one() {
    let one = arr(vec![obj(vec![("_id", s("w1"))]), obj(vec![("title", s("no id"))])]);
    assert_eq!(sole_workspace_id(&one), Some("w1".to_string()));
    let two = arr(vec![obj(vec![("_id", s("w1"))]), obj(vec![("_id", s("w2"))])]);
    assert_eq!(sole_workspace_id(&two), None);
    assert_eq!(sole_workspace_id(&obj(vec![("_id", s("w1"))])), None);
    assert!(list_has_id(&two, "w2"));
    assert!(!list_has_id(&two, "w3"));
}

#[test]
fn storage_choices() {
    assert_eq!(storage_choice("file", false).unwrap(), CredentialStorage::File);
    assert_eq!(storage_choice("os-store", true).unwrap(), CredentialStorage::OsStore);
    let e = storage_choice("os-store", false).unwrap_err();
    assert!(e.to_string().contains("Choose 'file' storage instead."));
}

#[test]
fn nest_bodies_leave_out_what_is_not_given() {
    let b = create_body(
        "T".into(),
        Some("p".into()),
        None,
        None,
        &strs(&["now"]),
        None,
        &[],
    );
    assert_eq!(
        b,
        obj(vec![("title", s("T")), ("parentId", s("p")), ("labels", arr(vec![s("now")]))])
    );
    let u = update_body(None, None, Some("d".into()), None, Some(true), None, &[], &strs(&["u1"]));
    assert_eq!(
        u,
        obj(vec![("description", s("d")), ("completed", Json::Bool(true)), ("users", arr(vec![s("u1")]))])
    );
    assert_eq!(update_body(None, None, None, None, None, None, &[], &[]), obj(vec![]));
}

#[test]
fn governance_and_tension_bodies() {
    let b = governance_body(Some("Lead".into()), None, None, None, &[], &strs(&["a"]), &strs(&["d"]));
    assert_eq!(
        b,
        obj(vec![
            ("title", s("Lead")),
            ("accountabilities", arr(vec![s("a")])),
            ("domains", arr(vec![s("d")])),
        ])
    );
    let t = tension_body(Some("Gap".into()), None, Some("sad".into()), None);
    assert_eq!(
        t,
        obj(vec![("title", s("Gap")), ("fields", obj(vec![("tension.feeling", s("sad"))]))])
    );
    assert_eq!(tension_body(None, Some("x".into()), None, None), obj(vec![("description", s("x"))]));
}

#[test]
fn workspace_body_groups_configuration() {
    let b = workspace_body("W".into(), None, None, Some("pro".into()), None, &strs(&["okr"]));
    assert_eq!(
        b,
        obj(vec![
            ("title", s("W")),
            ("configuration", obj(vec![("plan", s("pro")), ("apps", arr(vec![s("okr")]))])),
        ])
    );
    assert_eq!(workspace_body("W".into(), Some("P".into()), None, None, None, &[]), obj(vec![("title", s("W")), ("purpose", s("P"))]));
}

#[test]
fn app_toggle_sets_one_and_keeps_the_rest() {
    let apps = arr(vec![
        obj(vec![("_id", s("okr")), ("enabled", Json::Bool(false)), ("title", s("OKR"))]),
        obj(vec![("_id", s("crm")), ("enabled", Json::Bool(true))]),
        obj(vec![("_id", s("wiki"))]),
    ]);
    let b = app_toggle_body(&apps, "okr", true).unwrap();
    assert_eq!(
        b,
        arr(vec![
            obj(vec![("_id", s("okr")), ("enabled", Json::Bool(true))]),
            obj(vec![("_id", s("crm")), ("enabled", Json::Bool(true))]),
            obj(vec![("_id", s("wiki")), ("enabled", Json::Bool(false))]),
        ])
    );
    match app_toggle_body(&apps, "nope", true) {
        Err(NestrError::NotFound(m)) => assert_eq!(
            m,
            "no app 'nope' in this workspace (run `nestr workspaces apps` to list them)"
        ),
        _ => panic!("expected not found"),
    }
}

#[test]
fn assignee_me_is_resolved() {
    assert!(names_me(&strs(&["a", "me"])));
    assert!(!names_me(&strs(&["a", "Me"])));
    let me = obj(vec![("_id", s("u9"))]);
    assert_eq!(resolve_assignees_with(&strs(&["me", "u1", "me"]), &me).unwrap(), strs(&["u9", "u1", "u9"]));
    match resolve_assignees_with(&strs(&["me"]), &obj(vec![])) {
        Err(NestrError::Validation(m)) => {
            assert_eq!(m, "could not resolve `--assignee me`: /users/me returned no id")
        }
        _ => panic!("expected a validation error"),
    }
}

#[test]
fn adding_a_label_to_an_existing_nest() {
    let nest = obj(vec![("labels", arr(vec![s("now"), obj(vec![("code", s("role"))])]))]);
    assert!(check_added_label(&nest, "urgent").is_ok());
    assert!(check_added_label(&nest, "role").is_ok());
    let e = check_added_label(&nest, "project").unwrap_err();
    assert!(e.to_string().contains("already a 'role'"));
    assert!(check_added_label(&obj(vec![]), "project").is_ok());
}

#[test]
fn messages_fall_back() {
    assert_eq!(message_or(&obj(vec![("message", s("Gone"))]), "deleted"), "Gone");
    assert_eq!(message_or(&s("success"), "deleted"), "deleted");
}

fn profile(host: &str, auth: AuthKind) -> Profile {
    Profile {
        auth,
        credential_storage: CredentialStorage::File,
        host: host.into(),
        workspace_id: "ws".into(),
        api_key: Some("k".into()),
        label: None,
        oauth_client_id: None,
        oauth_token_url: None,
        oauth_authorize_url: None,
        oauth_tokens: None,
        default_output_format: None,
    }
}

#[test]
fn new_profiles_default_to_the_hosted_app() {
    let p = new_profile(true, None);
    assert_eq!(p.host, "https://app.nestr.io");
    assert_eq!(p.auth, AuthKind::OAuth);
    assert_eq!(p.default_output_format, Some(OutputFormat::Text));
    let p = new_profile(false, Some("http://localhost:4001//"));
    assert_eq!(p.host, "http://localhost:4001");
    assert_eq!(p.auth, AuthKind::ApiKey);
    assert!(p.workspace_id.is_empty());
}

#[test]
fn profiles_table_marks_the_default() {
    let entries = vec![
        ("prod".to_string(), profile("https://a", AuthKind::OAuth)),
        ("dev".to_string(), profile("https://b", AuthKind::ApiKey)),
    ];
    let out = profiles_table(&entries, "dev");
    assert!(out.contains("prod") && out.contains("oauth") && out.contains("api-key") && out.contains("yes"));
}

#[test]
fn logout_clears_credentials() {
    let mut p = profile("https://a", AuthKind::ApiKey);
    assert!(clear_credentials(&mut p));
    assert!(p.api_key.is_none() && p.oauth_tokens.is_none());
    assert!(!clear_credentials(&mut p));
    assert_eq!(p.host, "https://a");
}

#[test]
fn auth_status_report() {
    let p = profile("https://a/", AuthKind::ApiKey);
    assert_eq!(
        auth_status_lines("prod", &p, &None, 0),
        vec![
            "profile:   prod",
            "host:      https://a/",
            "api_base:  https://a/api",
            "workspace: ws",
            "auth:      api-key (File)",
        ]
    );
    let p = profile("https://a", AuthKind::OAuth);
    let t = StoredOAuthTokens { access_token: "x".into(), refresh_token: None, id_token: None, expiry: Some(100) };
    assert_eq!(auth_status_lines("p", &p, &Some(t.clone()), 10)[4], "auth:      oauth (token valid)");
    assert!(auth_status_lines("p", &p, &Some(t), 80)[4].contains("token expired"));
    assert!(auth_status_lines("p", &p, &None, 0)[4].contains("not logged in"));
}

#[test]
fn simple_bodies() {
    assert_eq!(
        text_body(vec![("title", Some("T".into())), ("description", None), ("color", Some("red".into()))]),
        obj(vec![("title", s("T")), ("color", s("red"))])
    );
    assert_eq!(
        nested_text_body(vec![("username", Some("a@b".into()))], "profile", vec![("fullName", None)]),
        obj(vec![("username", s("a@b"))])
    );
    assert_eq!(
        nested_text_body(vec![("username", None)], "profile", vec![("fullName", Some("A".into()))]),
        obj(vec![("profile", obj(vec![("fullName", s("A"))]))])
    );
    assert_eq!(
        comment_body("hi", "n1", &strs(&["x"])),
        obj(vec![("body", s("hi")), ("parentId", s("n1")), ("labels", arr(vec![s("x")]))])
    );
}

#[test]
fn me_summary() {
    let me = obj(vec![
        ("_id", s("u1")),
        ("username", s("a@b.c")),
        ("profile", obj(vec![("fullName", s("A <b>B</b>"))])),
    ]);
    assert_eq!(me_lines(&me, "prod", "ws"), vec!["A B  <a@b.c>  [u1]", "profile: prod  workspace: ws"]);
    assert_eq!(me_lines(&obj(vec![]), "p", ""), vec!["-  <->  [-]", "profile: p  workspace: "]);
}

#[test]
fn first_profile_becomes_default_else_only_when_confirmed() {
    assert!(should_set_default(true, false));
    assert!(should_set_default(false, true));
    assert!(!should_set_default(false, false));
}
