use nestr_cli::json::Json;
use nestr_cli::views::{
    join_labels, join_strings, label_codes, view_titles, CompactNest, PostView, RoleView,
    UserProfile, UserView,
};

fn s(x: &str) -> Json {
    Json::Str(x.to_string())
}

fn obj(members: Vec<(&str, Json)>) -> Json {
    Json::Object(members.into_iter().map(|(k, v)| (k.to_string(), v)).collect())
}

fn bare_nest(labels: Vec<Json>) -> CompactNest {
    CompactNest {
        id: String::new(),
        title: String::new(),
        purpose: None,
        completed: None,
        labels,
        due: None,
        parent_id: None,
    }
}

#[test]
fn labels_str_handles_strings_and_objects() {
    let n = bare_nest(vec![
        s("now"),
        obj(vec![("code", s("project"))]),
        obj(vec![("title", s("Goal"))]),
        Json::Number("42".into()),
    ]);
    assert_eq!(n.labels_str(), "now,project,Goal");
}

#[test]
fn label_codes_prefer_code_then_title_then_id() {
    let labels = vec![
        obj(vec![("_id", s("i")), ("title", s("t")), ("code", s("c"))]),
        obj(vec![("_id", s("i2")), ("title", s("t2"))]),
        obj(vec![("_id", s("i3"))]),
        obj(vec![("code", Json::Null), ("title", s("t4"))]),
        Json::Null,
    ];
    // A present but non-string `code` yields nothing (the member is taken, then read).
    assert_eq!(label_codes(&labels), vec!["c", "t2", "i3"]);
    assert_eq!(join_labels(&vec![]), "");
}

#[test]
fn post_text_prefers_body_then_title() {
    let p = PostView { id: String::new(), body: None, title: Some("t".into()), created_by: None, created_at: None };
    assert_eq!(p.text(), "t");
    let p = PostView {
        id: String::new(),
        body: Some("b".into()),
        title: Some("t".into()),
        created_by: None,
        created_at: None,
    };
    assert_eq!(p.text(), "b");
    let p = PostView { id: String::new(), body: None, title: None, created_by: None, created_at: None };
    assert_eq!(p.text(), "");
}

#[test]
fn role_view_extracts_accountability_and_domain_titles() {
    let r = RoleView {
        id: "r1".into(),
        title: "Facilitator".into(),
        purpose: None,
        labels: vec![s("role")],
        parent_id: None,
        accountabilities: vec![obj(vec![("_id", s("a1")), ("title", s("Run meetings"))]), s("Keep records")],
        domains: vec![obj(vec![("_id", s("d1")), ("title", s("The agenda"))])],
    };
    assert_eq!(r.acc_titles(), vec!["Run meetings", "Keep records"]);
    assert_eq!(r.domain_titles(), vec!["The agenda"]);
    assert_eq!(r.labels_str(), "role");
}

#[test]
fn view_titles_skip_untitled_items() {
    let items = vec![obj(vec![("_id", s("x"))]), Json::Bool(true), s("y")];
    assert_eq!(view_titles(&items), vec!["y"]);
}

#[test]
fn user_view_pulls_full_name_and_tolerates_missing_profile() {
    let u = UserView {
        id: "u1".into(),
        username: Some("a@b.c".into()),
        profile: Some(UserProfile { full_name: Some("A B".into()), email: None }),
        bot: None,
    };
    assert_eq!(u.full_name(), "A B");
    let u2 = UserView { id: "u2".into(), username: None, profile: None, bot: None };
    assert_eq!(u2.full_name(), "");
}

#[test]
fn join_strings_puts_separators_between() {
    assert_eq!(join_strings(&vec!["a".into(), "b".into(), "c".into()], ", "), "a, b, c");
    assert_eq!(join_strings(&vec!["a".into()], ", "), "a");
    assert_eq!(join_strings(&vec![], ", "), "");
}
