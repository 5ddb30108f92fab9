use nestr_cli::render::notification_table;
use nestr_cli::views::NotificationView;
use nestr_cli::json::Json;
use nestr_cli::render::{
    app_table, changes_table, child_table, clean_decoded, clean_text, comment_table, format_json, format_json_auto,
    format_table, group_table,
    hint_line, label_table, link_table, nest_detail_lines, nest_table, pagination_footer,
    part_table, post_line, post_table, role_detail_lines, role_table, sanitize,
    skip_limit_footer, status_lines, strip_html, tension_detail_lines, tension_table, user_table,
    webhook_detail_lines, webhook_table, PageMeta,
};
use nestr_cli::views::{
    AppView, ChangeValue, ChangeView, ChildView, CompactNest, GroupView, LabelView, LinkView,
    PartView, PostView, RoleView, StatusResponse, StatusView, TensionView, UserProfile,
    UserView, WebhookView,
};

fn s(x: &str) -> Json {
    Json::Str(x.to_string())
}

fn obj(members: Vec<(&str, Json)>) -> Json {
    Json::Object(members.into_iter().map(|(k, v)| (k.to_string(), v)).collect())
}

fn arr(items: Vec<Json>) -> Json {
    Json::Array(items)
}

fn nest(id: &str, title: &str, labels: Vec<Json>) -> CompactNest {
    CompactNest {
        id: id.into(),
        title: title.into(),
        purpose: None,
        completed: None,
        labels,
        due: None,
        parent_id: None,
    }
}

fn role(id: &str, title: &str, labels: Vec<Json>, acc: Vec<Json>, dom: Vec<Json>) -> RoleView {
    RoleView {
        id: id.into(),
        title: title.into(),
        purpose: None,
        labels,
        parent_id: None,
        accountabilities: acc,
        domains: dom,
    }
}

fn plain(s: &str) -> String {
    // Drop a dim escape wrapper if colouring was on.
    s.replace("\u{1b}[2m", "").replace("\u{1b}[0m", "")
}

#[test]
fn table_has_headers_and_rows() {
    let out = format_table(&["NAME", "HOST"], vec![vec!["prod".into(), "x".into()]]);
    assert!(out.contains("NAME"));
    assert!(out.contains("prod"));
}

#[test]
fn nest_table_renders_id_and_title() {
    let n = nest("abc", "Do thing", vec![s("now")]);
    let out = nest_table(&[n]);
    assert!(out.contains("abc"));
    assert!(out.contains("Do thing"));
    assert!(out.contains("now"));
}

#[test]
fn nest_table_marks_done_and_due() {
    let mut n = nest("a", "T", vec![]);
    n.completed = Some(true);
    n.due = Some("2026-01-02".into());
    let out = nest_table(&[n]);
    assert!(out.contains("✓") && out.contains("2026-01-02") && out.contains("DONE"));
}

#[test]
fn pagination_footer_present_only_when_more_pages() {
    let meta = PageMeta { page: Some(1), total_pages: Some(3), total: Some(57) };
    let f = pagination_footer(Some(&meta), true).unwrap();
    assert!(f.contains("page 1/3"));
    assert!(f.contains("57 total"));
    assert!(f.contains("--page 2"));
    let suppressed = pagination_footer(Some(&meta), false).unwrap();
    assert!(suppressed.contains("page 1/3") && !suppressed.contains("for more"));
    let last = PageMeta { page: Some(3), total_pages: Some(3), total: Some(57) };
    assert!(!pagination_footer(Some(&last), true).unwrap().contains("for more"));
    assert!(pagination_footer(None, true).is_none());
}

#[test]
fn pagination_footer_text_is_exact() {
    let meta = PageMeta { page: Some(2), total_pages: None, total: None };
    assert_eq!(plain(&pagination_footer(Some(&meta), true).unwrap()), "page 2/2");
    let meta = PageMeta { page: Some(1), total_pages: Some(2), total: Some(7) };
    assert_eq!(
        plain(&pagination_footer(Some(&meta), true).unwrap()),
        "page 1/2 · 7 total · --page 2 for more"
    );
    let meta = PageMeta { page: None, total_pages: Some(2), total: Some(7) };
    assert!(pagination_footer(Some(&meta), true).is_none());
}

#[test]
fn skip_limit_footer_only_when_page_full() {
    let f = skip_limit_footer(0, Some(50), 50).unwrap();
    assert!(f.contains("showing 1-50") && f.contains("--skip 50"));
    let f2 = skip_limit_footer(50, Some(50), 50).unwrap();
    assert!(f2.contains("showing 51-100") && f2.contains("--skip 100"));
    assert!(skip_limit_footer(0, Some(50), 30).is_none());
    assert!(skip_limit_footer(0, None, 50).is_some());
    assert!(skip_limit_footer(0, Some(0), 0).is_none());
}

#[test]
fn skip_limit_footer_text_is_exact() {
    assert_eq!(
        plain(&skip_limit_footer(10, Some(5), 5).unwrap()),
        "showing 11-15 · --skip 15 for more"
    );
}

#[test]
fn hint_line_none_when_absent() {
    assert!(hint_line(&arr(vec![obj(vec![("_id", s("a"))])])).is_none());
}

#[test]
fn hint_line_extracts_first_url() {
    let data = arr(vec![obj(vec![
        ("_id", s("a")),
        ("hints", arr(vec![obj(vec![("url", s("/nests/a/children?search=x"))])])),
    ])]);
    let line = hint_line(&data).unwrap();
    assert!(line.contains("/nests/a/children?search=x"));
}

#[test]
fn hint_line_skips_hints_without_url_and_searches_items() {
    let data = arr(vec![
        obj(vec![("_id", s("a"))]),
        obj(vec![("hints", arr(vec![obj(vec![("label", s("x"))]), obj(vec![("url", s("/u2"))])]))]),
        obj(vec![("hints", arr(vec![obj(vec![("url", s("/u3"))])]))]),
    ]);
    assert_eq!(plain(&hint_line(&data).unwrap()), "next: /u2");
    assert!(hint_line(&s("x")).is_none());
}

#[test]
fn role_table_shows_counts_and_title() {
    let r = role(
        "r1",
        "Lead",
        vec![s("role")],
        vec![obj(vec![("title", s("x"))]), obj(vec![("title", s("y"))])],
        vec![obj(vec![("title", s("z"))])],
    );
    let out = role_table(&[r]);
    assert!(out.contains("Lead") && out.contains("r1"));
    assert!(out.contains('2') && out.contains('1'));
}

#[test]
fn strip_html_removes_tags_and_collapses_whitespace() {
    assert_eq!(strip_html("<div><div>Hello   world</div></div>"), "Hello world");
    assert_eq!(strip_html("plain"), "plain");
}

#[test]
fn strip_html_unclosed_tag_drops_the_rest() {
    assert_eq!(strip_html("a <b c"), "a");
    assert_eq!(strip_html("x > y"), "x y");
    assert_eq!(strip_html("  \n "), "");
}

#[test]
fn user_and_group_and_app_tables_render() {
    let u = UserView {
        id: "u1".into(),
        username: Some("a@b.c".into()),
        profile: Some(UserProfile { full_name: Some("A B".into()), email: None }),
        bot: None,
    };
    assert!(user_table(&[u]).contains("a@b.c"));
    let g = GroupView { id: "g1".into(), name: Some("leads".into()) };
    assert!(group_table(&[g]).contains("leads"));
    let a = AppView { id: "okr".into(), title: Some("OKR".into()), enabled: true };
    assert!(app_table(&[a]).contains("OKR"));
}

#[test]
fn user_table_marks_bots() {
    let u = UserView { id: "u2".into(), username: None, profile: None, bot: Some(true) };
    let out = user_table(&[u]);
    assert!(out.contains("bot") && out.contains("u2"));
}

#[test]
fn tension_table_shows_status() {
    let t = TensionView {
        id: "t1".into(),
        title: "Gap".into(),
        description: None,
        labels: vec![],
        parent_id: None,
        status: Some("draft".into()),
        completed: None,
    };
    let out = tension_table(&[t]);
    assert!(out.contains("Gap") && out.contains("draft") && out.contains("t1"));
}

#[test]
fn changes_table_renders_old_arrow_new() {
    let c = ChangeView {
        nest_id: None,
        variable: "role.title".into(),
        new_value: ChangeValue::Text("New".into()),
        old_value: ChangeValue::Null,
    };
    let out = changes_table(&[c]);
    assert!(out.contains("role.title") && out.contains("New") && out.contains("—"));
}

#[test]
fn changes_table_joins_array_values_without_brackets() {
    let c = ChangeView {
        nest_id: None,
        variable: "circle.labels".into(),
        new_value: ChangeValue::List(vec![ChangeValue::Text("circle".into())]),
        old_value: ChangeValue::List(vec![ChangeValue::Text("role".into())]),
    };
    let out = changes_table(&[c]);
    assert!(out.contains("circle") && out.contains("role") && !out.contains('['));
}

#[test]
fn changes_values_nest_and_keep_json_text() {
    let c = ChangeView {
        nest_id: None,
        variable: "v".into(),
        new_value: ChangeValue::List(vec![
            ChangeValue::Text("a".into()),
            ChangeValue::Other("3".into()),
            ChangeValue::List(vec![ChangeValue::Null, ChangeValue::Other("true".into())]),
        ]),
        old_value: ChangeValue::Other("{\"k\":1}".into()),
    };
    let out = changes_table(&[c]);
    assert!(out.contains("a, 3, —, true"));
    assert!(out.contains("{\"k\":1}"));
}

#[test]
fn link_table_shows_relation_direction() {
    let l = LinkView {
        id: "n1".into(),
        title: "Mtg".into(),
        labels: vec![],
        relation: Some("meeting".into()),
        direction: Some("outgoing".into()),
    };
    let out = link_table(&[l]);
    assert!(out.contains("Mtg") && out.contains("meeting") && out.contains("outgoing"));
}

fn webhook(id: &str) -> WebhookView {
    WebhookView {
        id: id.into(),
        url: Some("https://x.test/h".into()),
        type_: Some("nest".into()),
        event: Some("create".into()),
        label: None,
        ancestor_id: None,
        created_at: None,
        trigger_count: None,
        error_count: None,
    }
}

#[test]
fn webhook_table_shows_url_type_event() {
    let out = webhook_table(&[webhook("wh1")]);
    assert!(
        out.contains("wh1")
            && out.contains("https://x.test/h")
            && out.contains("nest")
            && out.contains("create")
    );
}

#[test]
fn sanitize_strips_control_but_keeps_tab_newline() {
    let dirty = "a\u{1b}]0;pwn\u{07}b\tc\nd\u{1b}[31mx";
    let clean = sanitize(dirty);
    assert!(!clean.contains('\u{1b}'), "ESC must be removed");
    assert!(!clean.contains('\u{07}'), "BEL must be removed");
    assert!(clean.contains('\t') && clean.contains('\n'), "tab/newline kept");
    assert_eq!(clean, "a]0;pwnb\tc\nd[31mx");
}

#[test]
fn clean_text_strips_escapes_and_html() {
    let v = clean_text("evil\u{1b}]0;pwn\u{07}<b>title</b>");
    assert!(!v.contains('\u{1b}') && !v.contains('\u{07}'));
    assert!(!v.contains('<') && !v.contains('>'));
    assert!(v.contains("title"));
}

#[test]
fn clean_text_decodes_full_html_entities() {
    assert_eq!(clean_text("BSV&nbsp;Association"), "BSV Association");
    assert_eq!(clean_text("R&amp;D &mdash; done"), "R&D — done");
    assert_eq!(clean_text("it&#39;s &ldquo;quoted&rdquo;"), "it's “quoted”");
    assert_eq!(clean_text("<b>a&amp;b</b>"), "a&b");
    assert_eq!(clean_text("3 &lt; 5"), "3 < 5");
}

#[test]
fn clean_text_sanitizes_entity_encoded_control_chars() {
    for payload in [
        "x&#27;[31mred",
        "x&#x1b;[31mred",
        "bell&#7;here",
        "bell&#x07;here",
        "nul&#0;here",
        "t&#27;]0;pwned&#7;",
    ] {
        let v = clean_text(payload);
        assert!(
            !v.contains('\u{1b}') && !v.contains('\u{07}') && !v.contains('\u{0}'),
            "control char leaked for {payload:?}: {v:?}"
        );
    }
}

#[test]
fn clean_text_is_one_printable_line() {
    // Law: no control character, no whitespace but single spaces.
    for input in ["a\n\nb\tc", "  x  ", "<p>a</p>\r\n<p>b</p>", "&#10;q&#9;r", "\u{85}s\u{2028}t"] {
        let v = clean_text(input);
        assert!(!v.chars().any(|c| c.is_control()), "{v:?}");
        assert!(!v.chars().any(|c| c.is_whitespace() && c != ' '), "{v:?}");
        assert!(!v.contains("  ") && !v.starts_with(' ') && !v.ends_with(' '), "{v:?}");
    }
}

#[test]
fn format_table_cleans_cell_escapes() {
    let out = format_table(&["T"], vec![vec!["x\u{1b}]0;pwn\u{07}y".to_string()]]);
    assert!(!out.contains('\u{1b}') && !out.contains('\u{07}'));
}

#[test]
fn role_detail_lists_accountabilities_and_domains() {
    let mut r = role(
        "r1",
        "Facilitator",
        vec![s("role")],
        vec![obj(vec![("_id", s("a1")), ("title", s("Run meetings"))]), s("Keep records")],
        vec![],
    );
    r.purpose = Some("".into());
    r.parent_id = Some("c1".into());
    assert_eq!(
        role_detail_lines(&r),
        vec![
            "Facilitator  [r1]",
            "parent: c1",
            "accountabilities:",
            "  - Run meetings",
            "  - Keep records",
            "labels: role",
        ]
    );
}

#[test]
fn tension_detail_reads_fields_from_the_payload() {
    let t = TensionView {
        id: "t1".into(),
        title: "<b>Gap</b>".into(),
        description: Some("Why".into()),
        labels: vec![],
        parent_id: None,
        status: Some("draft".into()),
        completed: None,
    };
    let data = obj(vec![(
        "fields",
        obj(vec![("tension.feeling", s("uneasy")), ("tension.needs", s(""))]),
    )]);
    assert_eq!(
        tension_detail_lines(&t, &data),
        vec!["Gap  [t1]", "status: draft", "description: Why", "feeling: uneasy"]
    );
}

#[test]
fn webhook_detail_counts_when_known() {
    let mut w = webhook("wh1");
    w.label = Some("L".into());
    w.trigger_count = Some(3);
    assert_eq!(
        webhook_detail_lines(&w),
        vec!["https://x.test/h  [wh1]", "nest create", "label: L", "triggers: 3  errors: 0"]
    );
    assert_eq!(webhook_detail_lines(&webhook("w2")).len(), 2);
}

#[test]
fn nest_detail_lines_are_exact() {
    let mut n = nest("n1", "Title", vec![s("now"), obj(vec![("code", s("project"))])]);
    n.purpose = Some("P".into());
    n.due = Some("2026-05-01".into());
    n.completed = Some(false);
    assert_eq!(
        nest_detail_lines(&n),
        vec!["Title  [n1]", "purpose: P", "labels: now,project", "due: 2026-05-01", "completed: false"]
    );
}

#[test]
fn status_lines_show_votes() {
    let st = StatusView {
        status: Some("proposed".into()),
        responses: vec![StatusResponse {
            user_id: Some("u1".into()),
            response: None,
            voted_at: None,
        }],
        autoapprove: Some("24h".into()),
    };
    assert_eq!(status_lines(&st), vec!["status: proposed", "  u1: none ", "autoapprove: 24h"]);
    let empty = StatusView { status: None, responses: vec![], autoapprove: None };
    assert_eq!(status_lines(&empty), vec!["status: -"]);
}

#[test]
fn parts_and_children_tables() {
    let p = PartView {
        id: "p1".into(),
        title: Some("Fallback".into()),
        items: vec![obj(vec![
            ("action", s("create")),
            ("labels", arr(vec![s("role")])),
        ])],
    };
    let out = part_table(&[p]);
    assert!(out.contains("p1") && out.contains("create") && out.contains("Fallback") && out.contains("role"));
    let bare = PartView { id: "p2".into(), title: None, items: vec![] };
    assert!(part_table(&[bare]).contains(" - "));
    let c = ChildView {
        id: "c1".into(),
        title: Some("Keep <i>books</i>".into()),
        labels: vec![s("accountability")],
        link_id: Some("l1".into()),
    };
    let out = child_table(&[c]);
    assert!(out.contains("Keep books") && out.contains("accountability") && out.contains("l1"));
}

#[test]
fn posts_comments_and_labels_tables() {
    let p = PostView {
        id: "c1".into(),
        body: None,
        title: Some("hello".into()),
        created_by: Some("u1".into()),
        created_at: Some("2026-01-01".into()),
    };
    assert!(post_table(std::slice::from_ref(&p)).contains("hello"));
    assert!(comment_table(std::slice::from_ref(&p)).contains("2026-01-01"));
    assert_eq!(post_line(&p), "hello  [c1]");
    let l = LabelView { id: "l1".into(), title: Some("Now".into()), color: Some("#fff".into()), icon: None };
    assert!(label_table(&[l]).contains("#fff"));
}

#[test]
fn notifications_table_marks_unread() {
    let n = NotificationView {
        id: "n1".into(),
        group: Some("mentions".into()),
        title: Some("Hi".into()),
        actor_name: Some("Ann".into()),
        created_at: None,
        is_read: false,
    };
    let out = notification_table(&[n]);
    assert!(out.contains("●") && out.contains("mentions") && out.contains("Ann"));
}

fn one_member(k: &str, v: &str) -> Json {
    Json::Object(vec![(k.to_string(), Json::Number(v.to_string()))])
}

#[test]
fn json_is_pretty_array() {
    let out = format_json(vec![one_member("a", "1")]).unwrap();
    assert!(out.contains("\"a\": 1"));
    assert!(out.starts_with('['));
}

#[test]
fn json_auto_unwraps_single_but_keeps_multiple() {
    let single = format_json_auto(vec![one_member("a", "1")]).unwrap();
    assert!(single.starts_with('{'), "single element should be a bare object, got: {single}");

    let multiple = format_json_auto(vec![one_member("a", "1"), one_member("b", "2")]).unwrap();
    assert!(multiple.starts_with('['), "multiple elements should be a JSON array, got: {multiple}");
}

#[test]
fn json_output_is_exact_and_empty_is_an_array() {
    assert_eq!(format_json_auto(vec![one_member("a", "1")]).unwrap(), "{\n  \"a\": 1\n}");
    assert_eq!(format_json(vec![]).unwrap(), "[]");
    assert_eq!(format_json_auto(vec![]).unwrap(), "[]");
    assert_eq!(format_json(vec![Json::Number("not a number".to_string())]), None);
}

#[test]
fn strip_html_leaves_single_spaces_only() {
    assert_eq!(strip_html("  <p>a</p>\t\n  <b>b</b>   c  "), "a b c");
    assert_eq!(strip_html("<unclosed tag and more"), "");
    assert_eq!(clean_text(" x&#9;&#10;y&#27; "), "x y");
}

#[test]
fn clean_text_keeps_plain_text_and_cleans_decoded_text() {
    assert_eq!(clean_text("https://x.test/h"), "https://x.test/h");
    assert_eq!(clean_text("Lead"), "Lead");
    assert_eq!(clean_decoded(" a\u{1b}[2m\t b\n"), "a[2m b");
}
