use nestr_cli::cli::{
    resolved_config, AppsCmd, LabelsCmd, NestsCmd, NotificationsCmd, PersonalCmd, TensionsCmd,
    UserGroupsCmd, UsersCmd, WebhooksCmd, WorkspacesCmd,
};
use nestr_cli::config::{AuthKind, CredentialStorage, OutputFormat, Profile};

fn profile(auth: AuthKind) -> Profile {
    Profile {
        auth,
        credential_storage: CredentialStorage::OsStore,
        host: "https://h/".into(),
        workspace_id: String::new(),
        api_key: None,
        label: None,
        oauth_client_id: None,
        oauth_token_url: None,
        oauth_authorize_url: None,
        oauth_tokens: None,
        default_output_format: None,
    }
}

#[test]
fn reads_are_never_gated() {
    let get = NestsCmd::Get { ids: "a".into(), clean_text: false, fields_meta: false, hints: false };
    assert_eq!(get.write_action(), None);
    assert_eq!(get.confirm_prompt(), None);
    assert_eq!(NotificationsCmd::Read.write_action(), Some("notifications read"));
    assert_eq!(WorkspacesCmd::Use { id: "w".into() }.write_action(), None);
    assert_eq!(WorkspacesCmd::Apps { cmd: None }.write_action(), None);
}

#[test]
fn writes_are_named_for_the_read_only_gate() {
    assert_eq!(NestsCmd::Delete { id: "n1".into() }.write_action(), Some("nests delete"));
    assert_eq!(NestsCmd::BulkReorder { ids: vec![] }.write_action(), Some("bulk-reorder"));
    let set = WorkspacesCmd::Apps { cmd: Some(AppsCmd::SetState { app_id: "okr".into(), state: "on".into() }) };
    assert_eq!(set.write_action(), Some("workspaces apps set"));
    let personal = LabelsCmd::Personal {
        cmd: PersonalCmd::Create { title: "t".into(), description: None, color: None, icon: None },
    };
    assert_eq!(personal.write_action(), Some("labels personal create"));
    let groups = UsersCmd::Groups { cmd: UserGroupsCmd::Replace { id: "u".into(), names: vec![] } };
    assert_eq!(groups.write_action(), Some("users groups set"));
    let vote = TensionsCmd::Vote { nest_id: "n".into(), tension_id: "t".into(), decision: "accept".into() };
    assert_eq!(vote.write_action(), Some("tensions vote"));
}

#[test]
fn destructive_commands_ask_first() {
    assert_eq!(NestsCmd::Delete { id: "n1".into() }.confirm_prompt(), Some("Delete nest 'n1'?".to_string()));
    assert_eq!(
        TensionsCmd::Delete { nest_id: "n".into(), tension_id: "t9".into() }.confirm_prompt(),
        Some("Delete tension 't9'?".to_string())
    );
    assert_eq!(WebhooksCmd::Delete { id: "w1".into() }.confirm_prompt(), Some("Delete webhook 'w1'?".to_string()));
    assert_eq!(WebhooksCmd::List.confirm_prompt(), None);
}

#[test]
fn resolved_config_carries_a_refresh_context_for_oauth_only() {
    let c = resolved_config("p".into(), &profile(AuthKind::OAuth), "b".into(), OutputFormat::Json, Some("rt".into()));
    assert_eq!(c.api_base, "https://h/api");
    let r = c.refresh.as_ref().unwrap();
    assert_eq!(r.token_url, "https://h/oauth/token");
    assert_eq!(r.client_id, "nestr-cli");
    assert_eq!(r.refresh_token, "rt");
    assert_eq!(r.storage, CredentialStorage::OsStore);
    let c = resolved_config("p".into(), &profile(AuthKind::ApiKey), "b".into(), OutputFormat::Text, Some("rt".into()));
    assert!(c.refresh.is_none());
    let c = resolved_config("p".into(), &profile(AuthKind::OAuth), "b".into(), OutputFormat::Text, None);
    assert!(c.refresh.is_none());
}

#[test]
fn workspace_scoped_commands_need_a_workspace() {
    let c = resolved_config("prod".into(), &profile(AuthKind::ApiKey), "b".into(), OutputFormat::Text, None);
    let e = c.require_workspace().unwrap_err();
    assert_eq!(
        e.to_string(),
        "Profile 'prod' has no active workspace. Run `nestr workspaces use <id>` to pick one."
    );
    let mut p = profile(AuthKind::ApiKey);
    p.workspace_id = "ws1".into();
    let c = resolved_config("prod".into(), &p, "b".into(), OutputFormat::Text, None);
    assert_eq!(c.require_workspace().unwrap(), "ws1");
}
