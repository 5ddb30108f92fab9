use nestr_cli::config::{
    api_key_bearer, config_dir, config_dir_in, config_file, profile_file, profile_name_of,
    profiles_dir, resolve_bearer_precedence, resolve_output_format, resolve_profile_name,
    temp_file_name, update_profile_oauth_tokens, validate_profile_name, AuthKind, Config,
    CredentialStorage, HomeEnv, OutputFormat, Profile,
};
use nestr_cli::oauth::StoredOAuthTokens;

fn test_profile(host: &str) -> Profile {
    Profile {
        auth: AuthKind::ApiKey,
        credential_storage: CredentialStorage::File,
        host: host.to_string(),
        workspace_id: "ws1".to_string(),
        api_key: None,
        label: None,
        oauth_client_id: None,
        oauth_token_url: None,
        oauth_authorize_url: None,
        oauth_tokens: None,
        default_output_format: None,
    }
}

fn no_env() -> HomeEnv {
    HomeEnv { nestr_home: None, user_home: None }
}

#[test]
fn config_dir_uses_nestr_home_override() {
    let dir = config_dir_in(Some("/tmp/fake".into()), &no_env());
    assert_eq!(dir, "/tmp/fake/.nestr");
}

#[test]
fn config_paths_follow_home_precedence() {
    let env = HomeEnv { nestr_home: Some("/n".into()), user_home: Some("/home/u".into()) };
    assert_eq!(config_dir(&env), "/n/.nestr");
    let env = HomeEnv { nestr_home: None, user_home: Some("/home/u".into()) };
    assert_eq!(config_dir(&env), "/home/u/.nestr");
    assert_eq!(config_file(&env), "/home/u/.nestr/config.toml");
    assert_eq!(profiles_dir(&env), "/home/u/.nestr/profiles");
    assert_eq!(profile_file(&env, "prod"), "/home/u/.nestr/profiles/prod.toml");
    assert_eq!(config_dir(&no_env()), "./.nestr");
}

#[test]
fn api_base_derives_from_host_and_trims_slash() {
    let p = test_profile("https://app.nestr.io/");
    assert_eq!(p.api_base(), "https://app.nestr.io/api");
}

#[test]
fn oauth_urls_derive_with_defaults() {
    let p = test_profile("https://app.nestr.io");
    assert_eq!(p.token_url(), "https://app.nestr.io/oauth/token");
    assert_eq!(p.authorize_url(), "https://app.nestr.io/dialog/oauth");
}

#[test]
fn oauth_urls_honor_overrides() {
    let mut p = test_profile("https://app.nestr.io");
    p.oauth_token_url = Some("https://x/t".into());
    p.oauth_authorize_url = Some("https://x/a".into());
    assert_eq!(p.token_url(), "https://x/t");
    assert_eq!(p.authorize_url(), "https://x/a");
}

#[test]
fn client_id_defaults_then_overrides() {
    let mut p = test_profile("https://h//");
    assert_eq!(p.client_id(), "nestr-cli");
    assert_eq!(p.api_base(), "https://h/api");
    p.oauth_client_id = Some("mine".into());
    assert_eq!(p.client_id(), "mine");
}

#[test]
fn precedence_flag_beats_env_beats_profile() {
    assert_eq!(
        resolve_bearer_precedence(Some("flag"), Some("env"), Some("prof")),
        Some("flag".to_string())
    );
    assert_eq!(
        resolve_bearer_precedence(None, Some("env"), Some("prof")),
        Some("env".to_string())
    );
    assert_eq!(
        resolve_bearer_precedence(None, None, Some("prof")),
        Some("prof".to_string())
    );
    assert_eq!(resolve_bearer_precedence(None, None, None), None);
}

#[test]
fn rejects_profile_names_with_traversal() {
    assert!(validate_profile_name("prod").is_ok());
    assert!(validate_profile_name("local-2.dev").is_ok());
    assert!(validate_profile_name("../evil").is_err());
    assert!(validate_profile_name("a/b").is_err());
    assert!(validate_profile_name("").is_err());
}

#[test]
fn profile_name_errors_say_why() {
    assert_eq!(
        validate_profile_name("..").unwrap_err().to_string(),
        "invalid profile name '..'"
    );
    assert_eq!(
        validate_profile_name("a b").unwrap_err().to_string(),
        "invalid profile name 'a b': use letters, digits, '_', '-', '.' only"
    );
}

#[test]
fn update_profile_oauth_tokens_replaces_or_keeps() {
    let now = 1_000_000;
    let mut p = test_profile("https://app.nestr.io");
    p.auth = AuthKind::OAuth;
    let toks = StoredOAuthTokens {
        access_token: "acc".into(),
        refresh_token: Some("ref".into()),
        id_token: None,
        expiry: Some(now + 99),
    };
    assert_eq!(update_profile_oauth_tokens("oauthp", &mut p, &toks, now).unwrap(), true);
    assert_eq!(p.oauth_tokens.as_ref().unwrap().access_token, "acc");
    // Another process already stored a different, still-valid set: it is kept.
    let other = StoredOAuthTokens {
        access_token: "other".into(),
        refresh_token: None,
        id_token: None,
        expiry: Some(now + 500),
    };
    assert_eq!(update_profile_oauth_tokens("oauthp", &mut p, &other, now).unwrap(), false);
    assert_eq!(p.oauth_tokens.as_ref().unwrap().access_token, "acc");
    // Once the stored set has expired, the new set replaces it.
    assert_eq!(update_profile_oauth_tokens("oauthp", &mut p, &other, now + 90).unwrap(), true);
    assert_eq!(p.oauth_tokens.as_ref().unwrap().access_token, "other");
    // A bad profile name is refused and changes nothing.
    assert!(update_profile_oauth_tokens("../x", &mut p, &toks, now).is_err());
    assert_eq!(p.oauth_tokens.as_ref().unwrap().access_token, "other");
}

#[test]
fn update_profile_oauth_tokens_keeps_other_fields() {
    let now = 1_000_000;
    let mut p = test_profile("https://app.nestr.io");
    p.auth = AuthKind::OAuth;
    p.label = Some("Work".into());
    p.api_key = Some("k".into());
    p.oauth_client_id = Some("cid".into());
    p.default_output_format = Some(OutputFormat::Json);
    let toks = StoredOAuthTokens {
        access_token: "acc".into(),
        refresh_token: None,
        id_token: None,
        expiry: Some(now + 99),
    };
    assert_eq!(update_profile_oauth_tokens("oauthp", &mut p, &toks, now).unwrap(), true);
    assert_eq!(p.label.as_deref(), Some("Work"));
    assert_eq!(p.api_key.as_deref(), Some("k"));
    assert_eq!(p.oauth_client_id.as_deref(), Some("cid"));
    assert_eq!(p.default_output_format, Some(OutputFormat::Json));
    assert_eq!(p.workspace_id, "ws1");
}

#[test]
fn profile_and_output_resolution() {
    assert_eq!(resolve_profile_name(Some("a"), Some("b"), "c"), "a");
    assert_eq!(resolve_profile_name(None, Some("b"), "c"), "b");
    assert_eq!(resolve_profile_name(None, None, "c"), "c");
    assert_eq!(
        resolve_output_format(None, Some(OutputFormat::Json), OutputFormat::Text),
        OutputFormat::Json
    );
    assert_eq!(
        resolve_output_format(Some(OutputFormat::Text), Some(OutputFormat::Json), OutputFormat::Json),
        OutputFormat::Text
    );
    assert_eq!(resolve_output_format(None, None, OutputFormat::Json), OutputFormat::Json);
    assert_eq!(OutputFormat::Json.as_str(), "json");
    assert_eq!(OutputFormat::Text.as_str(), "text");
}

#[test]
fn api_key_bearer_reports_missing_key() {
    assert_eq!(api_key_bearer("p", None, Some("env"), Some("k")).unwrap(), "env");
    let e = api_key_bearer("prod", None, None, None).unwrap_err();
    assert_eq!(e.to_string(), "No API key for profile 'prod'. Run `nestr profiles add`.");
}

#[test]
fn default_config() {
    let c = Config::default();
    assert_eq!(c.default_profile, "default");
    assert_eq!(c.default_output_format, OutputFormat::Text);
}

#[test]
fn profile_files_are_toml_stems() {
    assert_eq!(profile_name_of("prod.toml"), Some("prod".to_string()));
    assert_eq!(profile_name_of("a.b.toml"), Some("a.b".to_string()));
    assert_eq!(profile_name_of(".toml"), None);
    assert_eq!(profile_name_of(".lock"), None);
    assert_eq!(profile_name_of("prod.toml.tmp"), None);
    assert_eq!(profile_name_of("README"), None);
    assert_eq!(temp_file_name("prod.toml", 42), ".prod.toml.42.tmp");
}
