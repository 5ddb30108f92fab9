use nestr_cli::keyring_store::{get_secret, os_keyring_available, store_secret, SecretMap, TargetPlatform};

#[test]
fn os_keyring_available_when_backend_compiled() {
    assert!(os_keyring_available(TargetPlatform::MacOs));
    assert!(os_keyring_available(TargetPlatform::Windows));
    assert!(os_keyring_available(TargetPlatform::LinuxGnu));
}

#[test]
fn no_keyring_backend_on_musl_or_elsewhere() {
    assert!(!os_keyring_available(TargetPlatform::LinuxMusl));
    assert!(!os_keyring_available(TargetPlatform::Other));
}

#[test]
fn roundtrip() {
    let mut map = SecretMap::new();
    store_secret(true, &mut map, "api_key", "secret-123").unwrap();
    assert_eq!(get_secret(Some(&map), "api_key"), Some("secret-123".into()));
    assert_eq!(get_secret(Some(&map), "oauth_tokens"), None);
    assert_eq!(get_secret(None, "api_key"), None);
}

#[test]
fn store_replaces_and_keeps_other_keys() {
    let mut map = SecretMap::new();
    assert!(map.is_empty());
    store_secret(true, &mut map, "api_key", "one").unwrap();
    store_secret(true, &mut map, "oauth_tokens", "{}").unwrap();
    store_secret(true, &mut map, "api_key", "two").unwrap();
    assert_eq!(map.get("api_key"), Some("two".to_string()));
    assert_eq!(map.get("oauth_tokens"), Some("{}".to_string()));
    assert!(!map.is_empty());
}

#[test]
fn store_refused_without_backend() {
    let mut map = SecretMap::new();
    let e = store_secret(false, &mut map, "api_key", "x").unwrap_err();
    assert!(e.to_string().contains("no OS keyring backend"));
    assert!(map.is_empty());
}

#[test]
fn secret_map_from_pairs_later_wins() {
    let map = SecretMap::from_pairs(vec![
        ("k".to_string(), "1".to_string()),
        ("k".to_string(), "2".to_string()),
    ]);
    assert_eq!(map.get("k"), Some("2".to_string()));
}
