use t_countdown::cipher::{builtin_key, encrypt_str};
use t_countdown::config::{AppConfig, RemoteConfig};
use t_countdown::error::SyncError;

#[test]
fn first_run_has_no_remote() {
    assert_eq!(AppConfig::new().webdav, None);
    assert_eq!(AppConfig::default().webdav, None);
}

#[test]
fn missing_or_corrupt_file_gives_default() {
    assert_eq!(AppConfig::loaded_or_default(None), AppConfig::new());
    let mut cfg = AppConfig::new();
    cfg.set_remote(&builtin_key(), "https://a".to_string(), "x", "y");
    assert_eq!(AppConfig::loaded_or_default(Some(cfg.clone())), cfg);
}

#[test]
fn save_then_load_remote_config() {
    let key = builtin_key();
    let mut cfg = AppConfig::new();
    cfg.set_remote(&key, "https://dav.example.com".to_string(), "u", "p");
    assert_eq!(
        cfg.remote_summary(&key),
        Ok(Some(("https://dav.example.com".to_string(), "u".to_string())))
    );
}

#[test]
fn credentials_are_stored_obfuscated() {
    let key = builtin_key();
    let mut cfg = AppConfig::new();
    cfg.set_remote(&key, "https://dav.example.com".to_string(), "u", "p");
    let wc = cfg.webdav.clone().unwrap();
    assert_eq!(wc.server, "https://dav.example.com");
    assert_eq!(wc.username, "AQ==");
    assert_eq!(wc.password, "BA==");
}

#[test]
fn set_remote_replaces_previous() {
    let key = builtin_key();
    let mut cfg = AppConfig::new();
    cfg.set_remote(&key, "https://old".to_string(), "a", "b");
    cfg.set_remote(&key, "https://new".to_string(), "c", "d");
    let creds = cfg.credentials(&key).unwrap();
    assert_eq!(creds.server, "https://new");
    assert_eq!(creds.username, "c");
    assert_eq!(creds.password, "d");
}

#[test]
fn summary_without_remote_is_none() {
    assert_eq!(AppConfig::new().remote_summary(&builtin_key()), Ok(None));
}

#[test]
fn clear_without_remote_is_noop() {
    let mut cfg = AppConfig::new();
    cfg.clear_remote();
    assert_eq!(cfg, AppConfig::new());
}

#[test]
fn clear_removes_remote() {
    let key = builtin_key();
    let mut cfg = AppConfig::new();
    cfg.set_remote(&key, "https://a".to_string(), "u", "p");
    cfg.clear_remote();
    assert_eq!(cfg.webdav, None);
    assert_eq!(cfg.remote_summary(&key), Ok(None));
}

#[test]
fn credentials_not_configured() {
    assert_eq!(AppConfig::new().credentials(&builtin_key()), Err(SyncError::NotConfigured));
}

#[test]
fn corrupt_credentials_fail_to_decode() {
    let key = builtin_key();
    let cfg = AppConfig {
        webdav: Some(RemoteConfig {
            server: "https://a".to_string(),
            username: "%%%".to_string(),
            password: encrypt_str(&key, "p"),
        }),
    };
    assert_eq!(cfg.remote_summary(&key), Err(SyncError::Decode));
    assert_eq!(cfg.credentials(&key), Err(SyncError::Decode));
    let cfg2 = AppConfig {
        webdav: Some(RemoteConfig {
            server: "https://a".to_string(),
            username: encrypt_str(&key, "u"),
            password: "iw==".to_string(),
        }),
    };
    assert!(cfg2.remote_summary(&key).is_ok());
    assert_eq!(cfg2.credentials(&key), Err(SyncError::Decode));
}
