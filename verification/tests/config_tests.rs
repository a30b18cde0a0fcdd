use estan::config::{
    archive_file_name, archive_file_name_numbered, baidu_settings_complete, cloud189_settings_ok,
    expand_placeholders, has_nonblank, normalize_archive_name, parse_env_bool,
    resolve_cloud189_credentials, resolve_source_path, validate_config, AppConfig, BackupItem,
    Config, ConfigError,
};

fn item(source_path: Option<&str>, source_dir: Option<&str>) -> BackupItem {
    BackupItem {
        source_dir: source_dir.map(|s| s.to_string()),
        source_path: source_path.map(|s| s.to_string()),
        command: None,
        command_workdir: None,
        keep_command_source: None,
        remote_dir: "/backup".to_string(),
        archive_name: "demo".to_string(),
        keep_archive: None,
    }
}

fn app_config() -> AppConfig {
    AppConfig {
        baidu_enabled: None,
        baidu_app_key: None,
        baidu_app_secret: None,
        baidu_config: None,
        cloud189_enabled: None,
        cloud189_config: None,
        cloud189_username: None,
        cloud189_password: None,
        cloud189_use_qr: None,
    }
}

#[test]
fn test_expand_placeholders() {
    let result = expand_placeholders("/a/{archive_name}/{date}", "20260211", "demo");
    assert_eq!(result, "/a/demo/20260211");
}

#[test]
fn test_parse_env_bool() {
    assert_eq!(parse_env_bool("1".to_string()), Some(true));
    assert_eq!(parse_env_bool("off".to_string()), Some(false));
    assert_eq!(parse_env_bool("invalid".to_string()), None);
}

#[test]
fn test_normalize_archive_name() {
    assert_eq!(normalize_archive_name("  "), "backup");
    assert_eq!(normalize_archive_name(" project-a "), "project-a");
}

#[test]
fn parse_env_bool_is_case_and_space_insensitive() {
    assert_eq!(parse_env_bool(" TRUE ".to_string()), Some(true));
    assert_eq!(parse_env_bool("Yes".to_string()), Some(true));
    assert_eq!(parse_env_bool("ON".to_string()), Some(true));
    assert_eq!(parse_env_bool("\tNo\n".to_string()), Some(false));
    assert_eq!(parse_env_bool("FALSE".to_string()), Some(false));
    assert_eq!(parse_env_bool("0".to_string()), Some(false));
    assert_eq!(parse_env_bool("".to_string()), None);
    assert_eq!(parse_env_bool("2".to_string()), None);
}

#[test]
fn expand_placeholders_leaves_plain_text_alone() {
    assert_eq!(expand_placeholders("/plain/path", "20260211", "demo"), "/plain/path");
    assert_eq!(expand_placeholders("{date}{date}", "d", "x"), "dd");
}

#[test]
fn resolve_source_path_prefers_explicit_path() {
    let it = item(Some("/p/{date}"), Some("/d"));
    assert_eq!(resolve_source_path(&it, "20260211", "demo").unwrap(), "/p/20260211");
}

#[test]
fn resolve_source_path_falls_back_to_dir() {
    let it = item(None, Some(" /d/{archive_name} "));
    assert_eq!(resolve_source_path(&it, "20260211", "demo").unwrap(), "/d/demo");
}

#[test]
fn resolve_source_path_rejects_missing_source() {
    let it = item(None, None);
    assert!(matches!(
        resolve_source_path(&it, "20260211", "demo"),
        Err(ConfigError::MissingSource)
    ));
}

#[test]
fn resolve_source_path_rejects_blank_source() {
    let it = item(Some("   "), None);
    assert!(matches!(
        resolve_source_path(&it, "20260211", "demo"),
        Err(ConfigError::EmptySource)
    ));
}

#[test]
fn validate_config_requires_backups() {
    let empty = Config { app: app_config(), backups: vec![] };
    assert!(matches!(validate_config(&empty), Err(ConfigError::NoBackups)));
    let one = Config { app: app_config(), backups: vec![item(Some("/p"), None)] };
    assert!(validate_config(&one).is_ok());
}

#[test]
fn cloud189_credentials_prefer_explicit_values() {
    let (u, p, q) = resolve_cloud189_credentials(
        Some("alice".to_string()),
        None,
        None,
        Some("bob".to_string()),
        Some("pw".to_string()),
        Some("yes".to_string()),
    );
    assert_eq!(u.as_deref(), Some("alice"));
    assert_eq!(p.as_deref(), Some("pw"));
    assert!(q);
}

#[test]
fn cloud189_qr_flag_defaults_to_false() {
    let (_, _, q) = resolve_cloud189_credentials(None, None, None, None, None, None);
    assert!(!q);
    let (_, _, q2) =
        resolve_cloud189_credentials(None, None, None, None, None, Some("bogus".to_string()));
    assert!(!q2);
    let (_, _, q3) = resolve_cloud189_credentials(None, None, Some(true), None, None, None);
    assert!(q3);
}

#[test]
fn settings_checks_require_nonblank_values() {
    assert!(has_nonblank(&Some("x".to_string())));
    assert!(!has_nonblank(&Some("  ".to_string())));
    assert!(!has_nonblank(&None));
    assert!(baidu_settings_complete(false, &None, &None));
    assert!(!baidu_settings_complete(true, &Some("k".to_string()), &Some(" ".to_string())));
    assert!(baidu_settings_complete(true, &Some("k".to_string()), &Some("s".to_string())));
    assert!(cloud189_settings_ok(true, &None, &None));
    assert!(!cloud189_settings_ok(false, &Some("u".to_string()), &None));
    assert!(cloud189_settings_ok(false, &Some("u".to_string()), &Some("p".to_string())));
}

#[test]
fn archive_file_names_are_exact() {
    assert_eq!(archive_file_name("demo", "20260211"), "demo-20260211.tar.zst");
    assert_eq!(archive_file_name_numbered("demo", "20260211", 3), "demo-20260211-3.tar.zst");
    assert_eq!(archive_file_name_numbered("demo", "20260211", 12), "demo-20260211-12.tar.zst");
}
