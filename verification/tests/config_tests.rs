use langfuse_cli::config::{Config, ConfigFile, EnvConfig, Profile};
use langfuse_cli::types::OutputFormat;

fn empty_env() -> EnvConfig {
    EnvConfig {
        profile: None,
        public_key: None,
        secret_key: None,
        host: None,
    }
}

#[test]
fn test_config_default() {
    let config = Config::default();

    assert!(config.public_key.is_none());
    assert!(config.secret_key.is_none());
    assert_eq!(config.host, "https://cloud.langfuse.com");
    assert_eq!(config.profile, "default");
    assert_eq!(config.format, OutputFormat::Table);
    assert_eq!(config.limit, 50);
    assert_eq!(config.page, 1);
    assert!(config.output.is_none());
    assert!(!config.verbose);
    assert!(!config.no_color);
}

#[test]
fn test_config_is_valid_with_all_credentials() {
    let config = Config {
        public_key: Some("pk-test-123".to_string()),
        secret_key: Some("sk-test-456".to_string()),
        host: "https://example.com".to_string(),
        ..Default::default()
    };

    assert!(config.is_valid());
}

#[test]
fn test_config_is_invalid_without_public_key() {
    let config = Config {
        public_key: None,
        secret_key: Some("sk-test-456".to_string()),
        host: "https://example.com".to_string(),
        ..Default::default()
    };

    assert!(!config.is_valid());
}

#[test]
fn test_config_is_invalid_without_secret_key() {
    let config = Config {
        public_key: Some("pk-test-123".to_string()),
        secret_key: None,
        host: "https://example.com".to_string(),
        ..Default::default()
    };

    assert!(!config.is_valid());
}

#[test]
fn test_config_is_invalid_with_empty_host() {
    let config = Config {
        public_key: Some("pk-test-123".to_string()),
        secret_key: Some("sk-test-456".to_string()),
        host: "".to_string(),
        ..Default::default()
    };

    assert!(!config.is_valid());
}

#[test]
fn test_mask_key_short_key() {
    assert_eq!(Config::mask_key("abc"), "***");
    assert_eq!(Config::mask_key("12345678"), "********");
}

#[test]
fn test_mask_key_long_key() {
    assert_eq!(Config::mask_key("pk-test-1234567890"), "pk-test-********");
    assert_eq!(Config::mask_key("sk-lf-1234567890abcdef"), "sk-lf-12********");
}

#[test]
fn test_mask_key_empty() {
    assert_eq!(Config::mask_key(""), "");
}

#[test]
fn test_mask_key_exactly_8_chars() {
    assert_eq!(Config::mask_key("abcdefgh"), "********");
}

#[test]
fn test_mask_key_9_chars() {
    assert_eq!(Config::mask_key("abcdefghi"), "abcdefgh********");
}

#[test]
fn test_mask_key_unicode() {
    // Unicode characters should be handled properly
    assert_eq!(Config::mask_key("🔑🔑🔑"), "***");
    let key = "pk-日本語テスト";
    let masked = Config::mask_key(key);
    assert!(!masked.is_empty());
}

#[test]
fn test_profile_default() {
    let profile = Profile::default();

    assert!(profile.public_key.is_none());
    assert!(profile.secret_key.is_none());
    assert!(profile.host.is_none());
}

#[test]
fn test_config_file_default() {
    let config_file = ConfigFile::default();

    assert!(config_file.profiles.is_empty());
}

#[test]
fn test_config_load_with_cli_options() {
    // CLI options should override everything
    let config = Config::load(
        Some("custom-profile"),
        Some("pk-cli"),
        Some("sk-cli"),
        Some("https://cli.example.com"),
        Some(OutputFormat::Json),
        Some(100),
        Some(5),
        Some("/tmp/output.json"),
        true,
        true,
        &empty_env(),
        &ConfigFile::default(),
    );

    assert_eq!(config.public_key, Some("pk-cli".to_string()));
    assert_eq!(config.secret_key, Some("sk-cli".to_string()));
    assert_eq!(config.host, "https://cli.example.com");
    assert_eq!(config.profile, "custom-profile");
    assert_eq!(config.format, OutputFormat::Json);
    assert_eq!(config.limit, 100);
    assert_eq!(config.page, 5);
    assert_eq!(config.output, Some("/tmp/output.json".to_string()));
    assert!(config.verbose);
    assert!(config.no_color);
}

#[test]
fn test_config_load_format_options() {
    let config_table = Config::load(
        None,
        None,
        None,
        None,
        Some(OutputFormat::Table),
        None,
        None,
        None,
        false,
        false,
        &empty_env(),
        &ConfigFile::default(),
    );
    assert_eq!(config_table.format, OutputFormat::Table);

    let config_json = Config::load(
        None,
        None,
        None,
        None,
        Some(OutputFormat::Json),
        None,
        None,
        None,
        false,
        false,
        &empty_env(),
        &ConfigFile::default(),
    );
    assert_eq!(config_json.format, OutputFormat::Json);

    let config_csv = Config::load(
        None,
        None,
        None,
        None,
        Some(OutputFormat::Csv),
        None,
        None,
        None,
        false,
        false,
        &empty_env(),
        &ConfigFile::default(),
    );
    assert_eq!(config_csv.format, OutputFormat::Csv);

    let config_md = Config::load(
        None,
        None,
        None,
        None,
        Some(OutputFormat::Markdown),
        None,
        None,
        None,
        false,
        false,
        &empty_env(),
        &ConfigFile::default(),
    );
    assert_eq!(config_md.format, OutputFormat::Markdown);
}

#[test]
fn test_config_with_unicode_values() {
    let config = Config::load(
        Some("профиль"),
        Some("pk-测试"),
        Some("sk-テスト"),
        Some("https://example.com/путь"),
        None,
        None,
        None,
        Some("/tmp/出力.json"),
        false,
        false,
        &empty_env(),
        &ConfigFile::default(),
    );

    assert_eq!(config.profile, "профиль");
    assert_eq!(config.public_key, Some("pk-测试".to_string()));
    assert_eq!(config.secret_key, Some("sk-テスト".to_string()));
    assert_eq!(config.output, Some("/tmp/出力.json".to_string()));
}

#[test]
fn test_config_load_env_over_file() {
    let mut file = ConfigFile::default();
    Config::set_profile(&mut file, "default", "pk-file", "sk-file", Some("https://file.example.com"));
    let env = EnvConfig {
        profile: None,
        public_key: Some("pk-env".to_string()),
        secret_key: None,
        host: None,
    };
    let config = Config::load(
        None, None, None, None, None, None, None, None, false, false, &env, &file,
    );

    assert_eq!(config.public_key, Some("pk-env".to_string()));
    assert_eq!(config.secret_key, Some("sk-file".to_string()));
    assert_eq!(config.host, "https://file.example.com");
}

#[test]
fn test_set_profile_replaces_existing() {
    let mut file = ConfigFile::default();
    Config::set_profile(&mut file, "default", "pk-1", "sk-1", None);
    Config::set_profile(&mut file, "staging", "pk-2", "sk-2", Some("https://s.example.com"));
    Config::set_profile(&mut file, "default", "pk-3", "sk-3", None);

    assert_eq!(file.profiles.len(), 2);
    let p = Config::get_profile(&file, "default").unwrap();
    assert_eq!(p.public_key.as_deref(), Some("pk-3"));
    let names = Config::list_profiles(&file);
    assert_eq!(names, vec!["default".to_string(), "staging".to_string()]);
}

#[test]
fn test_get_profile_missing() {
    let file = ConfigFile::default();
    assert!(Config::get_profile(&file, "nope").is_none());
}
