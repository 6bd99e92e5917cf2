use pristup::config::{
    resolve_config, config_file_contents, is_valid_account_id, is_valid_timeout, ConfigError,
    ConfigField, ConfigSource,
};

fn s(x: &str) -> Option<String> {
    Some(x.to_string())
}

fn full_cli() -> ConfigSource {
    ConfigSource {
        account_id: s("123456789012"),
        role: s("Admin"),
        session_name: s("Pristup"),
        timeout: Some(3600),
        use_clipboard: Some(true),
    }
}

fn empty() -> ConfigSource {
    ConfigSource::empty()
}

#[test]
fn resolves_from_cli_alone() {
    let c = resolve_config(&full_cli(), &empty()).unwrap();
    assert_eq!(c.account_id, "123456789012");
    assert_eq!(c.role, "Admin");
    assert_eq!(c.session_name, "Pristup");
    assert_eq!(c.timeout, 3600);
    assert!(c.use_clipboard);
}

#[test]
fn resolves_from_file_alone() {
    let file = ConfigSource {
        account_id: s("210987654321"),
        role: s("ReadOnly"),
        session_name: s("Session"),
        timeout: Some(900),
        use_clipboard: Some(false),
    };
    let c = resolve_config(&empty(), &file).unwrap();
    assert_eq!(c.account_id, "210987654321");
    assert_eq!(c.role, "ReadOnly");
    assert_eq!(c.session_name, "Session");
    assert_eq!(c.timeout, 900);
    assert!(!c.use_clipboard);
}

#[test]
fn cli_wins_over_file_field_by_field() {
    // A CLI role with a file account id yields a configuration combining
    // both sources, and the CLI timeout shadows the file's.
    let cli = ConfigSource {
        account_id: None,
        role: s("CliRole"),
        session_name: None,
        timeout: Some(4000),
        use_clipboard: None,
    };
    let file = ConfigSource {
        account_id: s("123456789012"),
        role: s("FileRole"),
        session_name: s("FileSession"),
        timeout: Some(900),
        use_clipboard: Some(true),
    };
    let c = resolve_config(&cli, &file).unwrap();
    assert_eq!(c.account_id, "123456789012");
    assert_eq!(c.role, "CliRole");
    assert_eq!(c.session_name, "FileSession");
    assert_eq!(c.timeout, 4000);
    assert!(c.use_clipboard);
}

#[test]
fn clipboard_defaults_to_false() {
    let mut cli = full_cli();
    cli.use_clipboard = None;
    let c = resolve_config(&cli, &empty()).unwrap();
    assert!(!c.use_clipboard);
}

#[test]
fn missing_field_is_named() {
    // Partial identity arguments with no file: a missing-configuration
    // error naming the absent field, not a silent fallback.
    let cli = ConfigSource {
        account_id: s("123456789012"),
        role: s("Admin"),
        session_name: None,
        timeout: Some(3600),
        use_clipboard: None,
    };
    assert_eq!(
        resolve_config(&cli, &empty()),
        Err(ConfigError::MissingConfiguration(ConfigField::SessionName))
    );
}

#[test]
fn everything_missing_names_account_first() {
    assert_eq!(
        resolve_config(&empty(), &empty()),
        Err(ConfigError::MissingConfiguration(ConfigField::AccountId))
    );
}

#[test]
fn missing_timeout_is_named() {
    let mut cli = full_cli();
    cli.timeout = None;
    assert_eq!(
        resolve_config(&cli, &empty()),
        Err(ConfigError::MissingConfiguration(ConfigField::Timeout))
    );
}

#[test]
fn timeout_below_range_is_invalid() {
    let mut cli = full_cli();
    cli.timeout = Some(899);
    assert_eq!(
        resolve_config(&cli, &empty()),
        Err(ConfigError::InvalidConfiguration(ConfigField::Timeout))
    );
}

#[test]
fn timeout_above_range_is_invalid() {
    let mut cli = full_cli();
    cli.timeout = Some(129601);
    assert_eq!(
        resolve_config(&cli, &empty()),
        Err(ConfigError::InvalidConfiguration(ConfigField::Timeout))
    );
}

#[test]
fn timeout_bounds_are_inclusive() {
    let mut cli = full_cli();
    cli.timeout = Some(900);
    assert_eq!(resolve_config(&cli, &empty()).unwrap().timeout, 900);
    cli.timeout = Some(129600);
    assert_eq!(resolve_config(&cli, &empty()).unwrap().timeout, 129600);
}

#[test]
fn malformed_account_id_is_invalid() {
    for bad in ["12345678901", "1234567890123", "12345678901a", "", "123 45678901"] {
        let mut cli = full_cli();
        cli.account_id = s(bad);
        assert_eq!(
            resolve_config(&cli, &empty()),
            Err(ConfigError::InvalidConfiguration(ConfigField::AccountId)),
            "account id {:?} should be invalid",
            bad
        );
    }
}

#[test]
fn blank_role_and_session_are_invalid() {
    let mut cli = full_cli();
    cli.role = s("");
    assert_eq!(
        resolve_config(&cli, &empty()),
        Err(ConfigError::InvalidConfiguration(ConfigField::Role))
    );
    let mut cli = full_cli();
    cli.session_name = s("");
    assert_eq!(
        resolve_config(&cli, &empty()),
        Err(ConfigError::InvalidConfiguration(ConfigField::SessionName))
    );
}

#[test]
fn account_id_validation() {
    assert!(is_valid_account_id("123456789012"));
    assert!(is_valid_account_id("000000000000"));
    assert!(!is_valid_account_id("12345678901"));
    assert!(!is_valid_account_id("a23456789012"));
    assert!(!is_valid_account_id(""));
}

#[test]
fn timeout_validation() {
    assert!(is_valid_timeout(900));
    assert!(is_valid_timeout(129600));
    assert!(is_valid_timeout(3600));
    assert!(!is_valid_timeout(899));
    assert!(!is_valid_timeout(129601));
    assert!(!is_valid_timeout(-900));
}

#[test]
fn config_error_messages_name_the_field() {
    let m = ConfigError::MissingConfiguration(ConfigField::Role).message();
    assert!(m.contains("role"));
    assert!(m.contains("parameter"));
    let m = ConfigError::InvalidConfiguration(ConfigField::AccountId).message();
    assert!(m.contains("12 digit"));
    let m = ConfigError::InvalidConfiguration(ConfigField::Timeout).message();
    assert!(m.contains("900"));
    assert!(m.contains("129600"));
}

#[test]
fn rendered_config_file_round_trips() {
    let text = config_file_contents("123456789012", "Admin", 3600);
    assert_eq!(
        text,
        "[config]\naccount_id = \"123456789012\"\nrole = \"Admin\"\nsession_name = \"Pristup\"\ntimeout = 3600\nuse_clipboard = false\n"
    );
    // The field names must match what the file-reading side parses.
    let value: toml::Value = toml::from_str(&text).unwrap();
    let section = value.get("config").unwrap();
    assert_eq!(
        section.get("account_id").unwrap().as_str().unwrap(),
        "123456789012"
    );
    assert_eq!(section.get("role").unwrap().as_str().unwrap(), "Admin");
    assert_eq!(
        section.get("session_name").unwrap().as_str().unwrap(),
        "Pristup"
    );
    assert_eq!(section.get("timeout").unwrap().as_integer().unwrap(), 3600);
    assert_eq!(
        section.get("use_clipboard").unwrap().as_bool().unwrap(),
        false
    );
}
