use now::config::{
    default_config, global_config_path, is_secret_key, json_file_value, local_config_path,
    merged_config_value, parse_config, parse_config_value, secret_paths, set_key, ConfigError,
    NowConfig, ProviderKind,
};
use now::json::{get_key, merge_values, remove_key, JsonValue};
use now::number::{i64_text, parse_i64};

fn s(v: &str) -> JsonValue {
    JsonValue::Str(v.to_owned())
}

fn obj(members: Vec<(&str, JsonValue)>) -> JsonValue {
    JsonValue::Object(members.into_iter().map(|(k, v)| (k.to_owned(), v)).collect())
}

fn same(a: &JsonValue, b: &JsonValue) -> bool {
    match (a, b) {
        (JsonValue::Null, JsonValue::Null) => true,
        (JsonValue::Bool(x), JsonValue::Bool(y)) => x == y,
        (JsonValue::Number(x), JsonValue::Number(y)) => x == y,
        (JsonValue::Str(x), JsonValue::Str(y)) => x == y,
        (JsonValue::Array(x), JsonValue::Array(y)) => {
            x.len() == y.len() && x.iter().zip(y.iter()).all(|(p, q)| same(p, q))
        }
        (JsonValue::Object(x), JsonValue::Object(y)) => {
            x.len() == y.len()
                && x.iter().zip(y.iter()).all(|(p, q)| p.0 == q.0 && same(&p.1, &q.1))
        }
        _ => false,
    }
}

fn get_is(value: &JsonValue, key: &str, expected: &JsonValue) -> bool {
    match get_key(value, key) {
        Some(v) => same(v, expected),
        None => false,
    }
}

#[test]
fn merges_nested_values_with_overlay_priority() {
    let mut base = obj(vec![
        ("provider", s("firebase")),
        ("firebase", obj(vec![("project", s("global")), ("site", s("main"))])),
    ]);
    let overlay = obj(vec![("firebase", obj(vec![("project", s("local"))]))]);

    merge_values(&mut base, overlay);

    assert!(get_is(&base, "provider", &s("firebase")));
    assert!(get_is(&base, "firebase.project", &s("local")));
    assert!(get_is(&base, "firebase.site", &s("main")));
}

#[test]
fn set_key_creates_nested_objects() {
    let mut value = obj(vec![]);
    set_key(&mut value, "azure_blob.account", s("account-name")).unwrap();
    assert!(get_is(&value, "azure_blob.account", &s("account-name")));
}

#[test]
fn secret_values_are_rejected_but_env_names_are_allowed() {
    let mut value = obj(vec![]);

    assert!(set_key(&mut value, "ftp.password", s("plain")).is_err());
    assert!(set_key(&mut value, "ftp.password_env", s("NOW_FTP_PASSWORD")).is_ok());
    assert!(set_key(&mut value, "azure_swa.deployment_token_env", s("TOKEN_ENV")).is_ok());
}

#[test]
fn parses_provider_names_from_config() {
    let config = parse_config(obj(vec![("provider", s("azure-blob"))])).unwrap();
    assert_eq!(config.provider, Some(ProviderKind::AzureBlob));
}

#[test]
fn provider_names_display_names_and_aliases_parse() {
    assert_eq!(ProviderKind::parse("firebase-hosting"), Some(ProviderKind::Firebase));
    assert_eq!(ProviderKind::parse("Firebase Hosting"), Some(ProviderKind::Firebase));
    assert_eq!(ProviderKind::parse(" AZURE_SWA "), Some(ProviderKind::AzureSwa));
    assert_eq!(ProviderKind::parse("Any Website (FTP)"), Some(ProviderKind::Ftp));
    assert_eq!(ProviderKind::parse("azure-storage-blob"), Some(ProviderKind::AzureBlob));
    assert_eq!(ProviderKind::parse("s3"), None);
    assert_eq!(ProviderKind::AzureSwa.as_str(), "azure-static-web-app");
    assert_eq!(ProviderKind::Ftp.display_name(), "Any Website (FTP)");
}

#[test]
fn parse_config_refuses_secret_like_keys_and_names_them() {
    let value = obj(vec![("ftp", obj(vec![("password", s("x")), ("token", JsonValue::Null)]))]);
    match parse_config(value) {
        Err(ConfigError::SecretKeys(paths)) => assert_eq!(paths, ["ftp.password"]),
        other => panic!("unexpected {:?}", other.map(|_| ())),
    }
    let error = parse_config(obj(vec![("secret", s("x"))])).unwrap_err();
    assert_eq!(
        error.message(),
        "configuration contains secret-like keys; use provider login state or environment variables instead: secret"
    );
}

#[test]
fn parse_config_refuses_fields_of_the_wrong_type() {
    assert!(matches!(
        parse_config(obj(vec![("source", JsonValue::Bool(true))])),
        Err(ConfigError::Malformed)
    ));
    assert!(matches!(parse_config(obj(vec![("ftp", s("x"))])), Err(ConfigError::Malformed)));
    assert!(matches!(parse_config(s("x")), Err(ConfigError::Malformed)));
    assert!(matches!(
        parse_config(obj(vec![("provider", s("unknown"))])),
        Err(ConfigError::Malformed)
    ));
}

#[test]
fn parse_config_reads_every_section() {
    let value = obj(vec![
        ("provider", s("any-website-ftp")),
        ("source", s("site")),
        ("default_url", JsonValue::Null),
        ("unknown", JsonValue::Number("3".to_owned())),
        ("azure_blob", obj(vec![("overwrite", JsonValue::Bool(true)), ("prefix", s("p"))])),
        ("ftp", obj(vec![("host", s("ftp.example.com"))])),
    ]);
    let config = parse_config(value).unwrap();
    assert_eq!(config.provider, Some(ProviderKind::Ftp));
    assert_eq!(config.source.as_deref(), Some("site"));
    assert_eq!(config.default_url, None);
    assert_eq!(config.azure_blob.overwrite, Some(true));
    assert_eq!(config.azure_blob.prefix.as_deref(), Some("p"));
    assert_eq!(config.ftp.host.as_deref(), Some("ftp.example.com"));
    assert_eq!(config.firebase.project, None);
}

#[test]
fn secret_key_rules() {
    assert!(is_secret_key("ftp.password"));
    assert!(is_secret_key("azure_blob.Account_Key"));
    assert!(is_secret_key("x.accountkey"));
    assert!(!is_secret_key("ftp.password_env"));
    assert!(!is_secret_key("azure_swa.deployment_token_env"));
    assert!(!is_secret_key("azure_blob.sas_url"));
}

#[test]
fn secret_paths_walk_nested_objects() {
    let value = obj(vec![
        ("a", obj(vec![("token", s("t")), ("b", obj(vec![("secret", s("x"))]))])),
        ("password", JsonValue::Null),
    ]);
    assert_eq!(secret_paths(&value), ["a.token", "a.b.secret"]);
}

#[test]
fn set_key_refusals_before_the_walk_leave_the_value_alone() {
    let mut value = obj(vec![("a", s("1"))]);
    assert!(matches!(set_key(&mut value, "  ", s("x")), Err(ConfigError::EmptyKey)));
    assert!(matches!(set_key(&mut value, "my.secret", s("x")), Err(ConfigError::SecretKey(_))));
    assert!(same(&value, &obj(vec![("a", s("1"))])));
    assert!(matches!(set_key(&mut value, "a..b", s("x")), Err(ConfigError::EmptySegment(_))));
    assert!(same(&value, &obj(vec![("a", obj(vec![]))])));
}

#[test]
fn set_key_replaces_a_scalar_on_the_way() {
    let mut value = obj(vec![("a", s("1"))]);
    set_key(&mut value, "a.b", s("2")).unwrap();
    assert!(same(&value, &obj(vec![("a", obj(vec![("b", s("2"))]))])));
    let mut value = s("not an object");
    set_key(&mut value, "x", JsonValue::Bool(true)).unwrap();
    assert!(same(&value, &obj(vec![("x", JsonValue::Bool(true))])));
}

#[test]
fn remove_key_takes_out_one_member() {
    let mut value = obj(vec![("azure_blob", obj(vec![("sas_url", s("u")), ("prefix", s("p"))]))]);
    remove_key(&mut value, "azure_blob.sas_url");
    assert!(same(&value, &obj(vec![("azure_blob", obj(vec![("prefix", s("p"))]))])));
}

#[test]
fn config_values_from_the_command_line() {
    assert!(same(&parse_config_value("true", Some(JsonValue::Bool(true))), &JsonValue::Bool(true)));
    assert!(same(&parse_config_value("null", Some(JsonValue::Null)), &JsonValue::Null));
    assert!(same(&parse_config_value("42", None), &JsonValue::Number("42".to_owned())));
    assert!(same(&parse_config_value("-007", None), &JsonValue::Number("-7".to_owned())));
    assert!(same(&parse_config_value("{oops", None), &s("{oops")));
    assert!(same(&parse_config_value("hello", None), &s("hello")));
    assert!(same(
        &parse_config_value("[1]", Some(JsonValue::Array(vec![JsonValue::Number("1".to_owned())]))),
        &JsonValue::Array(vec![JsonValue::Number("1".to_owned())])
    ));
    assert!(same(&parse_config_value("99999999999999999999", None), &s("99999999999999999999")));
}

#[test]
fn decimal_numbers_round_trip() {
    assert_eq!(parse_i64("+12"), Some(12));
    assert_eq!(parse_i64("-9223372036854775808"), Some(i64::MIN));
    assert_eq!(parse_i64("9223372036854775808"), None);
    assert_eq!(parse_i64(""), None);
    assert_eq!(parse_i64("1e3"), None);
    assert_eq!(i64_text(i64::MIN), "-9223372036854775808");
    assert_eq!(i64_text(0), "0");
    assert_eq!(i64_text(1200), "1200");
}

#[test]
fn default_config_offers_defaults() {
    let value = default_config();
    assert!(get_is(&value, "azure_blob.container", &s("$web")));
    assert!(get_is(&value, "azure_swa.environment", &s("production")));
    assert!(get_is(&value, "ftp.remote_dir", &s("/")));
    assert!(get_is(&value, "provider", &JsonValue::Null));
}

#[test]
fn config_file_locations() {
    assert_eq!(local_config_path("/srv/site"), "/srv/site/.now.json");
    assert_eq!(
        global_config_path(Some("/cfg"), Some("/xdg"), Some("/home/u")).unwrap(),
        "/cfg/settings.json"
    );
    assert_eq!(
        global_config_path(None, Some("/xdg"), Some("/home/u")).unwrap(),
        "/xdg/now/settings.json"
    );
    assert_eq!(
        global_config_path(None, None, Some("/home/u")).unwrap(),
        "/home/u/.config/now/settings.json"
    );
    assert!(matches!(global_config_path(None, None, None), Err(ConfigError::NoHomeDirectory)));
}

#[test]
fn config_files_must_hold_objects() {
    assert!(same(&json_file_value(None, None).unwrap(), &obj(vec![])));
    assert!(same(&json_file_value(Some("  \n"), None).unwrap(), &obj(vec![])));
    assert!(matches!(json_file_value(Some("[1]"), Some(JsonValue::Array(vec![]))), Err(ConfigError::NotAnObject)));
    assert!(matches!(json_file_value(Some("{"), None), Err(ConfigError::InvalidJson)));
}

#[test]
fn merged_configuration_puts_the_cli_provider_last() {
    let global = obj(vec![("provider", s("firebase-hosting")), ("base_url", s("https://g"))]);
    let local = obj(vec![("base_url", s("https://l"))]);
    let merged = merged_config_value(global, local, Some(ProviderKind::Ftp));
    assert!(get_is(&merged, "provider", &s("any-website-ftp")));
    assert!(get_is(&merged, "base_url", &s("https://l")));
}

#[test]
fn provider_base_url_prefers_the_top_level() {
    let mut config = NowConfig::default();
    config.firebase.base_url = Some("https://section".to_owned());
    assert_eq!(config.provider_base_url(ProviderKind::Firebase), Some("https://section"));
    assert_eq!(config.provider_base_url(ProviderKind::Ftp), None);
    config.base_url = Some("  ".to_owned());
    assert_eq!(config.provider_base_url(ProviderKind::Firebase), None);
    config.base_url = Some("https://top".to_owned());
    assert_eq!(config.provider_base_url(ProviderKind::Firebase), Some("https://top"));
}

#[test]
fn an_empty_key_segment_fails_after_the_walk_made_objects() {
    let mut value = s("not an object");
    assert!(matches!(set_key(&mut value, "a..b", s("x")), Err(ConfigError::EmptySegment(_))));
    assert!(same(&value, &obj(vec![("a", obj(vec![]))])));

    let mut value = obj(vec![("z", s("1")), ("a", s("plain"))]);
    assert!(matches!(set_key(&mut value, "a.b.", s("x")), Err(ConfigError::EmptySegment(_))));
    assert!(same(&value, &obj(vec![("z", s("1")), ("a", obj(vec![("b", obj(vec![]))]))])));

    let mut value = s("x");
    assert!(matches!(set_key(&mut value, ".a", s("x")), Err(ConfigError::EmptySegment(_))));
    assert!(same(&value, &obj(vec![])));

    let mut value = s("kept");
    assert!(matches!(set_key(&mut value, "ftp.password", s("x")), Err(ConfigError::SecretKey(_))));
    assert!(same(&value, &s("kept")));
}

#[test]
fn new_members_go_in_name_order() {
    let mut value = obj(vec![("b", s("1")), ("d", s("2"))]);
    set_key(&mut value, "c", s("3")).unwrap();
    set_key(&mut value, "a", s("0")).unwrap();
    set_key(&mut value, "e", s("4")).unwrap();
    assert!(same(
        &value,
        &obj(vec![("a", s("0")), ("b", s("1")), ("c", s("3")), ("d", s("2")), ("e", s("4"))])
    ));

    let mut base = obj(vec![("ftp", obj(vec![("password", s("p"))]))]);
    merge_values(&mut base, obj(vec![("azure_swa", obj(vec![("deployment_token", s("t"))]))]));
    assert_eq!(secret_paths(&base), ["azure_swa.deployment_token", "ftp.password"]);
}
