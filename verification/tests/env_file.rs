use now::env_file::{
    local_env_path, parse_env_text, resolve_env_value, updated_env_text, validate_env_name,
    EnvError, EnvFile,
};

#[test]
fn reads_plain_and_quoted_env_values() {
    let text = r#"
# ignored
PLAIN=https://example.com/path?sig=secret
QUOTED="https://example.com/$web?sv=1&sig=secret"
export SINGLE='hello world'
"#;

    let file = parse_env_text(text).unwrap();

    assert_eq!(file.get("PLAIN"), Some("https://example.com/path?sig=secret"));
    assert_eq!(file.get("QUOTED"), Some("https://example.com/$web?sv=1&sig=secret"));
    assert_eq!(file.get("SINGLE"), Some("hello world"));
}

#[test]
fn writes_or_replaces_env_value() {
    let existing = "KEEP=1\nNOW_AZURE_BLOB_SAS_URL=\"old\"\n";

    let text = updated_env_text(
        Some(existing),
        "NOW_AZURE_BLOB_SAS_URL",
        "https://acct.blob.core.windows.net/$web?sv=1&sig=secret",
    )
    .unwrap();

    assert!(text.contains("KEEP=1\n"));
    assert!(text.contains(
        "NOW_AZURE_BLOB_SAS_URL=\"https://acct.blob.core.windows.net/$web?sv=1&sig=secret\""
    ));
    assert_eq!(
        parse_env_text(&text).unwrap().get("NOW_AZURE_BLOB_SAS_URL"),
        Some("https://acct.blob.core.windows.net/$web?sv=1&sig=secret")
    );
}

#[test]
fn a_written_value_reads_back_in_a_new_file() {
    let text = updated_env_text(None, "TOKEN_VAR", "a \"quoted\" $value\\").unwrap();
    assert_eq!(parse_env_text(&text).unwrap().get("TOKEN_VAR"), Some("a \"quoted\" $value\\"));
}

#[test]
fn env_parse_errors() {
    assert!(matches!(parse_env_text("A=\"open"), Err(EnvError::UnterminatedDoubleQuote)));
    assert!(matches!(parse_env_text("A='open"), Err(EnvError::UnterminatedSingleQuote)));
    let skipped = parse_env_text("=x\n1A=y\nOK=z").unwrap();
    assert!(skipped.get("1A").is_none());
    assert_eq!(skipped.get("OK"), Some("z"));
    assert!(parse_env_text("NOT AN ASSIGNMENT").unwrap().get("NOT").is_none());
}

#[test]
fn env_names_are_checked() {
    assert!(validate_env_name("NOW_FTP_USERNAME").is_ok());
    assert!(matches!(validate_env_name(""), Err(EnvError::EmptyName)));
    assert!(matches!(validate_env_name("9X"), Err(EnvError::InvalidName)));
    assert_eq!(
        EnvError::InvalidName.message("9X"),
        "invalid environment variable name: 9X"
    );
}

#[test]
fn process_environment_wins_over_env_file() {
    let file = EnvFile::from_pairs(&[("A", " from-file ")]);
    assert_eq!(resolve_env_value(Some("from-process"), "A", Some(&file)).as_deref(), Some("from-process"));
    assert_eq!(resolve_env_value(Some("  "), "A", Some(&file)).as_deref(), Some("from-file"));
    assert_eq!(resolve_env_value(None, "B", Some(&file)), None);
    assert_eq!(local_env_path("/srv/site"), "/srv/site/.env");
}

#[test]
fn env_file_comments_and_export() {
    let file = parse_env_text("export A=1 # note\nB='x # y'\r\n").unwrap();
    assert_eq!(file.get("A"), Some("1"));
    assert_eq!(file.get("B"), Some("x # y"));
}

#[test]
fn writing_a_variable_keeps_the_other_lines_in_order() {
    assert_eq!(
        updated_env_text(Some("A=1\n# note\nB=2\nC=3\n"), "B", "x").unwrap(),
        "A=1\n# note\nB=\"x\"\nC=3\n"
    );
    assert_eq!(
        updated_env_text(Some("A=1\nC=3"), "B", "x").unwrap(),
        "A=1\nC=3\nB=\"x\"\n"
    );
    assert_eq!(updated_env_text(Some(""), "A", "v").unwrap(), "\nA=\"v\"\n");
}

#[test]
fn a_new_env_file_reads_back_as_the_one_variable() {
    let text = updated_env_text(None, "NOW_TOKEN", "a \"b\"\nc").unwrap();
    assert_eq!(text, "NOW_TOKEN=\"a \\\"b\\\"\\nc\"\n");
    let file = parse_env_text(&text).unwrap();
    assert_eq!(file.get("NOW_TOKEN"), Some("a \"b\"\nc"));
    assert_eq!(file.get("OTHER"), None);
}

#[test]
fn a_readable_env_file_reads_back_with_the_variable_set() {
    let before = "# keep\nA=1\nexport B='two'\n";
    let text = updated_env_text(Some(before), "A", "9").unwrap();
    let file = parse_env_text(&text).unwrap();
    assert_eq!(file.get("A"), Some("9"));
    assert_eq!(file.get("B"), Some("two"));
}
