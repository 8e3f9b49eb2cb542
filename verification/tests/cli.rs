use now::cli::{
    config_path, doctor_head_lines, doctor_provider_lines, execute, get_config, parse_provider,
    plain_text, plan_config_set, required_cli_name, CliError, Cli, Command, ConfigCommand,
    ConfigReadScope, ConfigWriteScope, DeployArgs, Invocation, ScopeArgs,
};
use now::config::{NowConfig, ProviderKind};
use now::json::{get_key, JsonValue};

fn obj(members: Vec<(&str, JsonValue)>) -> JsonValue {
    JsonValue::Object(members.into_iter().map(|(k, v)| (k.to_owned(), v)).collect())
}

fn text_at(config: &JsonValue, key: &str) -> Option<String> {
    match get_key(config, key) {
        Some(JsonValue::Str(s)) => Some(s.clone()),
        _ => None,
    }
}

#[test]
fn scopes() {
    let both = ScopeArgs { global: true, local: false };
    assert_eq!(both.read_scope(), ConfigReadScope::Global);
    assert_eq!(both.write_scope(), ConfigWriteScope::Global);
    let local = ScopeArgs { global: false, local: true };
    assert_eq!(local.read_scope(), ConfigReadScope::Local);
    assert_eq!(local.write_scope(), ConfigWriteScope::Local);
    let none = ScopeArgs { global: false, local: false };
    assert_eq!(none.read_scope(), ConfigReadScope::Merged);
}

#[test]
fn provider_values_on_the_command_line() {
    assert_eq!(parse_provider("Firebase Hosting"), Ok(ProviderKind::Firebase));
    assert_eq!(
        parse_provider("heroku"),
        Err("unsupported provider heroku; expected firebase-hosting, azure-storage-blob, azure-static-web-app, or any-website-ftp".to_owned())
    );
}

#[test]
fn the_plain_command_deploys_the_given_path() {
    let cli = Cli { command: None, path: Some("site".to_owned()), verbose: true };
    match execute(cli, "/srv".to_owned()) {
        Invocation::Deploy(r) => {
            assert!(r.path_was_explicit);
            assert_eq!(r.path.as_deref(), Some("site"));
            assert!(r.verbose);
            assert!(!r.dry_run);
            assert_eq!(r.cwd, "/srv");
        }
        _ => panic!("expected a deployment"),
    }
    let cli = Cli {
        command: Some(Command::Deploy(DeployArgs {
            path: None,
            source: Some("one-off".to_owned()),
            provider: Some(ProviderKind::Ftp),
            prefix: None,
            remote_dir: Some("/x".to_owned()),
            dry_run: true,
            json: false,
            verbose: false,
        })),
        path: None,
        verbose: false,
    };
    match execute(cli, "/srv".to_owned()) {
        Invocation::Deploy(r) => {
            assert!(!r.path_was_explicit);
            assert_eq!(r.source.as_deref(), Some("one-off"));
            assert_eq!(r.remote_dir.as_deref(), Some("/x"));
            assert!(r.dry_run);
        }
        _ => panic!("expected a deployment"),
    }
    let cli = Cli {
        command: Some(Command::Config(ConfigCommand::Get {
            key: Some("provider".to_owned()),
            scope: ScopeArgs { global: false, local: true },
        })),
        path: None,
        verbose: false,
    };
    assert!(matches!(
        execute(cli, "/srv".to_owned()),
        Invocation::ConfigGet { scope: ConfigReadScope::Local, key: Some(_) }
    ));
}

#[test]
fn config_files_by_scope() {
    assert_eq!(config_path(ConfigWriteScope::Local, "/srv", None, None, None).unwrap(), "/srv/.now.json");
    assert_eq!(
        config_path(ConfigWriteScope::Global, "/srv", Some("/cfg"), None, None).unwrap(),
        "/cfg/settings.json"
    );
}

#[test]
fn config_set_writes_values() {
    let plan = plan_config_set(
        ConfigWriteScope::Local,
        "provider",
        "firebase-hosting",
        None,
        obj(vec![]),
    )
    .unwrap();
    assert_eq!(text_at(&plan.value, "provider").as_deref(), Some("firebase-hosting"));
    assert!(plan.env_value.is_none());
    assert!(matches!(
        plan_config_set(ConfigWriteScope::Local, "ftp.password", "x", None, obj(vec![])),
        Err(CliError::Config(_))
    ));
}

#[test]
fn config_set_sas_url_goes_to_env_file() {
    let current = obj(vec![("azure_blob", obj(vec![("sas_url", JsonValue::Str("old".to_owned()))]))]);
    let plan = plan_config_set(
        ConfigWriteScope::Local,
        "azure_blob.sas_url",
        "https://acct.blob.core.windows.net/$web?sv=1&sig=secret",
        None,
        current,
    )
    .unwrap();
    assert_eq!(text_at(&plan.value, "azure_blob.sas_url_env").as_deref(), Some("NOW_AZURE_BLOB_SAS_URL"));
    assert!(get_key(&plan.value, "azure_blob.sas_url").is_none());
    let (name, value) = plan.env_value.unwrap();
    assert_eq!(name, "NOW_AZURE_BLOB_SAS_URL");
    assert!(value.contains("sig=secret"));
    let refused = plan_config_set(ConfigWriteScope::Global, "azure_blob.sas_url", "u", None, obj(vec![]));
    match refused {
        Err(e) => assert!(e.message().contains("secret-like")),
        Ok(_) => panic!("expected a refusal"),
    }
}

#[test]
fn naming_the_sas_variable_drops_a_stored_url() {
    let current = obj(vec![("azure_blob", obj(vec![("sas_url", JsonValue::Str("old".to_owned()))]))]);
    let plan = plan_config_set(ConfigWriteScope::Local, "azure_blob.sas_url_env", "MY_SAS", None, current).unwrap();
    assert_eq!(text_at(&plan.value, "azure_blob.sas_url_env").as_deref(), Some("MY_SAS"));
    assert!(get_key(&plan.value, "azure_blob.sas_url").is_none());
}

#[test]
fn config_get_prints_values() {
    let value = obj(vec![("provider", JsonValue::Str("firebase-hosting".to_owned()))]);
    let v = get_config(&value, Some("provider")).unwrap();
    assert_eq!(plain_text(v), Some("firebase-hosting"));
    match get_config(&value, Some("missing.key")) {
        Err(e) => assert_eq!(e.message(), "config key not found: missing.key"),
        Ok(_) => panic!("expected an error"),
    }
    assert!(plain_text(get_config(&value, None).unwrap()).is_none());
}

#[test]
fn doctor_report() {
    let merged = obj(vec![("ftp", obj(vec![("password", JsonValue::Str("x".to_owned()))]))]);
    assert_eq!(
        doctor_head_lines("/g/settings.json", "/p/.now.json", &merged),
        [
            "Global config: /g/settings.json",
            "Local config: /p/.now.json",
            "Secrets: remove these keys: ftp.password",
        ]
    );
    let mut config = NowConfig::default();
    assert_eq!(doctor_provider_lines(&config, "/p", None, None, true), ["Provider: not configured"]);
    config.provider = Some(ProviderKind::Firebase);
    assert_eq!(
        doctor_provider_lines(&config, "/p", None, None, false),
        [
            "Provider: Firebase Hosting",
            "Command: firebase deploy --only hosting",
            "Provider CLI: missing firebase",
            "Install Firebase CLI with: npm install -g firebase-tools",
        ]
    );
    config.provider = Some(ProviderKind::AzureBlob);
    let lines = doctor_provider_lines(&config, "/p", None, None, false);
    assert_eq!(lines[1], "Provider config: Azure Storage Blob SAS URL is required: set azure_blob.sas_url_env and provide the URL in that environment variable or in .env");
    assert_eq!(required_cli_name(ProviderKind::AzureSwa), "swa");
}
