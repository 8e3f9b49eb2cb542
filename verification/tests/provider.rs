use now::config::{AzureSwaConfig, FtpConfig, NowConfig, ProviderKind};
use now::provider::{build_provider_command, provider_install_hint, shell_join, shell_quote};

#[test]
fn firebase_command_uses_hosting_only() {
    let config = NowConfig::default();
    let command = build_provider_command(ProviderKind::Firebase, &config, "public").unwrap();

    assert_eq!(command.program, "firebase");
    assert_eq!(command.args, ["deploy", "--only", "hosting"]);
}

#[test]
fn azure_blob_command_builder_is_not_used_for_native_upload() {
    let config = NowConfig::default();
    let error = build_provider_command(ProviderKind::AzureBlob, &config, "public")
        .unwrap_err()
        .message();

    assert!(error.contains("built-in SAS URL upload"));
}

#[test]
fn ftp_command_display_does_not_include_plaintext_secret() {
    let config = NowConfig {
        ftp: FtpConfig {
            host: Some("example.com".to_owned()),
            remote_dir: Some("/www".to_owned()),
            username_env: Some("NOW_FTP_USERNAME".to_owned()),
            password_env: Some("NOW_FTP_PASSWORD".to_owned()),
            base_url: None,
        },
        ..NowConfig::default()
    };
    let command = build_provider_command(ProviderKind::Ftp, &config, "public").unwrap();

    assert!(!command.display_line().contains("super-secret"));
    assert!(command.display_line().contains("lftp"));
    assert_eq!(command.required_env, ["NOW_FTP_USERNAME", "NOW_FTP_PASSWORD"]);
}

#[test]
fn azure_swa_maps_configured_token_env_to_cli_env() {
    let config = NowConfig {
        azure_swa: AzureSwaConfig {
            deployment_token_env: Some("AZURE_STATIC_WEB_APPS_API_TOKEN".to_owned()),
            ..Default::default()
        },
        ..NowConfig::default()
    };

    let command = build_provider_command(ProviderKind::AzureSwa, &config, "public").unwrap();

    assert_eq!(command.required_env, ["AZURE_STATIC_WEB_APPS_API_TOKEN"]);
    assert_eq!(
        command.env_mappings,
        [(
            "SWA_CLI_DEPLOYMENT_TOKEN".to_owned(),
            "AZURE_STATIC_WEB_APPS_API_TOKEN".to_owned()
        )]
    );
    assert!(!command.display_line().contains("TOKEN"));
}

#[test]
fn verbose_firebase_command_adds_debug_flag() {
    let config = NowConfig::default();
    let command = build_provider_command(ProviderKind::Firebase, &config, "public")
        .unwrap()
        .with_debug_logs();
    assert_eq!(command.execution_line(), "firebase --debug deploy --only hosting");
    assert_eq!(command.display_line(), "firebase --debug deploy --only hosting");
}

#[test]
fn firebase_project_and_site_go_into_the_command() {
    let mut config = NowConfig::default();
    config.firebase.project = Some("demo".to_owned());
    config.firebase.site = Some("main".to_owned());
    let command = build_provider_command(ProviderKind::Firebase, &config, "public").unwrap();
    assert_eq!(command.args, ["deploy", "--only", "hosting:main", "--project", "demo"]);
}

#[test]
fn ftp_without_host_is_refused() {
    let config = NowConfig::default();
    let error = build_provider_command(ProviderKind::Ftp, &config, "public").unwrap_err();
    assert_eq!(error.message(), "ftp.host is required for provider Any Website (FTP)");
}

#[test]
fn missing_environment_variables_are_named() {
    let config = NowConfig::default();
    let command = build_provider_command(ProviderKind::AzureSwa, &config, "public").unwrap();
    let error = command.validate_environment(&vec![None]).unwrap_err();
    assert_eq!(
        error.message(),
        "missing required environment variable(s) for Azure Static Web App: SWA_CLI_DEPLOYMENT_TOKEN"
    );
    assert!(command.validate_environment(&vec![Some("t".to_owned())]).is_ok());
    let env = command.apply_environment(&vec![Some("t".to_owned())]).unwrap();
    assert_eq!(env, [("SWA_CLI_DEPLOYMENT_TOKEN".to_owned(), "t".to_owned())]);
}

#[test]
fn shell_quoting_keeps_safe_words_and_quotes_the_rest() {
    assert_eq!(shell_quote("public"), "public");
    assert_eq!(shell_quote("it's here"), "'it'\\''s here'");
    assert_eq!(shell_join(&vec!["a b".to_owned(), "c".to_owned()]), "'a b' c");
}

#[test]
fn install_hints_name_the_tools() {
    assert!(provider_install_hint(ProviderKind::Firebase).contains("npm install -g firebase-tools"));
    assert!(provider_install_hint(ProviderKind::Ftp).contains("lftp"));
}

#[test]
fn commands_run_in_the_project_unless_they_name_a_directory() {
    let mut command =
        build_provider_command(ProviderKind::Firebase, &NowConfig::default(), "/srv/site/dist").unwrap();
    assert_eq!(command.working_directory("/srv/site"), "/srv/site");
    command.cwd = Some("/elsewhere".to_owned());
    assert_eq!(command.working_directory("/srv/site"), "/elsewhere");
}
