use now::config::{AzureBlobConfig, NowConfig, ProviderKind};
use now::deploy::{
    answer_is_yes, apply_overrides, choose_default_url, config_source_for_path,
    deploy_summary_lines, join_url, moves_to_public, needs_local_env, provider_after_setup,
    provider_cli_missing_message, public_directory_selection, publishable_files_choice,
    publishable_files_question, remember_publishable_choice, resolve_provider, select_source,
    source_probes, DeployError, DeployRequest, ProviderChoice, PublishableChoice, SourceMode,
};
use now::env_file::EnvFile;
use now::json::{get_key, JsonValue};

fn dirs(v: &[&str]) -> Vec<String> {
    v.iter().map(|s| s.to_string()).collect()
}

fn request() -> DeployRequest {
    DeployRequest {
        cwd: "/srv/site".to_owned(),
        path: None,
        source: None,
        path_was_explicit: false,
        provider: None,
        prefix: None,
        remote_dir: None,
        dry_run: false,
        json: false,
        verbose: false,
    }
}

#[test]
fn selects_default_source_by_priority() {
    let temp = "/tmp/project";
    let existing = dirs(&["/tmp/project", "/tmp/project/build", "/tmp/project/dist"]);

    let selection = select_source(temp, None, false, None, &existing).unwrap();

    assert_eq!(selection.source, "/tmp/project/dist");
    assert_eq!(selection.mode, SourceMode::AutoDetected);
}

#[test]
fn explicit_path_bypasses_auto_detection() {
    let temp = "/tmp/project";
    let existing = dirs(&["/tmp/project", "/tmp/project/dist", "/tmp/project/site"]);

    let selection = select_source(temp, Some("site"), true, None, &existing).unwrap();

    assert_eq!(selection.source, "/tmp/project/site");
    assert_eq!(selection.mode, SourceMode::ExplicitPath);
}

#[test]
fn explicit_source_inside_project_is_saved_as_relative_path() {
    let temp = "/tmp/project";
    let source = "/tmp/project/reports/litellm-spend/2026-07-18";

    let config_source = config_source_for_path(temp, source);

    assert_eq!(config_source, "reports/litellm-spend/2026-07-18");
}

#[test]
fn explicit_project_root_is_saved_as_dot() {
    let temp = "/tmp/project";

    let config_source = config_source_for_path(temp, temp);

    assert_eq!(config_source, ".");
}

#[test]
fn explicit_project_root_keeps_runtime_excludes_enabled() {
    let temp = "/tmp/project";
    let probes = source_probes(temp, Some("."), true, None);

    let selection = select_source(temp, Some("."), true, None, &probes).unwrap();

    assert_eq!(selection.mode, SourceMode::ExplicitPath);
    assert!(selection.excludes_enabled);
}

#[test]
fn configured_project_root_keeps_runtime_excludes_enabled() {
    let temp = "/tmp/project";
    let probes = source_probes(temp, None, false, Some("."));

    let selection = select_source(temp, None, false, Some("."), &probes).unwrap();

    assert_eq!(selection.mode, SourceMode::ConfiguredSource);
    assert!(selection.excludes_enabled);
}

#[test]
fn explicit_source_outside_project_is_saved_as_absolute_path() {
    let project = "/tmp/.tmpProject";
    let source = "/tmp/.tmpSource";

    let config_source = config_source_for_path(project, source);

    assert_eq!(config_source, source);
}

#[test]
fn falls_back_to_current_directory_with_excludes() {
    let temp = "/tmp/project";

    let selection = select_source(temp, None, false, None, &dirs(&["/tmp/project"])).unwrap();

    assert_eq!(selection.source, temp);
    assert!(selection.excludes_enabled);
}

#[test]
fn remembers_publishable_files_choice_in_local_config() {
    let config = JsonValue::Object(vec![(
        "provider".to_owned(),
        JsonValue::Str("firebase-hosting".to_owned()),
    )]);

    let choice = answer_is_yes("n\n");
    let config = remember_publishable_choice(config, choice);

    assert!(!choice);
    assert!(publishable_files_question().contains("Move publishable files"));
    assert!(matches!(get_key(&config, "provider"), Some(JsonValue::Str(s)) if s == "firebase-hosting"));
    assert!(matches!(
        get_key(&config, "move_publishable_files_to_public"),
        Some(JsonValue::Bool(false))
    ));
}

#[test]
fn default_url_prefers_config_then_index_then_single_html() {
    let files = dirs(&["index.html"]);

    let config = NowConfig {
        base_url: Some("https://example.com/site/".to_owned()),
        ..NowConfig::default()
    };
    assert_eq!(
        choose_default_url(&config, ProviderKind::Firebase, None, None, &files).as_deref(),
        Some("https://example.com/site/index.html")
    );

    let config = NowConfig {
        default_url: Some("https://example.com/custom".to_owned()),
        ..config
    };
    assert_eq!(
        choose_default_url(&config, ProviderKind::Firebase, None, None, &files).as_deref(),
        Some("https://example.com/custom")
    );
}

#[test]
fn default_url_infers_azure_blob_url_from_sas_when_base_url_is_missing() {
    let files = dirs(&["index.html"]);

    let env_file = EnvFile::from_pairs(&[(
        "NOW_AZURE_BLOB_SAS_URL",
        "https://infinitybin.blob.core.windows.net/now/now?sv=1&sig=secret",
    )]);
    let config = NowConfig {
        azure_blob: AzureBlobConfig {
            sas_url_env: Some("NOW_AZURE_BLOB_SAS_URL".to_owned()),
            ..Default::default()
        },
        ..NowConfig::default()
    };

    assert_eq!(
        choose_default_url(&config, ProviderKind::AzureBlob, None, Some(&env_file), &files)
            .as_deref(),
        Some("https://infinitybin.blob.core.windows.net/now/now/index.html")
    );
}

#[test]
fn default_url_falls_back_to_the_only_html_file_then_the_base() {
    let config = NowConfig { base_url: Some("https://x.test".to_owned()), ..NowConfig::default() };
    assert_eq!(
        choose_default_url(&config, ProviderKind::Ftp, None, None, &dirs(&["a.txt", "Page.HTM"])).as_deref(),
        Some("https://x.test/Page.HTM")
    );
    assert_eq!(
        choose_default_url(&config, ProviderKind::Ftp, None, None, &dirs(&["a.html", "b.html"])).as_deref(),
        Some("https://x.test")
    );
    assert_eq!(
        choose_default_url(&NowConfig::default(), ProviderKind::Ftp, None, None, &dirs(&["index.htm"])).as_deref(),
        Some("index.htm")
    );
    assert_eq!(choose_default_url(&NowConfig::default(), ProviderKind::Ftp, None, None, &dirs(&[])), None);
}

#[test]
fn urls_join_with_one_slash() {
    assert_eq!(join_url(Some("https://a/b///"), "index.html"), "https://a/b/index.html");
    assert_eq!(join_url(None, "index.html"), "index.html");
}

#[test]
fn missing_sources_are_reported() {
    match select_source("/srv/site", Some("missing"), true, None, &dirs(&["/srv/site"])) {
        Err(DeployError::NotADirectory(p)) => assert_eq!(p, "/srv/site/missing"),
        _ => panic!("expected an error"),
    }
    assert!(matches!(
        select_source("/srv/site", None, true, None, &dirs(&[])),
        Err(DeployError::MissingExplicitPath)
    ));
    let error = select_source("/srv/site", None, false, None, &dirs(&[])).unwrap_err();
    assert_eq!(error.message(), "source path is not a directory: /srv/site");
    let selection = select_source("/srv/site", None, false, Some("  "), &dirs(&["/srv/site/public", "/srv/site"])).unwrap();
    assert_eq!(selection.source, "/srv/site/public");
    let selection = select_source("/srv/site", None, false, Some("/abs/out"), &dirs(&["/abs/out"])).unwrap();
    assert_eq!(selection.source, "/abs/out");
    assert!(!selection.excludes_enabled);
}

#[test]
fn source_probes_follow_the_order_of_choice() {
    assert_eq!(
        source_probes("/p", None, false, None),
        ["/p/dist", "/p/build", "/p/public", "/p"]
    );
    assert_eq!(source_probes("/p", Some("x"), true, Some("y")), ["/p/x"]);
    assert_eq!(source_probes("/p", None, false, Some("y")), ["/p/y"]);
}

#[test]
fn provider_resolution() {
    let mut r = request();
    assert_eq!(resolve_provider(Some(ProviderKind::Ftp), &r, false), ProviderChoice::Use(ProviderKind::Ftp));
    assert_eq!(resolve_provider(None, &r, true), ProviderChoice::RunSetup);
    assert_eq!(resolve_provider(None, &r, false), ProviderChoice::NotConfigured);
    r.json = true;
    assert_eq!(resolve_provider(None, &r, true), ProviderChoice::NotConfigured);
    assert_eq!(
        DeployError::ProviderNotConfigured.message(),
        "provider is not configured; use --provider or set provider in .now.json"
    );
    assert!(matches!(provider_after_setup(None), Err(DeployError::ProviderMissingAfterSetup)));
    assert!(needs_local_env(ProviderKind::AzureSwa));
    assert!(!needs_local_env(ProviderKind::Firebase));
}

#[test]
fn overrides_replace_prefix_and_remote_dir() {
    let mut config = NowConfig::default();
    config.azure_blob.prefix = Some("configured".to_owned());
    config.ftp.remote_dir = Some("/configured".to_owned());
    apply_overrides(&mut config, Some("one-off/sub".to_owned()), None);
    assert_eq!(config.azure_blob.prefix.as_deref(), Some("one-off/sub"));
    assert_eq!(config.ftp.remote_dir.as_deref(), Some("/configured"));
    apply_overrides(&mut config, None, Some("/one-off".to_owned()));
    assert_eq!(config.ftp.remote_dir.as_deref(), Some("/one-off"));
}

#[test]
fn publishable_files_decision() {
    assert_eq!(publishable_files_choice(SourceMode::AutoDetected, false, None, false, true), PublishableChoice::Keep);
    assert_eq!(publishable_files_choice(SourceMode::CurrentDirectoryWithExcludes, true, Some(true), false, true), PublishableChoice::Keep);
    assert_eq!(publishable_files_choice(SourceMode::CurrentDirectoryWithExcludes, false, Some(true), false, false), PublishableChoice::Move);
    assert_eq!(publishable_files_choice(SourceMode::CurrentDirectoryWithExcludes, false, None, false, true), PublishableChoice::Ask);
    assert_eq!(publishable_files_choice(SourceMode::CurrentDirectoryWithExcludes, false, None, true, true), PublishableChoice::Keep);
    assert!(answer_is_yes(" YES\n"));
    assert!(!answer_is_yes("Yes"));
    let s = public_directory_selection("/srv/site");
    assert_eq!(s.source, "/srv/site/public");
    assert_eq!(s.mode, SourceMode::PublicDirectoryCreated);
}

#[test]
fn moving_keeps_runtime_files_in_place() {
    assert!(moves_to_public("/srv/site", "index.html"));
    assert!(!moves_to_public("/srv/site", "public"));
    assert!(!moves_to_public("/srv/site", ".env"));
    assert!(!moves_to_public("/srv/site", "node_modules"));
    assert!(!moves_to_public("/srv/site", ".now.json"));
}

#[test]
fn summary_lines() {
    let selection = select_source("/srv/site", None, false, None, &dirs(&["/srv/site"])).unwrap();
    let lines = deploy_summary_lines(
        &selection,
        "/tmp/stage",
        ProviderKind::Firebase,
        "firebase deploy --only hosting",
        None,
        true,
    );
    assert_eq!(
        lines,
        [
            "Provider: Firebase Hosting",
            "Source: /tmp/stage",
            "Source mode: CurrentDirectoryWithExcludes",
            "Excluded: .now.json, .env, .env.*, .git/, node_modules/, target/, temp files",
            "Command: firebase deploy --only hosting",
            "Dry run: provider command was not executed",
            "Default URL: not resolved; set default_url or base_url",
        ]
    );
    assert_eq!(
        provider_cli_missing_message(ProviderKind::Firebase, "firebase"),
        "Provider CLI not found for Firebase Hosting: firebase\nInstall Firebase CLI with: npm install -g firebase-tools"
    );
}
