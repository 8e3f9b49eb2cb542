use now::config::ProviderKind;
use now::deploy::{DeployRequest, SourceMode};
use now::deploy_flow::{deploy_next, run_deploy, DeployActionKind, DeployEvent, DeployStep};
use now::env_file::EnvFile;
use now::json::JsonValue;

fn request(provider: Option<ProviderKind>, dry_run: bool) -> DeployRequest {
    DeployRequest {
        cwd: "/srv/site".to_owned(),
        path: None,
        source: None,
        path_was_explicit: false,
        provider,
        prefix: None,
        remote_dir: None,
        dry_run,
        json: false,
        verbose: false,
    }
}

fn empty() -> JsonValue {
    JsonValue::Object(Vec::new())
}

fn strings(v: &[&str]) -> Vec<String> {
    v.iter().map(|s| s.to_string()).collect()
}

#[test]
fn deploy_flow_dry_run_reports_summary() {
    let (flow, action) = run_deploy(request(Some(ProviderKind::Firebase), true), false, "/home/u/.config/now/config.json");
    assert!(matches!(action.kind, DeployActionKind::ReadConfig));
    assert!(action.log.is_empty());

    let (flow, action) = deploy_next(flow, DeployEvent::Configs(empty(), empty()));
    match &action.kind {
        DeployActionKind::ProbeDirectories(paths) => assert_eq!(
            paths,
            &strings(&["/srv/site/dist", "/srv/site/build", "/srv/site/public", "/srv/site"])
        ),
        other => panic!("unexpected action {other:?}"),
    }

    let (flow, action) =
        deploy_next(flow, DeployEvent::Directories(strings(&["/srv/site", "/srv/site/dist"])));
    assert!(matches!(action.kind, DeployActionKind::ReadLocalEnv(false)));
    assert_eq!(flow.selection.source, "/srv/site/dist");
    assert_eq!(flow.selection.mode, SourceMode::AutoDetected);

    let (flow, action) = deploy_next(flow, DeployEvent::EnvRead(None));
    match &action.kind {
        DeployActionKind::Prepare(source, excludes) => {
            assert_eq!(source, "/srv/site/dist");
            assert!(!excludes);
        }
        other => panic!("unexpected action {other:?}"),
    }

    let (flow, action) = deploy_next(flow, DeployEvent::Prepared("/srv/site/dist".to_owned()));
    match &action.kind {
        DeployActionKind::Inspect(dir, variable) => {
            assert_eq!(dir, "/srv/site/dist");
            assert_eq!(variable, "NOW_AZURE_BLOB_SAS_URL");
        }
        other => panic!("unexpected action {other:?}"),
    }

    let (flow, action) =
        deploy_next(flow, DeployEvent::Inspected(strings(&["index.html"]), None));
    assert_eq!(flow.step, DeployStep::Done);
    match action.kind {
        DeployActionKind::Finish(lines) => assert_eq!(
            lines,
            [
                "Provider: Firebase Hosting",
                "Source: /srv/site/dist",
                "Source mode: AutoDetected",
                "Command: firebase deploy --only hosting",
                "Dry run: provider command was not executed",
                "Default URL: index.html",
            ]
        ),
        other => panic!("unexpected action {other:?}"),
    }
}

#[test]
fn deploy_flow_verbose_start_logs_paths() {
    let mut req = request(Some(ProviderKind::Firebase), true);
    req.verbose = true;
    let (_, action) = run_deploy(req, false, "/home/u/.config/now/config.json");
    assert_eq!(
        action.log,
        [
            "Project root: /srv/site",
            "Local config: /srv/site/.now.json",
            "Global config: /home/u/.config/now/config.json",
        ]
    );
}

#[test]
fn deploy_flow_refuses_secret_configuration() {
    let (flow, _) = run_deploy(request(None, true), false, "/g.json");
    let local = JsonValue::Object(vec![(
        "ftp".to_owned(),
        JsonValue::Object(vec![("password".to_owned(), JsonValue::Str("plain".to_owned()))]),
    )]);
    let (flow, action) = deploy_next(flow, DeployEvent::Configs(empty(), local));
    assert_eq!(flow.step, DeployStep::Done);
    match action.kind {
        DeployActionKind::Fail(message) => assert_eq!(
            message,
            "configuration contains secret-like keys; use provider login state or environment variables instead: ftp.password"
        ),
        other => panic!("unexpected action {other:?}"),
    }
}

#[test]
fn deploy_flow_without_provider_off_terminal_fails() {
    let (flow, _) = run_deploy(request(None, true), false, "/g.json");
    let (flow, _) = deploy_next(flow, DeployEvent::Configs(empty(), empty()));
    let (_, action) = deploy_next(flow, DeployEvent::Directories(strings(&["/srv/site"])));
    match action.kind {
        DeployActionKind::Fail(message) => assert_eq!(
            message,
            "provider is not configured; use --provider or set provider in .now.json"
        ),
        other => panic!("unexpected action {other:?}"),
    }
}

#[test]
fn deploy_flow_without_provider_on_terminal_runs_setup() {
    let (flow, _) = run_deploy(request(None, false), true, "/g.json");
    let (flow, _) = deploy_next(flow, DeployEvent::Configs(empty(), empty()));
    let (flow, action) = deploy_next(flow, DeployEvent::Directories(strings(&["/srv/site"])));
    assert!(matches!(action.kind, DeployActionKind::RunSetup(None)));
    let (flow, action) = deploy_next(flow, DeployEvent::Completed);
    assert!(matches!(action.kind, DeployActionKind::ReadConfig));
    // The setup wrote nothing usable: the deployment stops.
    let (_, action) = deploy_next(flow, DeployEvent::Configs(empty(), empty()));
    match action.kind {
        DeployActionKind::Fail(message) => {
            assert_eq!(message, "provider is not configured after first-time setup")
        }
        other => panic!("unexpected action {other:?}"),
    }
}

#[test]
fn deploy_flow_asks_before_moving_files_into_public() {
    let (flow, _) = run_deploy(request(Some(ProviderKind::Firebase), false), true, "/g.json");
    let (flow, _) = deploy_next(flow, DeployEvent::Configs(empty(), empty()));
    let (flow, _) = deploy_next(flow, DeployEvent::Directories(strings(&["/srv/site"])));
    let (flow, action) = deploy_next(flow, DeployEvent::EnvRead(None));
    match &action.kind {
        DeployActionKind::AskPublishable(question) => assert_eq!(
            question,
            "No dist/, build/, or public/ directory was found. Move publishable files into public/? [y/N] "
        ),
        other => panic!("unexpected action {other:?}"),
    }
    let (flow, action) = deploy_next(flow, DeployEvent::Answer(Some("yes\n".to_owned())));
    assert!(matches!(action.kind, DeployActionKind::RememberChoice(true)));
    let (flow, action) = deploy_next(flow, DeployEvent::Completed);
    assert!(matches!(action.kind, DeployActionKind::MoveToPublic));
    let (flow, action) = deploy_next(flow, DeployEvent::Completed);
    assert_eq!(flow.selection.source, "/srv/site/public");
    assert_eq!(flow.selection.mode, SourceMode::PublicDirectoryCreated);
    match &action.kind {
        DeployActionKind::Prepare(source, excludes) => {
            assert_eq!(source, "/srv/site/public");
            assert!(!excludes);
        }
        other => panic!("unexpected action {other:?}"),
    }
}

#[test]
fn deploy_flow_reports_missing_provider_cli() {
    let (flow, _) = run_deploy(request(Some(ProviderKind::Firebase), false), false, "/g.json");
    let (flow, _) = deploy_next(flow, DeployEvent::Configs(empty(), empty()));
    let (flow, _) = deploy_next(flow, DeployEvent::Directories(strings(&["/srv/site/dist"])));
    let (flow, _) = deploy_next(flow, DeployEvent::EnvRead(None));
    let (flow, _) = deploy_next(flow, DeployEvent::Prepared("/srv/site/dist".to_owned()));
    let (flow, action) = deploy_next(flow, DeployEvent::Inspected(Vec::new(), None));
    match &action.kind {
        DeployActionKind::CheckProgram(program) => assert_eq!(program, "firebase"),
        other => panic!("unexpected action {other:?}"),
    }
    let (_, action) = deploy_next(flow, DeployEvent::ProgramFound(false));
    match action.kind {
        DeployActionKind::Fail(message) => assert_eq!(
            message,
            "Provider CLI not found for Firebase Hosting: firebase\nInstall Firebase CLI with: npm install -g firebase-tools"
        ),
        other => panic!("unexpected action {other:?}"),
    }
}

#[test]
fn deploy_flow_ftp_without_host_fails() {
    let (flow, _) = run_deploy(request(Some(ProviderKind::Ftp), true), false, "/g.json");
    let (flow, _) = deploy_next(flow, DeployEvent::Configs(empty(), empty()));
    let (flow, _) = deploy_next(flow, DeployEvent::Directories(strings(&["/srv/site/dist"])));
    let (flow, _) = deploy_next(flow, DeployEvent::EnvRead(None));
    let (flow, _) = deploy_next(flow, DeployEvent::Prepared("/srv/site/dist".to_owned()));
    let (_, action) = deploy_next(flow, DeployEvent::Inspected(Vec::new(), None));
    match action.kind {
        DeployActionKind::Fail(message) => {
            assert_eq!(message, "ftp.host is required for provider Any Website (FTP)")
        }
        other => panic!("unexpected action {other:?}"),
    }
}

#[test]
fn deploy_flow_runs_swa_with_token() {
    let (flow, _) = run_deploy(request(Some(ProviderKind::AzureSwa), false), false, "/g.json");
    let (flow, _) = deploy_next(flow, DeployEvent::Configs(empty(), empty()));
    let (flow, action) = deploy_next(flow, DeployEvent::Directories(strings(&["/srv/site/dist"])));
    assert!(matches!(action.kind, DeployActionKind::ReadLocalEnv(true)));
    let (flow, _) = deploy_next(flow, DeployEvent::EnvRead(Some(EnvFile::new())));
    let (flow, _) = deploy_next(flow, DeployEvent::Prepared("/srv/site/dist".to_owned()));
    let (flow, action) = deploy_next(flow, DeployEvent::Inspected(Vec::new(), None));
    assert!(matches!(action.kind, DeployActionKind::CheckProgram(_)));
    let (flow, action) = deploy_next(flow, DeployEvent::ProgramFound(true));
    match &action.kind {
        DeployActionKind::ReadEnv(names) => assert_eq!(
            names,
            &strings(&["SWA_CLI_DEPLOYMENT_TOKEN", "SWA_CLI_DEPLOYMENT_TOKEN"])
        ),
        other => panic!("unexpected action {other:?}"),
    }
    let token = Some("token-1".to_owned());
    let (flow, action) = deploy_next(flow, DeployEvent::EnvValues(vec![token.clone(), token]));
    match &action.kind {
        DeployActionKind::Run(pairs) => assert_eq!(
            pairs,
            &vec![("SWA_CLI_DEPLOYMENT_TOKEN".to_owned(), "token-1".to_owned())]
        ),
        other => panic!("unexpected action {other:?}"),
    }
    let (flow, action) = deploy_next(flow, DeployEvent::Completed);
    assert_eq!(flow.step, DeployStep::Done);
    match action.kind {
        DeployActionKind::Finish(lines) => {
            assert!(lines.contains(&"Command: swa deploy /srv/site/dist --env production".to_owned()));
            assert!(!lines.iter().any(|l| l.starts_with("Dry run")));
        }
        other => panic!("unexpected action {other:?}"),
    }
}

#[test]
fn deploy_flow_missing_required_variable_fails() {
    let (flow, _) = run_deploy(request(Some(ProviderKind::AzureSwa), false), false, "/g.json");
    let (flow, _) = deploy_next(flow, DeployEvent::Configs(empty(), empty()));
    let (flow, _) = deploy_next(flow, DeployEvent::Directories(strings(&["/srv/site/dist"])));
    let (flow, _) = deploy_next(flow, DeployEvent::EnvRead(Some(EnvFile::new())));
    let (flow, _) = deploy_next(flow, DeployEvent::Prepared("/srv/site/dist".to_owned()));
    let (flow, _) = deploy_next(flow, DeployEvent::Inspected(Vec::new(), None));
    let (flow, _) = deploy_next(flow, DeployEvent::ProgramFound(true));
    let (_, action) = deploy_next(flow, DeployEvent::EnvValues(vec![None, None]));
    match action.kind {
        DeployActionKind::Fail(message) => assert_eq!(
            message,
            "missing required environment variable(s) for Azure Static Web App: SWA_CLI_DEPLOYMENT_TOKEN"
        ),
        other => panic!("unexpected action {other:?}"),
    }
}

#[test]
fn deploy_flow_refuses_events_out_of_order() {
    let (flow, _) = run_deploy(request(Some(ProviderKind::Firebase), true), false, "/g.json");
    let (flow, action) = deploy_next(flow, DeployEvent::Completed);
    assert_eq!(flow.step, DeployStep::Done);
    match action.kind {
        DeployActionKind::Fail(message) => {
            assert_eq!(message, "deployment received an event it did not ask for")
        }
        other => panic!("unexpected action {other:?}"),
    }
}
