use now::azure_blob::AzureBlobUploadSummary;
use now::cli::{
    execute, get_config, parse_provider, plain_text, plan_config_set, updated_line, Cli, Command,
    ConfigWriteScope, DeployArgs, Invocation,
};
use now::config::ProviderKind;
use now::deploy::{moves_to_public, select_source, SourceMode};
use now::deploy_flow::{deploy_next, run_deploy, DeployActionKind, DeployEvent};
use now::env_file::{local_env_path, parse_env_text, resolve_env_value, updated_env_text, EnvFile};
use now::fs_rules::is_excluded_path;
use now::json::{get_key, JsonValue};
use now::onboarding::{
    run_init_setup, setup_closing_lines, setup_next, ActionKind, SetupAction, SetupEvent,
    SetupState,
};

const SITE: &str = "/site";

fn from_serde(value: &serde_json::Value) -> JsonValue {
    match value {
        serde_json::Value::Null => JsonValue::Null,
        serde_json::Value::Bool(b) => JsonValue::Bool(*b),
        serde_json::Value::Number(n) => JsonValue::Number(n.to_string()),
        serde_json::Value::String(s) => JsonValue::Str(s.clone()),
        serde_json::Value::Array(items) => JsonValue::Array(items.iter().map(from_serde).collect()),
        serde_json::Value::Object(map) => {
            JsonValue::Object(map.iter().map(|(k, v)| (k.clone(), from_serde(v))).collect())
        }
    }
}

/// A `.now.json` file's text, as the library sees it.
fn json(text: &str) -> JsonValue {
    from_serde(&serde_json::from_str::<serde_json::Value>(text).unwrap())
}

fn text_at(config: &JsonValue, key: &str) -> Option<String> {
    match get_key(config, key) {
        Some(JsonValue::Str(s)) => Some(s.clone()),
        _ => None,
    }
}

/// What the project directory holds, and what the machine around it
/// answers.
struct Site {
    dirs: Vec<&'static str>,
    config: JsonValue,
    env_file: Option<&'static str>,
    files: Vec<&'static str>,
    process_env: Vec<(&'static str, &'static str)>,
    programs_installed: bool,
    terminal: bool,
}

impl Site {
    fn new(dirs: Vec<&'static str>, config: &str) -> Site {
        Site {
            dirs,
            config: json(config),
            env_file: None,
            files: vec!["index.html"],
            process_env: Vec::new(),
            programs_installed: false,
            terminal: false,
        }
    }

    fn process_value(&self, name: &str) -> Option<String> {
        self.process_env.iter().find(|(k, _)| *k == name).map(|(_, v)| v.to_string())
    }

    fn env(&self) -> EnvFile {
        match self.env_file {
            Some(text) => parse_env_text(text).unwrap(),
            None => EnvFile::new(),
        }
    }
}

/// What a deployment did.
struct Deployment {
    result: Result<Vec<String>, String>,
    log: Vec<String>,
    writes: Vec<&'static str>,
    tool_env: Option<Vec<(String, String)>>,
}

impl Deployment {
    fn output(&self) -> String {
        self.result.as_ref().unwrap().join("\n")
    }

    fn error(&self) -> String {
        self.result.as_ref().unwrap_err().clone()
    }

    fn logged(&self, line: &str) -> bool {
        self.log.iter().any(|l| l == line)
    }
}

/// Runs a command line that deploys, against the site.
fn deploy(cli: Cli, site: &Site) -> Deployment {
    let request = match execute(cli, SITE.to_owned()) {
        Invocation::Deploy(r) => r,
        _ => panic!("expected a deployment"),
    };
    let (mut flow, mut action) = run_deploy(request, site.terminal, "/config-home/config.json");
    let mut log = Vec::new();
    let mut writes = Vec::new();
    let mut tool_env = None;
    loop {
        log.extend(action.log.iter().cloned());
        let event = match action.kind {
            DeployActionKind::ReadConfig => {
                DeployEvent::Configs(JsonValue::Object(Vec::new()), site.config.clone_value())
            }
            DeployActionKind::ProbeDirectories(paths) => DeployEvent::Directories(
                paths.into_iter().filter(|p| site.dirs.contains(&p.as_str())).collect(),
            ),
            DeployActionKind::Canonicalize(root, source) => DeployEvent::Canonical(root, source),
            DeployActionKind::RunSetup(_) => {
                writes.push("setup");
                return Deployment { result: Err("setup".to_owned()), log, writes, tool_env };
            }
            DeployActionKind::ReadLocalEnv(wanted) => {
                DeployEvent::EnvRead(if wanted { Some(site.env()) } else { None })
            }
            DeployActionKind::AskPublishable(_) => {
                writes.push("ask");
                DeployEvent::Answer(None)
            }
            DeployActionKind::RememberChoice(_) => {
                writes.push("remember");
                DeployEvent::Completed
            }
            DeployActionKind::MoveToPublic => {
                writes.push("move");
                DeployEvent::Completed
            }
            DeployActionKind::Prepare(source, _) => DeployEvent::Prepared(source),
            DeployActionKind::Inspect(_, variable) => DeployEvent::Inspected(
                site.files.iter().map(|f| f.to_string()).collect(),
                site.process_value(&variable),
            ),
            DeployActionKind::Upload => DeployEvent::Uploaded(AzureBlobUploadSummary::new()),
            DeployActionKind::CheckProgram(_) => DeployEvent::ProgramFound(site.programs_installed),
            DeployActionKind::ReadEnv(names) => {
                let env = site.env();
                DeployEvent::EnvValues(
                    names
                        .iter()
                        .map(|n| resolve_env_value(site.process_value(n).as_deref(), n, Some(&env)))
                        .collect(),
                )
            }
            DeployActionKind::Run(pairs) => {
                tool_env = Some(pairs);
                DeployEvent::Completed
            }
            DeployActionKind::Finish(lines) => {
                return Deployment { result: Ok(lines), log, writes, tool_env }
            }
            DeployActionKind::Fail(message) => {
                return Deployment { result: Err(message), log, writes, tool_env }
            }
        };
        let next = deploy_next(flow, event);
        flow = next.0;
        action = next.1;
    }
}

fn args() -> DeployArgs {
    DeployArgs {
        path: None,
        source: None,
        provider: None,
        prefix: None,
        remote_dir: None,
        dry_run: false,
        json: false,
        verbose: false,
    }
}

fn deploy_cmd(a: DeployArgs) -> Cli {
    Cli { command: Some(Command::Deploy(a)), path: None, verbose: false }
}

fn dry_run() -> DeployArgs {
    DeployArgs { dry_run: true, ..args() }
}

/// Runs the setup dialogue over the input; the lines shown, the state it
/// ended in, and how it ended.
fn setup(start: (SetupState, SetupAction), input: &str, existing: JsonValue) -> (String, SetupState, ActionKind) {
    let mut lines: Vec<&str> = input.split_inclusive('\n').collect();
    lines.reverse();
    let (mut state, mut action) = start;
    let mut output = String::new();
    loop {
        for line in &action.say {
            output.push_str(line);
            output.push('\n');
        }
        let event = match action.kind {
            ActionKind::Ask(prompt) => {
                output.push_str(&prompt);
                SetupEvent::Answer(lines.pop().map(|l| l.to_owned()))
            }
            ActionKind::ReadConfig => SetupEvent::ConfigRead(existing.clone_value()),
            ActionKind::LookUpSecret(_) => SetupEvent::SecretFound(None),
            end => return (output, state, end),
        };
        let next = setup_next(state, event);
        state = next.0;
        action = next.1;
    }
}

#[test]
fn verbose_dry_run_reports_diagnostics_and_full_external_command() {
    let site = Site::new(vec![SITE, "/site/public"], r#"{"provider":"firebase-hosting"}"#);

    let d = deploy(deploy_cmd(DeployArgs { verbose: true, ..dry_run() }), &site);

    assert!(d.output().contains("firebase --debug deploy --only hosting"));
    assert!(d.log.iter().any(|l| l.starts_with("Project root:")));
    assert!(d.logged("External command: firebase --debug deploy --only hosting"));
}

#[test]
fn verbose_flag_works_with_default_now_deploy_command() {
    let mut site = Site::new(vec![SITE, "/site/public"], r#"{"provider":"firebase-hosting"}"#);
    site.programs_installed = true;

    let d = deploy(Cli { command: None, path: None, verbose: true }, &site);

    assert!(d.result.is_ok());
    assert!(d.logged("External command: firebase --debug deploy --only hosting"));
    assert_eq!(d.tool_env, Some(Vec::new()));
}

#[test]
fn deploy_dry_run_uses_configured_provider() {
    let site = Site::new(
        vec![SITE, "/site/public"],
        r#"{
  "provider": "firebase-hosting",
  "base_url": "https://example.web.app"
}
"#,
    );

    let d = deploy(deploy_cmd(dry_run()), &site);

    assert!(d.output().contains("firebase deploy --only hosting"));
    assert!(d.output().contains("Default URL: https://example.web.app/index.html"));
}

#[test]
fn explicit_path_does_not_rewrite_existing_source() {
    let site = Site::new(
        vec![SITE, "/site/configured", "/site/one-off"],
        r#"{
  "provider": "firebase-hosting",
  "source": "configured"
}
"#,
    );

    let d = deploy(deploy_cmd(DeployArgs { path: Some("one-off".to_owned()), ..dry_run() }), &site);

    assert!(d.output().contains("Source mode: ExplicitPath"));
    assert!(d.writes.is_empty());
}

#[test]
fn source_flag_overrides_config_without_rewriting_it() {
    let site = Site::new(
        vec![SITE, "/site/configured", "/site/one-off"],
        r#"{
  "provider": "firebase-hosting",
  "source": "configured"
}
"#,
    );

    let d =
        deploy(deploy_cmd(DeployArgs { source: Some("one-off".to_owned()), ..dry_run() }), &site);

    assert!(d.output().contains("/site/one-off"));
    assert!(d.writes.is_empty());
}

#[test]
fn invalid_explicit_path_fails_without_creating_local_config() {
    let site = Site::new(vec![SITE], "{}");

    let d = deploy(deploy_cmd(DeployArgs { path: Some("missing".to_owned()), ..dry_run() }), &site);

    assert!(d.error().contains("source path is not a directory"));
    assert!(d.writes.is_empty());
}

#[test]
fn config_set_and_get_local_value() {
    let plan = plan_config_set(
        ConfigWriteScope::Local,
        "provider",
        "firebase-hosting",
        None,
        JsonValue::Object(Vec::new()),
    )
    .unwrap();

    let value = get_config(&plan.value, Some("provider")).unwrap();
    assert!(plain_text(value).unwrap().contains("firebase-hosting"));
}

#[test]
fn config_set_azure_blob_sas_url_writes_env_file_and_env_name() {
    let url = "https://acct.blob.core.windows.net/$web?sv=1&sig=secret";
    let plan = plan_config_set(
        ConfigWriteScope::Local,
        "azure_blob.sas_url",
        url,
        None,
        JsonValue::Object(Vec::new()),
    )
    .unwrap();

    assert!(updated_line("/site/.now.json").contains(".now.json"));
    assert!(updated_line(&local_env_path(SITE)).contains(".env"));
    assert_eq!(
        text_at(&plan.value, "azure_blob.sas_url_env").as_deref(),
        Some("NOW_AZURE_BLOB_SAS_URL")
    );
    assert!(get_key(&plan.value, "azure_blob.sas_url").is_none());

    let (name, value) = plan.env_value.unwrap();
    let env_text = updated_env_text(None, &name, &value).unwrap();
    assert!(env_text.contains("NOW_AZURE_BLOB_SAS_URL="));
    assert!(env_text.contains("sig=secret"));
}

#[test]
fn init_runs_interactive_setup_without_deploying() {
    let (output, state, end) = setup(
        run_init_setup("/site/.now.json", false),
        "1\nhttps://example.web.app\n\nmy-project\n\n",
        JsonValue::Object(Vec::new()),
    );
    assert!(matches!(end, ActionKind::Finish));
    let closing = setup_closing_lines(state.kind, "/site/.now.json", false, None, false).join("\n");

    assert!(output.contains("Choose a provider"));
    assert!(closing.contains("Configuration complete"));
    assert!(!output.contains("Continuing with deployment"));
    assert!(!closing.contains("Continuing with deployment"));
    assert_eq!(text_at(&state.config, "provider").as_deref(), Some("firebase-hosting"));
    assert_eq!(text_at(&state.config, "firebase.project").as_deref(), Some("my-project"));
}

#[test]
fn init_existing_config_prompts_and_keeps_it_when_declined() {
    let existing = json(
        r#"{
  "provider": "firebase-hosting"
}
"#,
    );
    let (output, _, end) = setup(run_init_setup("/site/.now.json", true), "n\n", existing);

    assert!(matches!(end, ActionKind::Stop));
    assert!(output.contains("Reconfigure and overwrite existing config? [y/N]"));
    assert!(output.contains("Kept"));
}

#[test]
fn init_existing_config_reconfigures_it_when_confirmed() {
    let existing = json(
        r#"{
  "provider": "firebase-hosting"
}
"#,
    );
    let (output, state, end) =
        setup(run_init_setup("/site/.now.json", true), "y\n\n\n\n\n\n", existing);
    assert!(matches!(end, ActionKind::Finish));
    let closing = setup_closing_lines(state.kind, "/site/.now.json", true, None, false).join("\n");

    assert!(output.contains("Reconfigure and overwrite existing config? [y/N]"));
    assert!(output.contains("Choose a provider"));
    assert!(closing.contains("Configuration complete"));
    assert!(!closing.contains("Continuing with deployment"));
    assert_eq!(text_at(&state.config, "provider").as_deref(), Some("firebase-hosting"));
}

#[test]
fn missing_provider_cli_returns_install_hint() {
    let site = Site::new(
        vec![SITE, "/site/public"],
        r#"{
  "provider": "firebase-hosting",
  "base_url": "https://infinitybin.blob.core.windows.net/now/now"
}
"#,
    );

    let d = deploy(deploy_cmd(args()), &site);

    assert!(d.error().contains("Provider CLI not found"));
    assert!(d.error().contains("npm install -g firebase-tools"));
}

#[test]
fn deploy_reports_default_url_from_auto_selection_rules() {
    let mut site = Site::new(
        vec![SITE, "/site/public"],
        r#"{
  "provider": "firebase-hosting",
  "base_url": "https://infinitybin.blob.core.windows.net/now/now"
}
"#,
    );
    site.programs_installed = true;

    let d = deploy(deploy_cmd(args()), &site);

    let output = format!("\n{}\n", d.output());
    assert!(output.contains("\nDefault URL: https://infinitybin.blob.core.windows.net/now/now/index.html\n"));
    assert!(!output.contains("\nDefault URL: https://demo.web.app\n"));
}

#[test]
fn firebase_hosting_provider_accepts_display_name_and_legacy_alias() {
    let site = Site::new(vec![SITE, "/site/public"], r#"{ "provider": "firebase" }"#);
    let provider = parse_provider("Firebase Hosting").unwrap();

    let d = deploy(deploy_cmd(DeployArgs { provider: Some(provider), ..dry_run() }), &site);

    assert!(d.output().contains("Provider: Firebase Hosting"));
    assert!(d.output().contains("firebase deploy --only hosting"));
}

#[test]
fn missing_provider_in_non_interactive_mode_does_not_prompt() {
    let site = Site::new(vec![SITE, "/site/public"], "{}");

    let d = deploy(deploy_cmd(dry_run()), &site);

    assert!(d.error().contains("provider is not configured"));
    assert!(d.writes.is_empty());
    assert!(d.log.is_empty());
}

#[test]
fn azure_blob_dry_run_does_not_require_azure_cli_or_print_sas_secret() {
    let mut site = Site::new(
        vec![SITE, "/site/public"],
        r#"{
  "provider": "azure-storage-blob",
  "azure_blob": {
    "sas_url_env": "NOW_AZURE_BLOB_SAS_URL"
  }
}
"#,
    );
    site.env_file = Some(
        r#"NOW_AZURE_BLOB_SAS_URL="https://infinitybin.blob.core.windows.net/now/now?sv=1&sig=secret"
"#,
    );

    let d = deploy(deploy_cmd(dry_run()), &site);

    assert!(d.output().contains("Azure Storage Blob SAS upload"));
    assert!(d
        .output()
        .contains("Default URL: https://infinitybin.blob.core.windows.net/now/now/index.html"));
    assert!(!d.output().contains("secret"));
    assert!(d.log.is_empty());
}

#[test]
fn azure_blob_dry_run_supports_prefix_and_masks_sas() {
    let mut site = Site::new(
        vec![SITE, "/site/public"],
        r#"{
  "provider": "azure-storage-blob",
  "azure_blob": {
    "sas_url_env": "NOW_AZURE_BLOB_SAS_URL",
    "prefix": "my-project/sub"
  }
}
"#,
    );
    site.env_file = Some(
        r#"NOW_AZURE_BLOB_SAS_URL="https://infinitybin.blob.core.windows.net/now/now?sv=1&sig=secret"
"#,
    );

    let d = deploy(deploy_cmd(dry_run()), &site);

    assert!(d.output().contains("Azure Storage Blob SAS upload"));
    assert!(d
        .output()
        .contains("https://infinitybin.blob.core.windows.net/now/now/my-project/sub?<redacted>"));
    assert!(d.output().contains(
        "Default URL: https://infinitybin.blob.core.windows.net/now/now/my-project/sub/index.html"
    ));
    assert!(!d.output().contains("secret"));
    assert!(d.log.is_empty());
}

#[test]
fn prefix_flag_overrides_azure_blob_config() {
    let mut site = Site::new(
        vec![SITE, "/site/public"],
        r#"{
  "provider": "azure-storage-blob",
  "azure_blob": {
    "sas_url_env": "NOW_AZURE_BLOB_SAS_URL",
    "prefix": "configured"
  }
}
"#,
    );
    site.env_file = Some(
        r#"NOW_AZURE_BLOB_SAS_URL="https://acct.blob.core.windows.net/$web?sv=1&sig=secret"
"#,
    );

    let d = deploy(
        deploy_cmd(DeployArgs { prefix: Some("one-off/sub".to_owned()), ..dry_run() }),
        &site,
    );

    assert!(d.output().contains("/$web/one-off/sub?<redacted>"));
    assert!(!d.output().contains("/$web/configured?"));
}

#[test]
fn azure_storage_blob_provider_accepts_display_name_as_cli_value() {
    let mut site = Site::new(
        vec![SITE, "/site/public"],
        r#"{
  "azure_blob": {
    "sas_url_env": "NOW_AZURE_BLOB_SAS_URL"
  }
}
"#,
    );
    site.env_file = Some(
        r#"NOW_AZURE_BLOB_SAS_URL="https://acct.blob.core.windows.net/$web?sv=1&sig=secret"
"#,
    );
    let provider = parse_provider("Azure Storage Blob").unwrap();

    let d = deploy(deploy_cmd(DeployArgs { provider: Some(provider), ..dry_run() }), &site);

    assert!(d.output().contains("Provider: Azure Storage Blob"));
    assert!(!d.output().contains("secret"));
}

#[test]
fn azure_static_web_app_provider_accepts_display_name() {
    let site = Site::new(
        vec![SITE, "/site/public"],
        r#"{
  "azure_swa": {
    "deployment_token_env": "SWA_TOKEN"
  }
}
"#,
    );
    let provider = parse_provider("Azure Static Web App").unwrap();

    let d = deploy(deploy_cmd(DeployArgs { provider: Some(provider), ..dry_run() }), &site);

    assert!(d.output().contains("Provider: Azure Static Web App"));
    assert!(d.output().contains("swa deploy"));
}

#[test]
fn azure_static_web_app_deploy_reads_token_from_env_file() {
    let mut site = Site::new(
        vec![SITE, "/site/public"],
        r#"{
  "provider": "azure-static-web-app",
  "azure_swa": {
    "deployment_token_env": "MY_SWA_TOKEN"
  }
}
"#,
    );
    site.env_file = Some("MY_SWA_TOKEN=token-from-dotenv\n");
    site.programs_installed = true;

    let d = deploy(deploy_cmd(args()), &site);

    assert!(d.result.is_ok());
    assert_eq!(
        d.tool_env,
        Some(vec![("SWA_CLI_DEPLOYMENT_TOKEN".to_owned(), "token-from-dotenv".to_owned())])
    );
}

#[test]
fn any_website_ftp_provider_accepts_display_name() {
    let site = Site::new(
        vec![SITE, "/site/public"],
        r#"{
  "ftp": {
    "host": "ftp.example.com"
  }
}
"#,
    );
    let provider = parse_provider("Any Website (FTP)").unwrap();

    let d = deploy(deploy_cmd(DeployArgs { provider: Some(provider), ..dry_run() }), &site);

    assert!(d.output().contains("Provider: Any Website (FTP)"));
    assert!(d.output().contains("lftp"));
}

#[test]
fn remote_dir_flag_overrides_ftp_config() {
    let site = Site::new(
        vec![SITE, "/site/public"],
        r#"{
  "provider": "any-website-ftp",
  "ftp": {
    "host": "ftp.example.com",
    "remote_dir": "/configured"
  }
}
"#,
    );

    let d = deploy(
        deploy_cmd(DeployArgs { remote_dir: Some("/one-off".to_owned()), ..dry_run() }),
        &site,
    );

    assert!(d.output().contains("/one-off"));
    assert!(!d.output().contains("/configured"));
}

#[test]
fn staged_source_excludes_runtime_files() {
    let root = "/tmp/project";
    let selection = select_source(root, None, false, None, &vec![root.to_owned()]).unwrap();

    assert_eq!(selection.mode, SourceMode::CurrentDirectoryWithExcludes);
    assert!(selection.excludes_enabled);
    assert!(!is_excluded_path(root, "/tmp/project/index.html"));
    assert!(is_excluded_path(root, "/tmp/project/.now.json"));
    assert!(is_excluded_path(root, "/tmp/project/.env"));
    assert!(is_excluded_path(root, "/tmp/project/node_modules"));
    assert!(is_excluded_path(root, "/tmp/project/node_modules/pkg/index.js"));
}

#[test]
fn moving_publishable_files_keeps_env_file_outside_public() {
    let root = "/tmp/project";

    assert!(moves_to_public(root, "index.html"));
    assert!(!moves_to_public(root, ".env"));
}
