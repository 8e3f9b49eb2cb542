use now::config::ProviderKind;
use now::env_file::{parse_env_text, resolve_env_value, updated_env_text};
use now::json::{get_key, JsonValue};
use now::onboarding::{
    answer_text, optional_answer, optional_prompt_text, parse_provider_choice, required_answer,
    required_prompt_text, setup_closing_lines, setup_next, run_first_run_setup, run_init_setup,
    ActionKind, RequiredAnswer, SetupAction, SetupError, SetupEvent, SetupKind, SetupState,
};

struct Run {
    state: SetupState,
    output: String,
    end: ActionKind,
}

/// Runs the dialogue over the given input, answering each secret lookup
/// with `.env` text as the project holds it.
fn run(start: (SetupState, SetupAction), input: &str, existing: JsonValue, env_text: Option<&str>) -> Run {
    let mut lines: Vec<&str> = input.split_inclusive('\n').collect();
    lines.reverse();
    let (mut state, mut action) = start;
    let mut output = String::new();
    loop {
        for line in &action.say {
            output.push_str(line);
            output.push('\n');
        }
        let event = match action.kind {
            ActionKind::Ask(prompt) => {
                output.push_str(&prompt);
                SetupEvent::Answer(lines.pop().map(|l| l.to_owned()))
            }
            ActionKind::ReadConfig => SetupEvent::ConfigRead(existing.clone_value()),
            ActionKind::LookUpSecret(name) => {
                let file = env_text.map(|t| parse_env_text(t).unwrap());
                SetupEvent::SecretFound(resolve_env_value(None, &name, file.as_ref()))
            }
            end => return Run { state, output, end },
        };
        let next = setup_next(state, event);
        state = next.0;
        action = next.1;
    }
}

fn text_at(config: &JsonValue, key: &str) -> Option<String> {
    match get_key(config, key) {
        Some(JsonValue::Str(s)) => Some(s.clone()),
        _ => None,
    }
}

fn empty() -> JsonValue {
    JsonValue::Object(Vec::new())
}

#[test]
fn first_run_setup_writes_firebase_config_without_secrets() {
    let answers = "1\nhttps://example.web.app\n\nmy-project\n\n";

    let r = run(run_first_run_setup("/tmp/p/.now.json"), answers, empty(), None);

    assert!(matches!(r.end, ActionKind::Finish));
    assert_eq!(r.state.provider, ProviderKind::Firebase);
    assert_eq!(text_at(&r.state.config, "provider").as_deref(), Some("firebase-hosting"));
    assert_eq!(text_at(&r.state.config, "base_url").as_deref(), Some("https://example.web.app"));
    assert_eq!(text_at(&r.state.config, "firebase.project").as_deref(), Some("my-project"));
    assert!(r.output.contains(".now.json"));
    assert!(r.state.env_secret().is_none());
}

#[test]
fn first_run_setup_writes_azure_blob_sas_url_to_env_file() {
    let answers = "2\n\nhttps://acct.blob.core.windows.net/$web?sv=1&sig=secret\nmy-prefix\n";

    let r = run(run_first_run_setup("/tmp/p/.now.json"), answers, empty(), None);

    assert!(matches!(r.end, ActionKind::Finish));
    assert_eq!(r.state.provider, ProviderKind::AzureBlob);
    assert_eq!(
        text_at(&r.state.config, "azure_blob.sas_url_env").as_deref(),
        Some("NOW_AZURE_BLOB_SAS_URL")
    );
    assert_eq!(text_at(&r.state.config, "azure_blob.prefix").as_deref(), Some("my-prefix"));
    assert!(get_key(&r.state.config, "azure_blob.sas_url").is_none());

    let (name, value) = r.state.env_secret().unwrap();
    let env_text = updated_env_text(None, &name, &value).unwrap();
    assert!(env_text.contains("NOW_AZURE_BLOB_SAS_URL="));
    assert!(env_text.contains("sig=secret"));

    assert!(r.output.contains("SAS URL"));
    assert!(r.output.contains(".env"));
    assert!(!r.output.contains("sig=secret"));
}

#[test]
fn first_run_setup_uses_existing_sas_url_from_env_file_as_default() {
    let env_file = "NOW_AZURE_BLOB_SAS_URL=\"https://acct.blob.core.windows.net/$web?sv=1&sig=secret\"\n";
    let answers = "2\n\n\nmy-prefix\n";

    let r = run(run_first_run_setup("/tmp/p/.now.json"), answers, empty(), Some(env_file));

    assert_eq!(r.state.provider, ProviderKind::AzureBlob);
    assert_eq!(
        text_at(&r.state.config, "azure_blob.sas_url_env").as_deref(),
        Some("NOW_AZURE_BLOB_SAS_URL")
    );
    assert_eq!(text_at(&r.state.config, "azure_blob.prefix").as_deref(), Some("my-prefix"));

    let (name, value) = r.state.env_secret().unwrap();
    let env_text = updated_env_text(Some(env_file), &name, &value).unwrap();
    assert!(env_text.contains("NOW_AZURE_BLOB_SAS_URL="));
    assert!(env_text.contains("sig=secret"));

    assert!(r.output.contains("https://acct.blob.core.windows.net/$web?<redacted>"));
}

#[test]
fn first_run_setup_writes_azure_swa_deployment_token_to_env_file() {
    let answers = "3\n\n\nmy-app\n\n\nsecret-deployment-token\n";

    let r = run(run_first_run_setup("/tmp/p/.now.json"), answers, empty(), None);

    assert_eq!(r.state.provider, ProviderKind::AzureSwa);
    assert_eq!(
        text_at(&r.state.config, "azure_swa.deployment_token_env").as_deref(),
        Some("SWA_CLI_DEPLOYMENT_TOKEN")
    );
    assert!(get_key(&r.state.config, "azure_swa.deployment_token").is_none());

    let (name, value) = r.state.env_secret().unwrap();
    let env_text = updated_env_text(None, &name, &value).unwrap();
    assert!(env_text.contains("SWA_CLI_DEPLOYMENT_TOKEN="));
    assert!(env_text.contains("secret-deployment-token"));

    assert!(r.output.contains("deployment token"));
    assert!(r.output.contains(".env"));
    assert!(!r.output.contains("secret-deployment-token"));
}

#[test]
fn init_asks_before_overwriting_and_keeps_on_no() {
    let r = run(run_init_setup("/tmp/p/.now.json", true), "n\n", empty(), None);
    assert!(matches!(r.end, ActionKind::Stop));
    assert!(r.output.contains("Reconfigure and overwrite existing config? [y/N]"));
    assert!(r.output.contains("Kept /tmp/p/.now.json"));
}

#[test]
fn init_reconfigures_on_yes_with_the_configured_provider_as_default() {
    let existing = JsonValue::Object(vec![(
        "provider".to_owned(),
        JsonValue::Str("any-website-ftp".to_owned()),
    )]);
    let r = run(
        run_init_setup("/tmp/p/.now.json", true),
        "y\n\n\n\nftp.example.com\n\n\n\n",
        existing,
        None,
    );
    assert!(matches!(r.end, ActionKind::Finish));
    assert_eq!(r.state.provider, ProviderKind::Ftp);
    assert!(r.output.contains("Provider [Any Website (FTP)]: "));
    assert!(r.output.contains("Choose a provider"));
    assert_eq!(text_at(&r.state.config, "ftp.host").as_deref(), Some("ftp.example.com"));
    assert_eq!(text_at(&r.state.config, "ftp.remote_dir").as_deref(), Some("/"));
    assert_eq!(text_at(&r.state.config, "ftp.password_env").as_deref(), Some("NOW_FTP_PASSWORD"));
}

#[test]
fn a_wrong_provider_answer_shows_the_choices_again() {
    let r = run(run_first_run_setup("/p/.now.json"), "9\nFTP\n\n\n", empty(), None);
    assert!(r.output.contains("Enter 1, 2, 3, 4"));
    assert_eq!(r.state.provider, ProviderKind::Ftp);
    assert!(matches!(r.end, ActionKind::Fail(SetupError::MissingAnswer(_))));
}

#[test]
fn an_invalid_variable_name_stops_setup() {
    let r = run(run_first_run_setup("/p/.now.json"), "2\n9BAD\n", empty(), None);
    match r.end {
        ActionKind::Fail(e) => assert_eq!(e.message(), "invalid environment variable name: 9BAD"),
        _ => panic!("expected a failure"),
    }
}

#[test]
fn answers_and_prompts() {
    assert_eq!(answer_text("abc\r\n"), "abc");
    assert_eq!(optional_prompt_text("Base URL", Some("https://x")), "Base URL [https://x]: ");
    assert_eq!(optional_prompt_text("Base URL", Some("  ")), "Base URL (optional): ");
    assert_eq!(required_prompt_text("FTP host", None), "FTP host: ");
    assert_eq!(optional_answer(Some("  v  "), Some("d")).as_deref(), Some("v"));
    assert_eq!(optional_answer(Some(" "), Some("d")).as_deref(), Some("d"));
    assert_eq!(optional_answer(None, None), None);
    assert!(matches!(required_answer(None, None), RequiredAnswer::Missing));
    assert!(matches!(required_answer(Some(""), None), RequiredAnswer::Again));
    assert!(matches!(required_answer(Some(""), Some("h")), RequiredAnswer::Value(v) if v == "h"));
    assert_eq!(parse_provider_choice(" Azure Static Web App "), Some(ProviderKind::AzureSwa));
    assert_eq!(parse_provider_choice(""), Some(ProviderKind::Firebase));
    assert_eq!(parse_provider_choice("4"), Some(ProviderKind::Ftp));
    assert_eq!(parse_provider_choice("5"), None);
}

#[test]
fn closing_lines_name_the_files() {
    assert_eq!(
        setup_closing_lines(SetupKind::Init, "/p/.now.json", false, Some("/p/.env"), true),
        ["Updated /p/.env", "", "Created /p/.now.json", "Configuration complete. No deployment was started."]
    );
    assert_eq!(
        setup_closing_lines(SetupKind::FirstRun, "/p/.now.json", true, None, false),
        ["", "Updated /p/.now.json", "Continuing with deployment."]
    );
}
