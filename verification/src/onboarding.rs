//! Interactive setup: the questions asked, in order, and what each answer
//! writes into the configuration. The dialogue is a state machine: the
//! caller shows what it says, reads what it asks, and hands the answer
//! back.
use crate::azure_blob::{mask_sas_url, masked_spec};
use crate::config::{
    default_config, default_config_view, opt_str_view, opt_view, parse_provider_name,
    provider_display_name, provider_name, ProviderKind,
};
use crate::env_file::{valid_env_name, validate_env_name, EnvError};
use crate::json::{get_key, get_path, key_path, merge, merge_spec, remove_path, set_path,
    JsonValue, JsonView};
use crate::provider::views;
use crate::text::{chars_of, is_blank, lower, lowered, push_str, str_eq, trim, trimmed};
use vstd::prelude::*;

verus! {

// ---------------------------------------------------------------------
// Reading answers.
// ---------------------------------------------------------------------
/// A line as read, without the line break characters at its end.
pub open spec fn strip_line_end(s: Seq<char>) -> Seq<char>
    decreases s.len(),
{
    if s.len() > 0 && (s.last() == '\n' || s.last() == '\r') {
        strip_line_end(s.drop_last())
    } else {
        s
    }
}

/// A line as read, without the line break characters at its end.
pub fn answer_text(line: &str) -> (r: String)
    ensures
        r@ == strip_line_end(line@),
{
    let v = chars_of(line);
    let mut end = v.len();
    assert(v@.take(end as int) =~= v@);
    while end > 0 && (v[end - 1] == '\n' || v[end - 1] == '\r')
        invariant
            end <= v@.len(),
            strip_line_end(v@) == strip_line_end(v@.take(end as int)),
        decreases end,
    {
        assert(v@.take(end as int).drop_last() =~= v@.take(end - 1));
        end = end - 1;
    }
    assert(v@.subrange(0, end as int) =~= v@.take(end as int));
    crate::text::string_of_range(v.as_slice(), 0, end)
}

/// A text that is set and not blank.
pub open spec fn present(s: Option<Seq<char>>) -> Option<Seq<char>> {
    match s {
        Some(t) => if trim(t).len() > 0 {
            Some(t)
        } else {
            None
        },
        None => None,
    }
}

/// The prompt for an optional value: its default in brackets, or
/// `(optional)`.
pub open spec fn optional_prompt(label: Seq<char>, default: Option<Seq<char>>) -> Seq<char> {
    match present(default) {
        Some(d) => label + " ["@ + d + "]: "@,
        None => label + " (optional): "@,
    }
}

/// The prompt for a required value: its default in brackets, if any.
pub open spec fn required_prompt(label: Seq<char>, default: Option<Seq<char>>) -> Seq<char> {
    match present(default) {
        Some(d) => label + " ["@ + d + "]: "@,
        None => label + ": "@,
    }
}

/// The value an answer gives to an optional question: the answer trimmed
/// when it is not blank, else the default when that is not blank. `None`
/// stands for the end of the input.
pub open spec fn optional_value(answer: Option<Seq<char>>, default: Option<Seq<char>>) -> Option<
    Seq<char>,
> {
    match present(answer) {
        Some(a) => Some(trim(a)),
        None => present(default),
    }
}

/// What an answer to a required question gives.
pub ghost enum Required {
    Value(Seq<char>),
    /// The input ended with no default.
    Missing,
    /// A blank answer with no default: ask again.
    Again,
}

/// The outcome of an answer to a required question.
pub open spec fn required_value(answer: Option<Seq<char>>, default: Option<Seq<char>>) -> Required {
    if answer is None && default is None {
        Required::Missing
    } else {
        match present(answer) {
            Some(a) => Required::Value(trim(a)),
            None => match present(default) {
                Some(d) => Required::Value(d),
                None => Required::Again,
            },
        }
    }
}

fn present_exec(s: Option<&str>) -> (r: Option<&str>)
    ensures
        opt_str_view(r) == present(opt_str_view(s)),
{
    match s {
        Some(t) => if is_blank(t) {
            None
        } else {
            Some(t)
        },
        None => None,
    }
}

/// The prompt for an optional value.
pub fn optional_prompt_text(label: &str, default: Option<&str>) -> (r: String)
    ensures
        r@ == optional_prompt(label@, opt_str_view(default)),
{
    let mut s = label.to_owned();
    match present_exec(default) {
        Some(d) => {
            push_str(&mut s, " [");
            push_str(&mut s, d);
            push_str(&mut s, "]: ");
        },
        None => push_str(&mut s, " (optional): "),
    }
    s
}

/// The prompt for a required value.
pub fn required_prompt_text(label: &str, default: Option<&str>) -> (r: String)
    ensures
        r@ == required_prompt(label@, opt_str_view(default)),
{
    let mut s = label.to_owned();
    match present_exec(default) {
        Some(d) => {
            push_str(&mut s, " [");
            push_str(&mut s, d);
            push_str(&mut s, "]: ");
        },
        None => push_str(&mut s, ": "),
    }
    s
}

/// The value an answer gives to an optional question.
pub fn optional_answer(answer: Option<&str>, default: Option<&str>) -> (r: Option<String>)
    ensures
        opt_view(r) == optional_value(opt_str_view(answer), opt_str_view(default)),
{
    match present_exec(answer) {
        Some(a) => Some(trimmed(a)),
        None => match present_exec(default) {
            Some(d) => Some(d.to_owned()),
            None => None,
        },
    }
}

/// What an answer to a required question gives, as a value.
#[derive(Debug)]
pub enum RequiredAnswer {
    Value(String),
    Missing,
    Again,
}

pub open spec fn required_view(r: RequiredAnswer) -> Required {
    match r {
        RequiredAnswer::Value(s) => Required::Value(s@),
        RequiredAnswer::Missing => Required::Missing,
        RequiredAnswer::Again => Required::Again,
    }
}

/// What an answer to a required question gives.
pub fn required_answer(answer: Option<&str>, default: Option<&str>) -> (r: RequiredAnswer)
    ensures
        required_view(r) == required_value(opt_str_view(answer), opt_str_view(default)),
{
    if answer.is_none() && default.is_none() {
        return RequiredAnswer::Missing;
    }
    match present_exec(answer) {
        Some(a) => RequiredAnswer::Value(trimmed(a)),
        None => match present_exec(default) {
            Some(d) => RequiredAnswer::Value(d.to_owned()),
            None => RequiredAnswer::Again,
        },
    }
}

// ---------------------------------------------------------------------
// Choosing a provider.
// ---------------------------------------------------------------------
/// The provider an answer names: its number in the menu or one of its
/// names, in any ASCII case; a blank answer names Firebase Hosting.
pub open spec fn provider_choice_spec(value: Seq<char>) -> Option<ProviderKind> {
    let l = lower(trim(value));
    if l == ""@ || l == "1"@ || l == "firebase-hosting"@ || l == "firebase hosting"@ || l
        == "firebase"@ {
        Some(ProviderKind::Firebase)
    } else if l == "2"@ || l == "azure-storage-blob"@ || l == "azure storage blob"@ || l
        == "azure-blob"@ || l == "azure_blob"@ {
        Some(ProviderKind::AzureBlob)
    } else if l == "3"@ || l == "azure-static-web-app"@ || l == "azure static web app"@ || l
        == "azure-swa"@ || l == "azure_swa"@ {
        Some(ProviderKind::AzureSwa)
    } else if l == "4"@ || l == "any-website-ftp"@ || l == "any website (ftp)"@ || l
        == "any website ftp"@ || l == "ftp"@ {
        Some(ProviderKind::Ftp)
    } else {
        None
    }
}

/// The provider an answer to the provider menu names.
pub fn parse_provider_choice(value: &str) -> (r: Option<ProviderKind>)
    ensures
        r == provider_choice_spec(value@),
{
    let t = trimmed(value);
    let l = lowered(t.as_str());
    let s = l.as_str();
    if str_eq(s, "") || str_eq(s, "1") || str_eq(s, "firebase-hosting") || str_eq(
        s,
        "firebase hosting",
    ) || str_eq(s, "firebase") {
        Some(ProviderKind::Firebase)
    } else if str_eq(s, "2") || str_eq(s, "azure-storage-blob") || str_eq(s, "azure storage blob")
        || str_eq(s, "azure-blob") || str_eq(s, "azure_blob") {
        Some(ProviderKind::AzureBlob)
    } else if str_eq(s, "3") || str_eq(s, "azure-static-web-app") || str_eq(
        s,
        "azure static web app",
    ) || str_eq(s, "azure-swa") || str_eq(s, "azure_swa") {
        Some(ProviderKind::AzureSwa)
    } else if str_eq(s, "4") || str_eq(s, "any-website-ftp") || str_eq(s, "any website (ftp)")
        || str_eq(s, "any website ftp") || str_eq(s, "ftp") {
        Some(ProviderKind::Ftp)
    } else {
        None
    }
}

/// The prompt of the provider menu.
pub open spec fn provider_prompt(default: ProviderKind) -> Seq<char> {
    "Provider ["@ + provider_display_name(default) + "]: "@
}

/// The provider an answer to the menu gives, `None` when the menu must be
/// shown again; the end of the input takes the default.
pub open spec fn provider_answer(answer: Option<Seq<char>>, default: ProviderKind) -> Option<
    ProviderKind,
> {
    let a = match answer {
        Some(a) => trim(a),
        None => Seq::<char>::empty(),
    };
    if a.len() == 0 {
        Some(default)
    } else {
        provider_choice_spec(a)
    }
}

/// The provider an answer to the menu gives.
pub fn provider_from_answer(answer: Option<&str>, default: ProviderKind) -> (r: Option<
    ProviderKind,
>)
    ensures
        r == provider_answer(opt_str_view(answer), default),
{
    let a = match answer {
        Some(a) => trimmed(a),
        None => String::new(),
    };
    let ghost spec_a = match opt_str_view(answer) {
        Some(x) => trim(x),
        None => Seq::<char>::empty(),
    };
    assert(a@ == spec_a);
    proof {
        crate::text::lemma_trim_idempotent(a@);
        if answer is Some {
            crate::text::lemma_trim_idempotent(answer->0@);
        }
    }
    if is_blank(a.as_str()) {
        return Some(default);
    }
    let r = parse_provider_choice(a.as_str());
    proof {
        crate::text::lemma_trim_idempotent(a@);
    }
    r
}

// ---------------------------------------------------------------------
// Reading the configuration being built.
// ---------------------------------------------------------------------
/// A string setting, trimmed, when set and not blank.
pub open spec fn get_string_spec(v: JsonView, key: Seq<char>) -> Option<Seq<char>> {
    match get_path(v, key_path(key)) {
        Some(JsonView::Str(s)) => if trim(s).len() > 0 {
            Some(trim(s))
        } else {
            None
        },
        _ => None,
    }
}

/// A string setting, trimmed, when set and not blank.
pub fn get_string(value: &JsonValue, key: &str) -> (r: Option<String>)
    ensures
        opt_view(r) == get_string_spec(value@, key@),
{
    match get_key(value, key) {
        Some(JsonValue::Str(s)) => if is_blank(s.as_str()) {
            None
        } else {
            Some(trimmed(s.as_str()))
        },
        _ => None,
    }
}

/// `v` with a string at a dotted key.
pub open spec fn with_string(v: JsonView, key: Seq<char>, s: Seq<char>) -> JsonView {
    set_path(v, key_path(key), JsonView::Str(s))
}

/// `v` with a string at a dotted key when there is one.
pub open spec fn with_optional(v: JsonView, key: Seq<char>, s: Option<Seq<char>>) -> JsonView {
    match s {
        Some(x) => with_string(v, key, x),
        None => v,
    }
}

fn put_string(value: JsonValue, key: &str, s: String) -> (r: JsonValue)
    ensures
        r@ == with_string(value@, key@, s@),
{
    let parts = crate::json::split_str(key, '.');
    proof {
        crate::text::lemma_split_on_len(key@, '.');
    }
    crate::json::set_path_exec(value, &parts, JsonValue::Str(s))
}

fn put_optional(value: JsonValue, key: &str, s: Option<String>) -> (r: JsonValue)
    ensures
        r@ == with_optional(value@, key@, opt_view(s)),
{
    match s {
        Some(x) => put_string(value, key, x),
        None => value,
    }
}


// ---------------------------------------------------------------------
// The dialogue.
// ---------------------------------------------------------------------
/// Which setup runs: the one a deployment starts when no provider is
/// configured, or `now init`.
#[derive(Debug, Clone, Copy, PartialEq, Eq, Structural)]
pub enum SetupKind {
    FirstRun,
    Init,
}

/// Where the dialogue stands.
#[derive(Debug, Clone, Copy, PartialEq, Eq, Structural)]
pub enum SetupStep {
    ConfirmOverwrite,
    Load,
    Provider,
    BaseUrl,
    DefaultUrl,
    FirebaseProject,
    FirebaseSite,
    BlobEnvName,
    BlobSecretLookup,
    BlobSasUrl,
    BlobPrefix,
    SwaAppName,
    SwaEnvironment,
    SwaTokenEnv,
    SwaSecretLookup,
    SwaToken,
    FtpHost,
    FtpRemoteDir,
    FtpUsernameEnv,
    FtpPasswordEnv,
    Done,
}

/// The dialogue's state: the configuration being built, the provider
/// (the menu's default until one is chosen) and the secret that goes to
/// `.env`.
#[derive(Debug)]
pub struct SetupState {
    pub kind: SetupKind,
    pub step: SetupStep,
    pub config_path: String,
    pub config: JsonValue,
    pub provider: ProviderKind,
    pub secret_env: Option<String>,
    pub existing_secret: Option<String>,
    pub secret: Option<String>,
}

pub ghost struct SetupView {
    pub kind: SetupKind,
    pub step: SetupStep,
    pub config_path: Seq<char>,
    pub config: JsonView,
    pub provider: ProviderKind,
    pub secret_env: Option<Seq<char>>,
    pub existing_secret: Option<Seq<char>>,
    pub secret: Option<Seq<char>>,
}

impl SetupState {
    pub open spec fn view(&self) -> SetupView {
        SetupView {
            kind: self.kind,
            step: self.step,
            config_path: self.config_path@,
            config: self.config@,
            provider: self.provider,
            secret_env: opt_view(self.secret_env),
            existing_secret: opt_view(self.existing_secret),
            secret: opt_view(self.secret),
        }
    }
}

/// What the caller hands back.
#[derive(Debug)]
pub enum SetupEvent {
    /// The configuration file's value, as read.
    ConfigRead(JsonValue),
    /// A line of input; `None` at the end of the input.
    Answer(Option<String>),
    /// What the environment (the process's, else `.env`) holds for the
    /// secret's variable.
    SecretFound(Option<String>),
}

/// Why setup stopped.
#[derive(Debug)]
pub enum SetupError {
    /// The input ended where a value was required; the question.
    MissingAnswer(String),
    /// An environment variable name that cannot be used.
    InvalidEnvName(String, EnvError),
    /// An event that the current step does not take.
    UnexpectedEvent,
}

/// What the caller does next.
#[derive(Debug)]
pub enum ActionKind {
    /// Print the prompt and read a line.
    Ask(String),
    /// Read the configuration file.
    ReadConfig,
    /// Look up the value of an environment variable.
    LookUpSecret(String),
    /// Write the configuration, and the secret to `.env`.
    Finish,
    /// End without writing anything.
    Stop,
    /// End with an error.
    Fail(SetupError),
}

/// Lines to print, then what to do.
#[derive(Debug)]
pub struct SetupAction {
    pub say: Vec<String>,
    pub kind: ActionKind,
}

pub ghost enum FailView {
    MissingAnswer(Seq<char>),
    InvalidEnvName(Seq<char>, EnvError),
    UnexpectedEvent,
}

pub ghost enum KindView {
    Ask(Seq<char>),
    ReadConfig,
    LookUpSecret(Seq<char>),
    Finish,
    Stop,
    Fail(FailView),
}

pub open spec fn kind_view(k: ActionKind) -> KindView {
    match k {
        ActionKind::Ask(t) => KindView::Ask(t@),
        ActionKind::ReadConfig => KindView::ReadConfig,
        ActionKind::LookUpSecret(n) => KindView::LookUpSecret(n@),
        ActionKind::Finish => KindView::Finish,
        ActionKind::Stop => KindView::Stop,
        ActionKind::Fail(SetupError::MissingAnswer(l)) => KindView::Fail(FailView::MissingAnswer(l@)),
        ActionKind::Fail(SetupError::InvalidEnvName(n, e)) => KindView::Fail(
            FailView::InvalidEnvName(n@, e),
        ),
        ActionKind::Fail(SetupError::UnexpectedEvent) => KindView::Fail(FailView::UnexpectedEvent),
    }
}

/// An action as values: the lines said and what follows.
pub open spec fn action_is(a: SetupAction, say: Seq<Seq<char>>, k: KindView) -> bool {
    views(a.say@) == say && kind_view(a.kind) == k
}

// The texts.
pub open spec fn keep_secrets_line() -> Seq<char> {
    "Keep tokens, passwords, and account keys in provider login state or environment variables."@
}

pub open spec fn intro_lines(kind: SetupKind) -> Seq<Seq<char>> {
    match kind {
        SetupKind::FirstRun => seq![
            "No provider is configured for now."@,
            "This first-time setup writes settings to .now.json."@,
            keep_secrets_line(),
            Seq::<char>::empty(),
        ],
        SetupKind::Init => seq![
            "Configure now interactively."@,
            keep_secrets_line(),
            Seq::<char>::empty(),
        ],
    }
}

pub open spec fn menu_lines() -> Seq<Seq<char>> {
    seq![
        "Choose a provider:"@,
        "  1. Firebase Hosting"@,
        "  2. Azure Storage Blob"@,
        "  3. Azure Static Web App"@,
        "  4. Any Website (FTP)"@,
    ]
}

pub open spec fn provider_help_line() -> Seq<char> {
    "Enter 1, 2, 3, 4, firebase-hosting, Firebase Hosting, azure-storage-blob, Azure Storage Blob, azure-static-web-app, Azure Static Web App, any-website-ftp, or Any Website (FTP)."@
}

pub open spec fn blob_intro_line() -> Seq<char> {
    "Azure Storage Blob SAS URL includes upload credentials. It will be saved to .env, while .now.json only stores the environment variable name."@
}

pub open spec fn swa_intro_line() -> Seq<char> {
    "Azure Static Web App deployment token will be saved to .env, while .now.json only stores the environment variable name."@
}

pub open spec fn blob_env_label() -> Seq<char> {
    "Azure Storage Blob SAS URL environment variable"@
}

pub open spec fn sas_label() -> Seq<char> {
    "Azure Storage Blob container SAS URL"@
}

pub open spec fn swa_token_label() -> Seq<char> {
    "Azure Static Web App deployment token"@
}

pub open spec fn default_sas_env() -> Seq<char> {
    "NOW_AZURE_BLOB_SAS_URL"@
}

pub open spec fn default_swa_token_env() -> Seq<char> {
    "SWA_CLI_DEPLOYMENT_TOKEN"@
}

/// A setting read from the configuration, else a fallback.
pub open spec fn or_else(v: Option<Seq<char>>, fallback: Seq<char>) -> Seq<char> {
    match v {
        Some(x) => x,
        None => fallback,
    }
}

/// The answer carried by an event, without its line break.
pub open spec fn answer_of(e: SetupEvent) -> Option<Option<Seq<char>>> {
    match e {
        SetupEvent::Answer(Some(l)) => Some(Some(strip_line_end(l@))),
        SetupEvent::Answer(None) => Some(None),
        _ => None,
    }
}

/// A SAS URL as shown in a prompt.
pub open spec fn shown_sas(e: Seq<char>) -> Seq<char> {
    match masked_spec(e) {
        Some(m) => m,
        None => "<invalid>"@,
    }
}


pub ghost struct Outcome {
    pub state: SetupView,
    pub say: Seq<Seq<char>>,
    pub kind: KindView,
}

pub open spec fn out(state: SetupView, say: Seq<Seq<char>>, kind: KindView) -> Outcome {
    Outcome { state, say, kind }
}

pub open spec fn unexpected(s: SetupView) -> Outcome {
    out(s, Seq::<Seq<char>>::empty(), KindView::Fail(FailView::UnexpectedEvent))
}

pub open spec fn ask(state: SetupView, say: Seq<Seq<char>>, prompt: Seq<char>) -> Outcome {
    out(state, say, KindView::Ask(prompt))
}

/// The configuration the dialogue starts from: the defaults with the
/// existing file merged over them.
pub open spec fn start_config(existing: JsonView) -> JsonView {
    merge_spec(default_config_view(), existing)
}

/// The provider the menu offers first: the configured one, else Firebase
/// Hosting.
pub open spec fn menu_default(config: JsonView) -> ProviderKind {
    match get_string_spec(config, "provider"@) {
        Some(n) => match parse_provider_name(n) {
            Some(p) => p,
            None => ProviderKind::Firebase,
        },
        None => ProviderKind::Firebase,
    }
}

/// The first question once the provider is chosen.
pub open spec fn after_provider(s: SetupView, p: ProviderKind) -> Outcome {
    let c = with_string(s.config, "provider"@, provider_name(p));
    if p == ProviderKind::AzureBlob {
        ask(
            SetupView { step: SetupStep::BlobEnvName, config: c, provider: p, ..s },
            seq![blob_intro_line()],
            optional_prompt(
                blob_env_label(),
                Some(or_else(get_string_spec(c, "azure_blob.sas_url_env"@), default_sas_env())),
            ),
        )
    } else {
        ask(
            SetupView { step: SetupStep::BaseUrl, config: c, provider: p, ..s },
            Seq::<Seq<char>>::empty(),
            optional_prompt("Base URL"@, get_string_spec(c, "base_url"@)),
        )
    }
}

/// The first provider-specific question, after the common settings.
pub open spec fn after_common(s: SetupView, c: JsonView) -> Outcome {
    match s.provider {
        ProviderKind::Firebase => ask(
            SetupView { step: SetupStep::FirebaseProject, config: c, ..s },
            Seq::<Seq<char>>::empty(),
            optional_prompt("Firebase project"@, get_string_spec(c, "firebase.project"@)),
        ),
        ProviderKind::AzureSwa => ask(
            SetupView { step: SetupStep::SwaAppName, config: c, ..s },
            seq![swa_intro_line()],
            optional_prompt("Azure Static Web App app name"@, get_string_spec(c, "azure_swa.app_name"@)),
        ),
        ProviderKind::Ftp => ask(
            SetupView { step: SetupStep::FtpHost, config: c, ..s },
            Seq::<Seq<char>>::empty(),
            required_prompt("FTP host"@, get_string_spec(c, "ftp.host"@)),
        ),
        ProviderKind::AzureBlob => unexpected(s),
    }
}

/// The value an optional question with a fallback gives.
pub open spec fn with_fallback(answer: Option<Seq<char>>, current: Option<Seq<char>>, fallback: Seq<
    char,
>) -> Seq<char> {
    or_else(optional_value(answer, Some(or_else(current, fallback))), fallback)
}

/// Why a name is not a valid environment variable name.
pub open spec fn env_name_error(name: Seq<char>) -> EnvError {
    if name.len() == 0 {
        EnvError::EmptyName
    } else {
        EnvError::InvalidName
    }
}

/// An environment variable name chosen for a secret: refused unless it is
/// a valid name, with the reason `validate_env_name` gives.
pub open spec fn secret_env_chosen(s: SetupView, name: Seq<char>, c: JsonView, next: SetupStep) -> Outcome {
    if !valid_env_name(name) {
        out(
            SetupView { step: SetupStep::Done, ..s },
            Seq::<Seq<char>>::empty(),
            KindView::Fail(FailView::InvalidEnvName(name, env_name_error(name))),
        )
    } else {
        out(
            SetupView { step: next, config: c, secret_env: Some(name), ..s },
            Seq::<Seq<char>>::empty(),
            KindView::LookUpSecret(name),
        )
    }
}

/// What a secret answer gives: with a value already in the environment a
/// blank answer keeps it; without one the answer is required.
pub open spec fn secret_answer(a: Option<Seq<char>>, existing: Option<Seq<char>>) -> Required {
    match existing {
        Some(e) => match present(a) {
            Some(x) => Required::Value(trim(x)),
            None => Required::Value(e),
        },
        None => required_value(a, None),
    }
}

/// The dialogue's transitions: from a state and an event, the next state,
/// the lines said and what the caller does next.
pub open spec fn transition(s: SetupView, e: SetupEvent) -> Outcome {
    let a = answer_of(e);
    match s.step {
        SetupStep::ConfirmOverwrite => match a {
            Some(x) => if is_yes_answer(x) {
                out(
                    SetupView { step: SetupStep::Load, ..s },
                    intro_lines(s.kind),
                    KindView::ReadConfig,
                )
            } else {
                out(
                    SetupView { step: SetupStep::Done, ..s },
                    seq!["Kept "@ + s.config_path],
                    KindView::Stop,
                )
            },
            None => unexpected(s),
        },
        SetupStep::Load => match e {
            SetupEvent::ConfigRead(existing) => {
                let c = start_config(existing@);
                let d = menu_default(c);
                ask(
                    SetupView { step: SetupStep::Provider, config: c, provider: d, ..s },
                    menu_lines(),
                    provider_prompt(d),
                )
            },
            _ => unexpected(s),
        },
        SetupStep::Provider => match a {
            Some(x) => match provider_answer(x, s.provider) {
                Some(p) => after_provider(s, p),
                None => ask(s, seq![provider_help_line()], provider_prompt(s.provider)),
            },
            None => unexpected(s),
        },
        SetupStep::BaseUrl => match a {
            Some(x) => {
                let c = with_optional(
                    s.config,
                    "base_url"@,
                    optional_value(x, get_string_spec(s.config, "base_url"@)),
                );
                ask(
                    SetupView { step: SetupStep::DefaultUrl, config: c, ..s },
                    Seq::<Seq<char>>::empty(),
                    optional_prompt("Default URL override"@, get_string_spec(c, "default_url"@)),
                )
            },
            None => unexpected(s),
        },
        SetupStep::DefaultUrl => match a {
            Some(x) => after_common(
                s,
                with_optional(
                    s.config,
                    "default_url"@,
                    optional_value(x, get_string_spec(s.config, "default_url"@)),
                ),
            ),
            None => unexpected(s),
        },
        SetupStep::FirebaseProject => match a {
            Some(x) => {
                let c = with_optional(
                    s.config,
                    "firebase.project"@,
                    optional_value(x, get_string_spec(s.config, "firebase.project"@)),
                );
                ask(
                    SetupView { step: SetupStep::FirebaseSite, config: c, ..s },
                    Seq::<Seq<char>>::empty(),
                    optional_prompt("Firebase hosting site"@, get_string_spec(c, "firebase.site"@)),
                )
            },
            None => unexpected(s),
        },
        SetupStep::FirebaseSite => match a {
            Some(x) => out(
                SetupView {
                    step: SetupStep::Done,
                    config: with_optional(
                        s.config,
                        "firebase.site"@,
                        optional_value(x, get_string_spec(s.config, "firebase.site"@)),
                    ),
                    ..s
                },
                Seq::<Seq<char>>::empty(),
                KindView::Finish,
            ),
            None => unexpected(s),
        },
        SetupStep::BlobEnvName => match a {
            Some(x) => secret_env_chosen(
                s,
                with_fallback(x, get_string_spec(s.config, "azure_blob.sas_url_env"@), default_sas_env()),
                s.config,
                SetupStep::BlobSecretLookup,
            ),
            None => unexpected(s),
        },
        SetupStep::BlobSecretLookup => match e {
            SetupEvent::SecretFound(found) => {
                let f = opt_view(found);
                ask(
                    SetupView { step: SetupStep::BlobSasUrl, existing_secret: f, ..s },
                    Seq::<Seq<char>>::empty(),
                    match f {
                        Some(x) => sas_label() + " ["@ + shown_sas(x) + "]: "@,
                        None => required_prompt(sas_label(), None),
                    },
                )
            },
            _ => unexpected(s),
        },
        SetupStep::BlobSasUrl => match a {
            Some(x) => match secret_answer(x, s.existing_secret) {
                Required::Value(v) => {
                    let c = remove_path(
                        with_string(s.config, "azure_blob.sas_url_env"@, or_else(s.secret_env, default_sas_env())),
                        key_path("azure_blob.sas_url"@),
                    );
                    ask(
                        SetupView { step: SetupStep::BlobPrefix, config: c, secret: Some(v), ..s },
                        Seq::<Seq<char>>::empty(),
                        optional_prompt(
                            "Azure Storage Blob folder prefix"@,
                            get_string_spec(c, "azure_blob.prefix"@),
                        ),
                    )
                },
                Required::Missing => out(
                    SetupView { step: SetupStep::Done, ..s },
                    Seq::<Seq<char>>::empty(),
                    KindView::Fail(FailView::MissingAnswer(sas_label())),
                ),
                Required::Again => ask(
                    s,
                    seq![sas_label() + " is required."@],
                    required_prompt(sas_label(), None),
                ),
            },
            None => unexpected(s),
        },
        SetupStep::BlobPrefix => match a {
            Some(x) => out(
                SetupView {
                    step: SetupStep::Done,
                    config: with_optional(
                        s.config,
                        "azure_blob.prefix"@,
                        optional_value(x, get_string_spec(s.config, "azure_blob.prefix"@)),
                    ),
                    ..s
                },
                Seq::<Seq<char>>::empty(),
                KindView::Finish,
            ),
            None => unexpected(s),
        },
        SetupStep::SwaAppName => match a {
            Some(x) => {
                let c = with_optional(
                    s.config,
                    "azure_swa.app_name"@,
                    optional_value(x, get_string_spec(s.config, "azure_swa.app_name"@)),
                );
                ask(
                    SetupView { step: SetupStep::SwaEnvironment, config: c, ..s },
                    Seq::<Seq<char>>::empty(),
                    optional_prompt(
                        "Azure Static Web App environment"@,
                        Some(or_else(get_string_spec(c, "azure_swa.environment"@), "production"@)),
                    ),
                )
            },
            None => unexpected(s),
        },
        SetupStep::SwaEnvironment => match a {
            Some(x) => {
                let c = with_string(
                    s.config,
                    "azure_swa.environment"@,
                    with_fallback(x, get_string_spec(s.config, "azure_swa.environment"@), "production"@),
                );
                ask(
                    SetupView { step: SetupStep::SwaTokenEnv, config: c, ..s },
                    Seq::<Seq<char>>::empty(),
                    optional_prompt(
                        "Azure Static Web App token environment variable"@,
                        Some(
                            or_else(
                                get_string_spec(c, "azure_swa.deployment_token_env"@),
                                default_swa_token_env(),
                            ),
                        ),
                    ),
                )
            },
            None => unexpected(s),
        },
        SetupStep::SwaTokenEnv => match a {
            Some(x) => {
                let name = with_fallback(
                    x,
                    get_string_spec(s.config, "azure_swa.deployment_token_env"@),
                    default_swa_token_env(),
                );
                secret_env_chosen(
                    s,
                    name,
                    with_string(s.config, "azure_swa.deployment_token_env"@, name),
                    SetupStep::SwaSecretLookup,
                )
            },
            None => unexpected(s),
        },
        SetupStep::SwaSecretLookup => match e {
            SetupEvent::SecretFound(found) => {
                let f = opt_view(found);
                ask(
                    SetupView { step: SetupStep::SwaToken, existing_secret: f, ..s },
                    Seq::<Seq<char>>::empty(),
                    match f {
                        Some(_) => swa_token_label() + " [configured]: "@,
                        None => required_prompt(swa_token_label(), None),
                    },
                )
            },
            _ => unexpected(s),
        },
        SetupStep::SwaToken => match a {
            Some(x) => match secret_answer(x, s.existing_secret) {
                Required::Value(v) => out(
                    SetupView { step: SetupStep::Done, secret: Some(v), ..s },
                    Seq::<Seq<char>>::empty(),
                    KindView::Finish,
                ),
                Required::Missing => out(
                    SetupView { step: SetupStep::Done, ..s },
                    Seq::<Seq<char>>::empty(),
                    KindView::Fail(FailView::MissingAnswer(swa_token_label())),
                ),
                Required::Again => ask(
                    s,
                    seq![swa_token_label() + " is required."@],
                    required_prompt(swa_token_label(), None),
                ),
            },
            None => unexpected(s),
        },
        SetupStep::FtpHost => match a {
            Some(x) => {
                let current = get_string_spec(s.config, "ftp.host"@);
                match required_value(x, current) {
                    Required::Value(h) => {
                        let c = with_string(s.config, "ftp.host"@, h);
                        ask(
                            SetupView { step: SetupStep::FtpRemoteDir, config: c, ..s },
                            Seq::<Seq<char>>::empty(),
                            optional_prompt(
                                "FTP remote directory"@,
                                Some(or_else(get_string_spec(c, "ftp.remote_dir"@), "/"@)),
                            ),
                        )
                    },
                    Required::Missing => out(
                        SetupView { step: SetupStep::Done, ..s },
                        Seq::<Seq<char>>::empty(),
                        KindView::Fail(FailView::MissingAnswer("FTP host"@)),
                    ),
                    Required::Again => ask(
                        s,
                        seq!["FTP host is required."@],
                        required_prompt("FTP host"@, current),
                    ),
                }
            },
            None => unexpected(s),
        },
        SetupStep::FtpRemoteDir => match a {
            Some(x) => {
                let c = with_string(
                    s.config,
                    "ftp.remote_dir"@,
                    with_fallback(x, get_string_spec(s.config, "ftp.remote_dir"@), "/"@),
                );
                ask(
                    SetupView { step: SetupStep::FtpUsernameEnv, config: c, ..s },
                    Seq::<Seq<char>>::empty(),
                    optional_prompt(
                        "FTP username environment variable"@,
                        Some(or_else(get_string_spec(c, "ftp.username_env"@), "NOW_FTP_USERNAME"@)),
                    ),
                )
            },
            None => unexpected(s),
        },
        SetupStep::FtpUsernameEnv => match a {
            Some(x) => {
                let c = with_string(
                    s.config,
                    "ftp.username_env"@,
                    with_fallback(x, get_string_spec(s.config, "ftp.username_env"@), "NOW_FTP_USERNAME"@),
                );
                ask(
                    SetupView { step: SetupStep::FtpPasswordEnv, config: c, ..s },
                    Seq::<Seq<char>>::empty(),
                    optional_prompt(
                        "FTP password environment variable"@,
                        Some(or_else(get_string_spec(c, "ftp.password_env"@), "NOW_FTP_PASSWORD"@)),
                    ),
                )
            },
            None => unexpected(s),
        },
        SetupStep::FtpPasswordEnv => match a {
            Some(x) => out(
                SetupView {
                    step: SetupStep::Done,
                    config: with_string(
                        s.config,
                        "ftp.password_env"@,
                        with_fallback(x, get_string_spec(s.config, "ftp.password_env"@), "NOW_FTP_PASSWORD"@),
                    ),
                    ..s
                },
                Seq::<Seq<char>>::empty(),
                KindView::Finish,
            ),
            None => unexpected(s),
        },
        SetupStep::Done => unexpected(s),
    }
}

/// Whether an answer to the overwrite question is yes; the end of the
/// input is no.
pub open spec fn is_yes_answer(a: Option<Seq<char>>) -> bool {
    match a {
        Some(x) => crate::deploy::is_yes(x),
        None => false,
    }
}


// ---------------------------------------------------------------------
// Running the dialogue.
// ---------------------------------------------------------------------
/// Whether a step's result is the outcome the transitions give.
pub open spec fn result_is(r: (SetupState, SetupAction), o: Outcome) -> bool {
    r.0@ == o.state && action_is(r.1, o.say, o.kind)
}

fn action(say: Vec<String>, kind: ActionKind) -> (r: SetupAction)
    ensures
        r.say == say,
        r.kind == kind,
{
    SetupAction { say, kind }
}

fn no_lines() -> (r: Vec<String>)
    ensures
        views(r@) == Seq::<Seq<char>>::empty(),
{
    let v: Vec<String> = Vec::new();
    assert(views(v@) =~= Seq::<Seq<char>>::empty());
    v
}

fn one_line(s: String) -> (r: Vec<String>)
    ensures
        views(r@) == seq![s@],
{
    let v = vec![s];
    assert(views(v@) =~= seq![s@]);
    v
}

fn concat(a: &str, b: &str) -> (r: String)
    ensures
        r@ == a@ + b@,
{
    let mut s = a.to_owned();
    push_str(&mut s, b);
    s
}

fn intro(kind: SetupKind) -> (r: Vec<String>)
    ensures
        views(r@) == intro_lines(kind),
{
    let keep = "Keep tokens, passwords, and account keys in provider login state or environment variables.";
    let v = match kind {
        SetupKind::FirstRun => vec![
            "No provider is configured for now.".to_owned(),
            "This first-time setup writes settings to .now.json.".to_owned(),
            keep.to_owned(),
            String::new(),
        ],
        SetupKind::Init => vec![
            "Configure now interactively.".to_owned(),
            keep.to_owned(),
            String::new(),
        ],
    };
    assert(views(v@) =~= intro_lines(kind));
    v
}

fn menu() -> (r: Vec<String>)
    ensures
        views(r@) == menu_lines(),
{
    let v = vec![
        "Choose a provider:".to_owned(),
        "  1. Firebase Hosting".to_owned(),
        "  2. Azure Storage Blob".to_owned(),
        "  3. Azure Static Web App".to_owned(),
        "  4. Any Website (FTP)".to_owned(),
    ];
    assert(views(v@) =~= menu_lines());
    v
}

fn provider_prompt_text(p: ProviderKind) -> (r: String)
    ensures
        r@ == provider_prompt(p),
{
    let mut s = concat("Provider [", p.display_name());
    push_str(&mut s, "]: ");
    s
}

fn opt_ref(o: &Option<String>) -> (r: Option<&str>)
    ensures
        opt_str_view(r) == opt_view(*o),
{
    match o {
        Some(s) => Some(s.as_str()),
        None => None,
    }
}

fn or_else_exec(v: Option<String>, fallback: &str) -> (r: String)
    ensures
        r@ == or_else(opt_view(v), fallback@),
{
    match v {
        Some(x) => x,
        None => fallback.to_owned(),
    }
}

fn fallback_answer(answer: &Option<String>, current: Option<String>, fallback: &str) -> (r: String)
    ensures
        r@ == with_fallback(opt_view(*answer), opt_view(current), fallback@),
{
    let d = or_else_exec(current, fallback);
    let v = optional_answer(opt_ref(answer), Some(d.as_str()));
    or_else_exec(v, fallback)
}

/// The answer an event carries.
fn take_answer(e: &SetupEvent) -> (r: Option<Option<String>>)
    ensures
        match r {
            Some(a) => answer_of(*e) == Some(opt_view(a)),
            None => answer_of(*e) is None,
        },
{
    match e {
        SetupEvent::Answer(Some(l)) => Some(Some(answer_text(l.as_str()))),
        SetupEvent::Answer(None) => Some(None),
        _ => None,
    }
}

fn unexpected_event(s: SetupState) -> (r: (SetupState, SetupAction))
    ensures
        result_is(r, unexpected(s@)),
{
    (s, action(no_lines(), ActionKind::Fail(SetupError::UnexpectedEvent)))
}

/// First-time setup, which a deployment runs when no provider is
/// configured: its first state and action (it first reads the
/// configuration file). [`setup_next`] carries it on.
pub fn run_first_run_setup(config_path: &str) -> (r: (SetupState, SetupAction))
    ensures
        r.0@ == (SetupView {
            kind: SetupKind::FirstRun,
            step: SetupStep::Load,
            config_path: config_path@,
            config: JsonView::Null,
            provider: ProviderKind::Firebase,
            secret_env: None,
            existing_secret: None,
            secret: None,
        }),
        action_is(r.1, intro_lines(SetupKind::FirstRun), KindView::ReadConfig),
{
    let s = SetupState {
        kind: SetupKind::FirstRun,
        step: SetupStep::Load,
        config_path: config_path.to_owned(),
        config: JsonValue::Null,
        provider: ProviderKind::Firebase,
        secret_env: None,
        existing_secret: None,
        secret: None,
    };
    (s, action(intro(SetupKind::FirstRun), ActionKind::ReadConfig))
}

/// `now init`'s setup: its first state and action. When the
/// configuration file exists it first asks whether to overwrite it.
/// [`setup_next`] carries it on.
pub fn run_init_setup(config_path: &str, config_exists: bool) -> (r: (SetupState, SetupAction))
    ensures
        r.0@ == (SetupView {
            kind: SetupKind::Init,
            step: if config_exists {
                SetupStep::ConfirmOverwrite
            } else {
                SetupStep::Load
            },
            config_path: config_path@,
            config: JsonView::Null,
            provider: ProviderKind::Firebase,
            secret_env: None,
            existing_secret: None,
            secret: None,
        }),
        config_exists ==> action_is(
            r.1,
            seq!["Config already exists: "@ + config_path@],
            KindView::Ask("Reconfigure and overwrite existing config? [y/N] "@),
        ),
        !config_exists ==> action_is(r.1, intro_lines(SetupKind::Init), KindView::ReadConfig),
{
    let s = SetupState {
        kind: SetupKind::Init,
        step: if config_exists {
            SetupStep::ConfirmOverwrite
        } else {
            SetupStep::Load
        },
        config_path: config_path.to_owned(),
        config: JsonValue::Null,
        provider: ProviderKind::Firebase,
        secret_env: None,
        existing_secret: None,
        secret: None,
    };
    if config_exists {
        let line = concat("Config already exists: ", config_path);
        (
            s,
            action(
                one_line(line),
                ActionKind::Ask("Reconfigure and overwrite existing config? [y/N] ".to_owned()),
            ),
        )
    } else {
        (s, action(intro(SetupKind::Init), ActionKind::ReadConfig))
    }
}


fn step_confirm(s: SetupState, e: &SetupEvent) -> (r: (SetupState, SetupAction))
    requires
        s.step == SetupStep::ConfirmOverwrite,
    ensures
        result_is(r, transition(s@, *e)),
{
    let a = match take_answer(e) {
        Some(a) => a,
        None => return unexpected_event(s),
    };
    let yes = match &a {
        Some(x) => crate::deploy::answer_is_yes(x.as_str()),
        None => false,
    };
    if yes {
        let kind = s.kind;
        (SetupState { step: SetupStep::Load, ..s }, action(intro(kind), ActionKind::ReadConfig))
    } else {
        let line = concat("Kept ", s.config_path.as_str());
        (SetupState { step: SetupStep::Done, ..s }, action(one_line(line), ActionKind::Stop))
    }
}

fn step_load(s: SetupState, e: SetupEvent) -> (r: (SetupState, SetupAction))
    requires
        s.step == SetupStep::Load,
    ensures
        result_is(r, transition(s@, e)),
{
    match e {
        SetupEvent::ConfigRead(existing) => {
            let c = merge(default_config(), existing);
            let named = get_string(&c, "provider");
            let d = match named {
                Some(n) => match ProviderKind::parse(n.as_str()) {
                    Some(p) => p,
                    None => ProviderKind::Firebase,
                },
                None => ProviderKind::Firebase,
            };
            let prompt = provider_prompt_text(d);
            (
                SetupState { step: SetupStep::Provider, config: c, provider: d, ..s },
                action(menu(), ActionKind::Ask(prompt)),
            )
        },
        _ => unexpected_event(s),
    }
}

fn step_provider(s: SetupState, e: &SetupEvent) -> (r: (SetupState, SetupAction))
    requires
        s.step == SetupStep::Provider,
    ensures
        result_is(r, transition(s@, *e)),
{
    let a = match take_answer(e) {
        Some(a) => a,
        None => return unexpected_event(s),
    };
    match provider_from_answer(opt_ref(&a), s.provider) {
        None => {
            let prompt = provider_prompt_text(s.provider);
            let help = "Enter 1, 2, 3, 4, firebase-hosting, Firebase Hosting, azure-storage-blob, Azure Storage Blob, azure-static-web-app, Azure Static Web App, any-website-ftp, or Any Website (FTP).".to_owned();
            (s, action(one_line(help), ActionKind::Ask(prompt)))
        },
        Some(p) => {
            let c = put_string(s.config, "provider", p.as_str().to_owned());
            if p == ProviderKind::AzureBlob {
                let current = get_string(&c, "azure_blob.sas_url_env");
                let d = or_else_exec(current, "NOW_AZURE_BLOB_SAS_URL");
                let prompt = optional_prompt_text(
                    "Azure Storage Blob SAS URL environment variable",
                    Some(d.as_str()),
                );
                let intro_line = "Azure Storage Blob SAS URL includes upload credentials. It will be saved to .env, while .now.json only stores the environment variable name.".to_owned();
                (
                    SetupState { step: SetupStep::BlobEnvName, config: c, provider: p, ..s },
                    action(one_line(intro_line), ActionKind::Ask(prompt)),
                )
            } else {
                let current = get_string(&c, "base_url");
                let prompt = optional_prompt_text("Base URL", opt_ref(&current));
                (
                    SetupState { step: SetupStep::BaseUrl, config: c, provider: p, ..s },
                    action(no_lines(), ActionKind::Ask(prompt)),
                )
            }
        },
    }
}

fn step_base_url(s: SetupState, e: &SetupEvent) -> (r: (SetupState, SetupAction))
    requires
        s.step == SetupStep::BaseUrl,
    ensures
        result_is(r, transition(s@, *e)),
{
    let a = match take_answer(e) {
        Some(a) => a,
        None => return unexpected_event(s),
    };
    let current = get_string(&s.config, "base_url");
    let v = optional_answer(opt_ref(&a), opt_ref(&current));
    let c = put_optional(s.config, "base_url", v);
    let next = get_string(&c, "default_url");
    let prompt = optional_prompt_text("Default URL override", opt_ref(&next));
    (
        SetupState { step: SetupStep::DefaultUrl, config: c, ..s },
        action(no_lines(), ActionKind::Ask(prompt)),
    )
}

fn step_default_url(s: SetupState, e: &SetupEvent) -> (r: (SetupState, SetupAction))
    requires
        s.step == SetupStep::DefaultUrl,
    ensures
        result_is(r, transition(s@, *e)),
{
    let a = match take_answer(e) {
        Some(a) => a,
        None => return unexpected_event(s),
    };
    let current = get_string(&s.config, "default_url");
    let v = optional_answer(opt_ref(&a), opt_ref(&current));
    match s.provider {
        ProviderKind::Firebase => {
            let c = put_optional(s.config, "default_url", v);
            let next = get_string(&c, "firebase.project");
            let prompt = optional_prompt_text("Firebase project", opt_ref(&next));
            (
                SetupState { step: SetupStep::FirebaseProject, config: c, ..s },
                action(no_lines(), ActionKind::Ask(prompt)),
            )
        },
        ProviderKind::AzureSwa => {
            let c = put_optional(s.config, "default_url", v);
            let next = get_string(&c, "azure_swa.app_name");
            let prompt = optional_prompt_text("Azure Static Web App app name", opt_ref(&next));
            let intro_line = "Azure Static Web App deployment token will be saved to .env, while .now.json only stores the environment variable name.".to_owned();
            (
                SetupState { step: SetupStep::SwaAppName, config: c, ..s },
                action(one_line(intro_line), ActionKind::Ask(prompt)),
            )
        },
        ProviderKind::Ftp => {
            let c = put_optional(s.config, "default_url", v);
            let next = get_string(&c, "ftp.host");
            let prompt = required_prompt_text("FTP host", opt_ref(&next));
            (
                SetupState { step: SetupStep::FtpHost, config: c, ..s },
                action(no_lines(), ActionKind::Ask(prompt)),
            )
        },
        ProviderKind::AzureBlob => unexpected_event(s),
    }
}

/// A question about an optional string setting whose answer is written
/// at `key`; then `next` asks `next_label` about `next_key`.
fn optional_then_ask(
    s: SetupState,
    a: &Option<String>,
    key: &str,
    next: SetupStep,
    next_label: &str,
    next_key: &str,
) -> (r: (SetupState, SetupAction))
    ensures
        ({
            let c = with_optional(
                s@.config,
                key@,
                optional_value(opt_view(*a), get_string_spec(s@.config, key@)),
            );
            result_is(
                r,
                ask(
                    SetupView { step: next, config: c, ..s@ },
                    Seq::<Seq<char>>::empty(),
                    optional_prompt(next_label@, get_string_spec(c, next_key@)),
                ),
            )
        }),
{
    let current = get_string(&s.config, key);
    let v = optional_answer(opt_ref(a), opt_ref(&current));
    let c = put_optional(s.config, key, v);
    let n = get_string(&c, next_key);
    let prompt = optional_prompt_text(next_label, opt_ref(&n));
    (SetupState { step: next, config: c, ..s }, action(no_lines(), ActionKind::Ask(prompt)))
}

/// A last question about an optional string setting written at `key`.
fn optional_then_finish(s: SetupState, a: &Option<String>, key: &str) -> (r: (
    SetupState,
    SetupAction,
))
    ensures
        result_is(
            r,
            out(
                SetupView {
                    step: SetupStep::Done,
                    config: with_optional(
                        s@.config,
                        key@,
                        optional_value(opt_view(*a), get_string_spec(s@.config, key@)),
                    ),
                    ..s@
                },
                Seq::<Seq<char>>::empty(),
                KindView::Finish,
            ),
        ),
{
    let current = get_string(&s.config, key);
    let v = optional_answer(opt_ref(a), opt_ref(&current));
    let c = put_optional(s.config, key, v);
    (SetupState { step: SetupStep::Done, config: c, ..s }, action(no_lines(), ActionKind::Finish))
}


/// The prompt for an optional setting with a fallback value.
fn fallback_prompt(c: &JsonValue, label: &str, key: &str, fallback: &str) -> (r: String)
    ensures
        r@ == optional_prompt(label@, Some(or_else(get_string_spec(c@, key@), fallback@))),
{
    let d = or_else_exec(get_string(c, key), fallback);
    optional_prompt_text(label, Some(d.as_str()))
}

fn choose_secret_env(s: SetupState, name: String, c: JsonValue, next: SetupStep) -> (r: (
    SetupState,
    SetupAction,
))
    ensures
        result_is(r, secret_env_chosen(s@, name@, c@, next)),
{
    match validate_env_name(name.as_str()) {
        Err(err) => (
            SetupState { step: SetupStep::Done, ..s },
            action(no_lines(), ActionKind::Fail(SetupError::InvalidEnvName(name, err))),
        ),
        Ok(()) => {
            let look = name.clone();
            (
                SetupState { step: next, config: c, secret_env: Some(name), ..s },
                action(no_lines(), ActionKind::LookUpSecret(look)),
            )
        },
    }
}

fn step_blob_env(s: SetupState, e: &SetupEvent) -> (r: (SetupState, SetupAction))
    requires
        s.step == SetupStep::BlobEnvName,
    ensures
        result_is(r, transition(s@, *e)),
{
    let a = match take_answer(e) {
        Some(a) => a,
        None => return unexpected_event(s),
    };
    let current = get_string(&s.config, "azure_blob.sas_url_env");
    let name = fallback_answer(&a, current, "NOW_AZURE_BLOB_SAS_URL");
    let c = s.config.clone_value();
    choose_secret_env(s, name, c, SetupStep::BlobSecretLookup)
}

/// The answer to a secret's question.
fn secret_from_answer(a: &Option<String>, existing: &Option<String>) -> (r: RequiredAnswer)
    ensures
        required_view(r) == secret_answer(opt_view(*a), opt_view(*existing)),
{
    match existing {
        Some(e) => match present_exec(opt_ref(a)) {
            Some(x) => RequiredAnswer::Value(trimmed(x)),
            None => RequiredAnswer::Value(e.clone()),
        },
        None => required_answer(opt_ref(a), None),
    }
}

fn step_blob_lookup(s: SetupState, e: SetupEvent) -> (r: (SetupState, SetupAction))
    requires
        s.step == SetupStep::BlobSecretLookup,
    ensures
        result_is(r, transition(s@, e)),
{
    match e {
        SetupEvent::SecretFound(found) => {
            let prompt = match &found {
                Some(x) => {
                    let shown = match mask_sas_url(x.as_str()) {
                        Ok(m) => m,
                        Err(_) => "<invalid>".to_owned(),
                    };
                    let mut p = concat("Azure Storage Blob container SAS URL", " [");
                    push_str(&mut p, shown.as_str());
                    push_str(&mut p, "]: ");
                    p
                },
                None => required_prompt_text("Azure Storage Blob container SAS URL", None),
            };
            (
                SetupState { step: SetupStep::BlobSasUrl, existing_secret: found, ..s },
                action(no_lines(), ActionKind::Ask(prompt)),
            )
        },
        _ => unexpected_event(s),
    }
}

fn step_blob_sas(s: SetupState, e: &SetupEvent) -> (r: (SetupState, SetupAction))
    requires
        s.step == SetupStep::BlobSasUrl,
    ensures
        result_is(r, transition(s@, *e)),
{
    let a = match take_answer(e) {
        Some(a) => a,
        None => return unexpected_event(s),
    };
    match secret_from_answer(&a, &s.existing_secret) {
        RequiredAnswer::Value(v) => {
            let name = match &s.secret_env {
                Some(n) => n.clone(),
                None => "NOW_AZURE_BLOB_SAS_URL".to_owned(),
            };
            let mut c = put_string(s.config, "azure_blob.sas_url_env", name);
            crate::json::remove_key(&mut c, "azure_blob.sas_url");
            let next = get_string(&c, "azure_blob.prefix");
            let prompt = optional_prompt_text("Azure Storage Blob folder prefix", opt_ref(&next));
            (
                SetupState { step: SetupStep::BlobPrefix, config: c, secret: Some(v), ..s },
                action(no_lines(), ActionKind::Ask(prompt)),
            )
        },
        RequiredAnswer::Missing => (
            SetupState { step: SetupStep::Done, ..s },
            action(
                no_lines(),
                ActionKind::Fail(
                    SetupError::MissingAnswer("Azure Storage Blob container SAS URL".to_owned()),
                ),
            ),
        ),
        RequiredAnswer::Again => {
            let line = concat("Azure Storage Blob container SAS URL", " is required.");
            let prompt = required_prompt_text("Azure Storage Blob container SAS URL", None);
            (s, action(one_line(line), ActionKind::Ask(prompt)))
        },
    }
}

fn step_swa_app(s: SetupState, e: &SetupEvent) -> (r: (SetupState, SetupAction))
    requires
        s.step == SetupStep::SwaAppName,
    ensures
        result_is(r, transition(s@, *e)),
{
    let a = match take_answer(e) {
        Some(a) => a,
        None => return unexpected_event(s),
    };
    let current = get_string(&s.config, "azure_swa.app_name");
    let v = optional_answer(opt_ref(&a), opt_ref(&current));
    let c = put_optional(s.config, "azure_swa.app_name", v);
    let prompt = fallback_prompt(
        &c,
        "Azure Static Web App environment",
        "azure_swa.environment",
        "production",
    );
    (
        SetupState { step: SetupStep::SwaEnvironment, config: c, ..s },
        action(no_lines(), ActionKind::Ask(prompt)),
    )
}

fn step_swa_environment(s: SetupState, e: &SetupEvent) -> (r: (SetupState, SetupAction))
    requires
        s.step == SetupStep::SwaEnvironment,
    ensures
        result_is(r, transition(s@, *e)),
{
    let a = match take_answer(e) {
        Some(a) => a,
        None => return unexpected_event(s),
    };
    let current = get_string(&s.config, "azure_swa.environment");
    let env = fallback_answer(&a, current, "production");
    let c = put_string(s.config, "azure_swa.environment", env);
    let prompt = fallback_prompt(
        &c,
        "Azure Static Web App token environment variable",
        "azure_swa.deployment_token_env",
        "SWA_CLI_DEPLOYMENT_TOKEN",
    );
    (
        SetupState { step: SetupStep::SwaTokenEnv, config: c, ..s },
        action(no_lines(), ActionKind::Ask(prompt)),
    )
}

fn step_swa_token_env(s: SetupState, e: &SetupEvent) -> (r: (SetupState, SetupAction))
    requires
        s.step == SetupStep::SwaTokenEnv,
    ensures
        result_is(r, transition(s@, *e)),
{
    let a = match take_answer(e) {
        Some(a) => a,
        None => return unexpected_event(s),
    };
    let current = get_string(&s.config, "azure_swa.deployment_token_env");
    let name = fallback_answer(&a, current, "SWA_CLI_DEPLOYMENT_TOKEN");
    let c = put_string(s.config.clone_value(), "azure_swa.deployment_token_env", name.clone());
    choose_secret_env(s, name, c, SetupStep::SwaSecretLookup)
}

fn step_swa_lookup(s: SetupState, e: SetupEvent) -> (r: (SetupState, SetupAction))
    requires
        s.step == SetupStep::SwaSecretLookup,
    ensures
        result_is(r, transition(s@, e)),
{
    match e {
        SetupEvent::SecretFound(found) => {
            let prompt = match &found {
                Some(_) => concat("Azure Static Web App deployment token", " [configured]: "),
                None => required_prompt_text("Azure Static Web App deployment token", None),
            };
            (
                SetupState { step: SetupStep::SwaToken, existing_secret: found, ..s },
                action(no_lines(), ActionKind::Ask(prompt)),
            )
        },
        _ => unexpected_event(s),
    }
}

fn step_swa_token(s: SetupState, e: &SetupEvent) -> (r: (SetupState, SetupAction))
    requires
        s.step == SetupStep::SwaToken,
    ensures
        result_is(r, transition(s@, *e)),
{
    let a = match take_answer(e) {
        Some(a) => a,
        None => return unexpected_event(s),
    };
    match secret_from_answer(&a, &s.existing_secret) {
        RequiredAnswer::Value(v) => (
            SetupState { step: SetupStep::Done, secret: Some(v), ..s },
            action(no_lines(), ActionKind::Finish),
        ),
        RequiredAnswer::Missing => (
            SetupState { step: SetupStep::Done, ..s },
            action(
                no_lines(),
                ActionKind::Fail(
                    SetupError::MissingAnswer("Azure Static Web App deployment token".to_owned()),
                ),
            ),
        ),
        RequiredAnswer::Again => {
            let line = concat("Azure Static Web App deployment token", " is required.");
            let prompt = required_prompt_text("Azure Static Web App deployment token", None);
            (s, action(one_line(line), ActionKind::Ask(prompt)))
        },
    }
}

fn step_ftp_host(s: SetupState, e: &SetupEvent) -> (r: (SetupState, SetupAction))
    requires
        s.step == SetupStep::FtpHost,
    ensures
        result_is(r, transition(s@, *e)),
{
    let a = match take_answer(e) {
        Some(a) => a,
        None => return unexpected_event(s),
    };
    let current = get_string(&s.config, "ftp.host");
    match required_answer(opt_ref(&a), opt_ref(&current)) {
        RequiredAnswer::Value(h) => {
            let c = put_string(s.config, "ftp.host", h);
            let prompt = fallback_prompt(&c, "FTP remote directory", "ftp.remote_dir", "/");
            (
                SetupState { step: SetupStep::FtpRemoteDir, config: c, ..s },
                action(no_lines(), ActionKind::Ask(prompt)),
            )
        },
        RequiredAnswer::Missing => (
            SetupState { step: SetupStep::Done, ..s },
            action(no_lines(), ActionKind::Fail(SetupError::MissingAnswer("FTP host".to_owned()))),
        ),
        RequiredAnswer::Again => {
            let prompt = required_prompt_text("FTP host", opt_ref(&current));
            (s, action(one_line("FTP host is required.".to_owned()), ActionKind::Ask(prompt)))
        },
    }
}

/// A question about a string setting with a fallback, written at `key`;
/// then `next` asks `next_label` about `next_key`, whose fallback is
/// `next_fallback`.
fn fallback_then_ask(
    s: SetupState,
    a: &Option<String>,
    key: &str,
    fallback: &str,
    next: SetupStep,
    next_label: &str,
    next_key: &str,
    next_fallback: &str,
) -> (r: (SetupState, SetupAction))
    ensures
        ({
            let c = with_string(
                s@.config,
                key@,
                with_fallback(opt_view(*a), get_string_spec(s@.config, key@), fallback@),
            );
            result_is(
                r,
                ask(
                    SetupView { step: next, config: c, ..s@ },
                    Seq::<Seq<char>>::empty(),
                    optional_prompt(
                        next_label@,
                        Some(or_else(get_string_spec(c, next_key@), next_fallback@)),
                    ),
                ),
            )
        }),
{
    let current = get_string(&s.config, key);
    let v = fallback_answer(a, current, fallback);
    let c = put_string(s.config, key, v);
    let prompt = fallback_prompt(&c, next_label, next_key, next_fallback);
    (SetupState { step: next, config: c, ..s }, action(no_lines(), ActionKind::Ask(prompt)))
}

fn step_ftp_password(s: SetupState, e: &SetupEvent) -> (r: (SetupState, SetupAction))
    requires
        s.step == SetupStep::FtpPasswordEnv,
    ensures
        result_is(r, transition(s@, *e)),
{
    let a = match take_answer(e) {
        Some(a) => a,
        None => return unexpected_event(s),
    };
    let current = get_string(&s.config, "ftp.password_env");
    let v = fallback_answer(&a, current, "NOW_FTP_PASSWORD");
    let c = put_string(s.config, "ftp.password_env", v);
    (SetupState { step: SetupStep::Done, config: c, ..s }, action(no_lines(), ActionKind::Finish))
}

/// One step of the dialogue: the state after `event` and what to do next.
pub fn setup_next(state: SetupState, event: SetupEvent) -> (r: (SetupState, SetupAction))
    ensures
        result_is(r, transition(state@, event)),
{
    match state.step {
        SetupStep::ConfirmOverwrite => step_confirm(state, &event),
        SetupStep::Load => step_load(state, event),
        SetupStep::Provider => step_provider(state, &event),
        SetupStep::BaseUrl => step_base_url(state, &event),
        SetupStep::DefaultUrl => step_default_url(state, &event),
        SetupStep::FirebaseProject => {
            let a = match take_answer(&event) {
                Some(a) => a,
                None => return unexpected_event(state),
            };
            optional_then_ask(
                state,
                &a,
                "firebase.project",
                SetupStep::FirebaseSite,
                "Firebase hosting site",
                "firebase.site",
            )
        },
        SetupStep::FirebaseSite => {
            let a = match take_answer(&event) {
                Some(a) => a,
                None => return unexpected_event(state),
            };
            optional_then_finish(state, &a, "firebase.site")
        },
        SetupStep::BlobEnvName => step_blob_env(state, &event),
        SetupStep::BlobSecretLookup => step_blob_lookup(state, event),
        SetupStep::BlobSasUrl => step_blob_sas(state, &event),
        SetupStep::BlobPrefix => {
            let a = match take_answer(&event) {
                Some(a) => a,
                None => return unexpected_event(state),
            };
            optional_then_finish(state, &a, "azure_blob.prefix")
        },
        SetupStep::SwaAppName => step_swa_app(state, &event),
        SetupStep::SwaEnvironment => step_swa_environment(state, &event),
        SetupStep::SwaTokenEnv => step_swa_token_env(state, &event),
        SetupStep::SwaSecretLookup => step_swa_lookup(state, event),
        SetupStep::SwaToken => step_swa_token(state, &event),
        SetupStep::FtpHost => step_ftp_host(state, &event),
        SetupStep::FtpRemoteDir => {
            let a = match take_answer(&event) {
                Some(a) => a,
                None => return unexpected_event(state),
            };
            fallback_then_ask(
                state,
                &a,
                "ftp.remote_dir",
                "/",
                SetupStep::FtpUsernameEnv,
                "FTP username environment variable",
                "ftp.username_env",
                "NOW_FTP_USERNAME",
            )
        },
        SetupStep::FtpUsernameEnv => {
            let a = match take_answer(&event) {
                Some(a) => a,
                None => return unexpected_event(state),
            };
            fallback_then_ask(
                state,
                &a,
                "ftp.username_env",
                "NOW_FTP_USERNAME",
                SetupStep::FtpPasswordEnv,
                "FTP password environment variable",
                "ftp.password_env",
                "NOW_FTP_PASSWORD",
            )
        },
        SetupStep::FtpPasswordEnv => step_ftp_password(state, &event),
        SetupStep::Done => unexpected_event(state),
    }
}


// ---------------------------------------------------------------------
// After the dialogue.
// ---------------------------------------------------------------------
impl SetupState {
    /// The secret to write to `.env` and its variable, once chosen.
    pub fn env_secret(&self) -> (r: Option<(String, String)>)
        ensures
            match r {
                Some(p) => self.secret_env matches Some(n) && self.secret matches Some(v) && p.0@
                    == n@ && p.1@ == v@,
                None => self.secret_env is None || self.secret is None,
            },
    {
        match (&self.secret_env, &self.secret) {
            (Some(n), Some(v)) => Some((n.clone(), v.clone())),
            _ => None,
        }
    }
}

/// The lines printed once the files are written: the `.env` file when a
/// secret went there, then the configuration file, then how setup ends.
pub open spec fn closing_lines(
    kind: SetupKind,
    config_path: Seq<char>,
    config_existed: bool,
    env_file: Option<(Seq<char>, bool)>,
) -> Seq<Seq<char>> {
    let env_line = match env_file {
        Some((p, existed)) => seq![(if existed {
            "Updated "@
        } else {
            "Created "@
        }) + p],
        None => Seq::<Seq<char>>::empty(),
    };
    let config_line = (if config_existed {
        "Updated "@
    } else {
        "Created "@
    }) + config_path;
    let end = match kind {
        SetupKind::FirstRun => "Continuing with deployment."@,
        SetupKind::Init => "Configuration complete. No deployment was started."@,
    };
    env_line + seq![Seq::<char>::empty(), config_line, end]
}

/// The lines printed once the files are written; `env_path` and
/// `env_existed` tell where the secret went and whether that file was
/// there before.
pub fn setup_closing_lines(
    kind: SetupKind,
    config_path: &str,
    config_existed: bool,
    env_path: Option<&str>,
    env_existed: bool,
) -> (r: Vec<String>)
    ensures
        views(r@) == closing_lines(
            kind,
            config_path@,
            config_existed,
            match env_path {
                Some(p) => Some((p@, env_existed)),
                None => None,
            },
        ),
{
    let mut out: Vec<String> = Vec::new();
    if let Some(p) = env_path {
        let head = if env_existed {
            "Updated "
        } else {
            "Created "
        };
        out.push(concat(head, p));
    }
    out.push(String::new());
    let head = if config_existed {
        "Updated "
    } else {
        "Created "
    };
    out.push(concat(head, config_path));
    match kind {
        SetupKind::FirstRun => out.push("Continuing with deployment.".to_owned()),
        SetupKind::Init => out.push(
            "Configuration complete. No deployment was started.".to_owned(),
        ),
    }
    assert(views(out@) =~= closing_lines(
        kind,
        config_path@,
        config_existed,
        match env_path {
            Some(p) => Some((p@, env_existed)),
            None => None,
        },
    ));
    out
}

/// The message of a setup error.
pub open spec fn setup_error_text(e: SetupError) -> Seq<char> {
    match e {
        SetupError::MissingAnswer(label) => label@ + " is required"@,
        SetupError::InvalidEnvName(name, err) => crate::env_file::env_error_text(err, name@),
        SetupError::UnexpectedEvent => "setup received an answer it did not ask for"@,
    }
}

impl SetupError {
    /// The message shown to the user.
    pub fn message(&self) -> (r: String)
        ensures
            r@ == setup_error_text(*self),
    {
        match self {
            SetupError::MissingAnswer(label) => concat(label.as_str(), " is required"),
            SetupError::InvalidEnvName(name, err) => err.message(name.as_str()),
            SetupError::UnexpectedEvent => "setup received an answer it did not ask for".to_owned(),
        }
    }
}


// ---------------------------------------------------------------------
// What setup keeps out of the configuration.
// ---------------------------------------------------------------------
proof fn lemma_blob_key_paths()
    ensures
        key_path("azure_blob.sas_url"@) == seq!["azure_blob"@, "sas_url"@],
        key_path("azure_blob.prefix"@) == seq!["azure_blob"@, "prefix"@],
        "sas_url"@ != "prefix"@,
{
    reveal_strlit("azure_blob.sas_url");
    reveal_strlit("azure_blob.prefix");
    reveal_strlit("azure_blob");
    reveal_strlit("sas_url");
    reveal_strlit("prefix");
    assert("azure_blob.sas_url"@ =~= "azure_blob"@ + seq!['.'] + "sas_url"@);
    assert("azure_blob.prefix"@ =~= "azure_blob"@ + seq!['.'] + "prefix"@);
    crate::text::lemma_split_on_two("azure_blob"@, "sas_url"@, '.');
    crate::text::lemma_split_on_two("azure_blob"@, "prefix"@, '.');
    assert("sas_url"@.len() != "prefix"@.len());
}

/// Setup for Azure Storage Blob keeps the SAS URL out of the
/// configuration: once the URL is answered the configuration holds none
/// and the URL is kept as the secret for `.env`; the last question, the
/// folder prefix, adds none.
pub proof fn lemma_blob_setup_keeps_sas_url_out(s: SetupView, answer: SetupEvent, prefix: SetupEvent)
    requires
        s.step == SetupStep::BlobSasUrl,
        transition(s, answer).state.step == SetupStep::BlobPrefix,
    ensures
        get_path(transition(s, answer).state.config, key_path("azure_blob.sas_url"@)) is None,
        transition(s, answer).state.secret is Some,
        get_path(
            transition(transition(s, answer).state, prefix).state.config,
            key_path("azure_blob.sas_url"@),
        ) is None,
{
    lemma_blob_key_paths();
    let t = transition(s, answer).state;
    let with_env = with_string(s.config, "azure_blob.sas_url_env"@, or_else(s.secret_env, default_sas_env()));
    crate::json::lemma_get_after_remove(with_env, key_path("azure_blob.sas_url"@));
    let a = answer_of(prefix);
    if a is Some {
        let v = optional_value(a->0, get_string_spec(t.config, "azure_blob.prefix"@));
        if v is Some {
            let p = key_path("azure_blob.prefix"@);
            let q = key_path("azure_blob.sas_url"@);
            assert(p.take(1) =~= q.take(1));
            crate::config::lemma_set_keeps_other_paths(t.config, p, q, JsonView::Str(v->0), 1);
        }
    }
}

/// Setup for Azure Static Web Apps keeps the deployment token out of the
/// configuration: the answer to the token's question leaves the
/// configuration as it was and keeps the token as the secret for `.env`.
pub proof fn lemma_swa_setup_keeps_token_out(s: SetupView, answer: SetupEvent)
    requires
        s.step == SetupStep::SwaToken,
        transition(s, answer).kind == KindView::Finish,
    ensures
        transition(s, answer).state.config == s.config,
        transition(s, answer).state.secret is Some,
{
}

} // verus!
