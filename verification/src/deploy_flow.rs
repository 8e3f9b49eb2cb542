//! A deployment from start to end, as a state machine: it asks the caller
//! to read files, look at directories, ask the user, upload or run the
//! provider's tool, and decides from what comes back.
use crate::azure_blob::{display_upload_command, sas_env_name};
use crate::config::{
    config_from, config_valid, merged_config_spec, merged_config_value, opt_str_view, opt_view,
    parse_config, provider_display_name, secret_paths_in, NowConfig, ProviderKind,
};
use crate::deploy::{
    answer_is_yes, apply_overrides, choose_default_url, config_source_for_path,
    deploy_summary_lines, needs_local_env, provider_after_setup, provider_cli_missing_message,
    public_directory_selection, publishable_files_choice, resolve_provider, select_source,
    selection_view, source_mode_name, source_probes, source_probes_spec, DeployError,
    DeployRequest, ProviderChoice, PublishableChoice, SourceSelection,
};
use crate::env_file::EnvFile;
use crate::json::{JsonValue, JsonView};
use crate::provider::{build_provider_command, views, ProviderCommand};
use crate::text::push_str;
use vstd::prelude::*;

verus! {

/// Where a deployment stands.
#[derive(Debug, Clone, Copy, PartialEq, Eq, Structural)]
pub enum DeployStep {
    LoadConfig,
    Probe,
    Canonicalize,
    Setup,
    ReloadConfig,
    LoadEnv,
    AnswerPublishable,
    Remember,
    Moving,
    Preparing,
    Inspecting,
    Uploading,
    Checking,
    Collecting,
    Running,
    Done,
}

/// A deployment under way: the request, what is known so far, and the
/// step it is at. The selection is known from the `Probe` step on, the
/// provider once the configuration names one, the prepared directory from
/// `Preparing` on and the command from `Inspecting` on; before that these
/// fields hold placeholders.
#[derive(Debug)]
pub struct DeployFlow {
    pub request: DeployRequest,
    pub terminal: bool,
    pub step: DeployStep,
    pub config: NowConfig,
    pub selection: SourceSelection,
    pub provider: ProviderKind,
    pub local_env: Option<EnvFile>,
    pub move_choice: bool,
    pub prepared: String,
    pub sas_value: Option<String>,
    pub default_url: Option<String>,
    pub command_line: String,
    pub command: ProviderCommand,
}

/// What the caller hands back.
#[derive(Debug)]
pub enum DeployEvent {
    /// The global and the project's configuration files, as read.
    Configs(JsonValue, JsonValue),
    /// The paths asked about that are directories.
    Directories(Vec<String>),
    /// The canonical forms of the project root and of the source.
    Canonical(String, String),
    /// A line of input; `None` at the end of the input.
    Answer(Option<String>),
    /// The project's `.env` file, when it was asked for.
    EnvRead(Option<EnvFile>),
    /// The action asked for is done.
    Completed,
    /// Where the published files were prepared.
    Prepared(String),
    /// The names of the files at the top of the prepared directory, and
    /// what the process environment holds for the SAS URL's variable.
    Inspected(Vec<String>, Option<String>),
    /// The upload is done.
    Uploaded(crate::azure_blob::AzureBlobUploadSummary),
    /// Whether the provider's tool is installed.
    ProgramFound(bool),
    /// The values of the variables asked for, in order.
    EnvValues(Vec<Option<String>>),
}

/// What the caller does next.
#[derive(Debug)]
pub enum DeployActionKind {
    /// Read the global and the project's configuration files.
    ReadConfig,
    /// Find out which of these paths are directories.
    ProbeDirectories(Vec<String>),
    /// Resolve both paths to their canonical forms.
    Canonicalize(String, String),
    /// Run first-time setup; the source to save, if any.
    RunSetup(Option<String>),
    /// Read the project's `.env` file, if `true`.
    ReadLocalEnv(bool),
    /// Ask this question and read a line.
    AskPublishable(String),
    /// Remember the answer in the project's configuration.
    RememberChoice(bool),
    /// Move the project's publishable files into `public/`.
    MoveToPublic,
    /// Prepare the published files: the source, and whether to leave out
    /// the runtime files.
    Prepare(String, bool),
    /// List the files at the top of this directory and read this
    /// environment variable.
    Inspect(String, String),
    /// Upload the prepared files to Azure Storage Blob.
    Upload,
    /// Find out whether this tool is installed.
    CheckProgram(String),
    /// Read these environment variables (the process's, else `.env`).
    ReadEnv(Vec<String>),
    /// Run the provider's command with these variables set.
    Run(Vec<(String, String)>),
    /// The deployment is done: the summary lines.
    Finish(Vec<String>),
    /// The deployment failed: the message.
    Fail(String),
}

/// Lines to log when verbose, then what to do.
#[derive(Debug)]
pub struct DeployAction {
    pub log: Vec<String>,
    pub kind: DeployActionKind,
}

// ---------------------------------------------------------------------
// The specification.
// ---------------------------------------------------------------------
/// Log lines, shown only when verbose.
pub open spec fn logged(verbose: bool, lines: Seq<Seq<char>>) -> Seq<Seq<char>> {
    if verbose {
        lines
    } else {
        Seq::<Seq<char>>::empty()
    }
}

/// The message for a configuration that cannot be read as settings.
pub open spec fn parse_failure(m: JsonView) -> Seq<char> {
    if secret_paths_in(Seq::<char>::empty(), m).len() > 0 {
        "configuration contains secret-like keys; use provider login state or environment variables instead: "@
            + crate::text::join(secret_paths_in(Seq::<char>::empty(), m), ", "@)
    } else {
        "failed to deserialize config"@
    }
}

/// The path a deployment publishes, as asked: the positional path, else
/// `--source`.
pub open spec fn asked_path(r: DeployRequest) -> Option<Seq<char>> {
    match r.path {
        Some(p) => Some(p@),
        None => opt_view(r.source),
    }
}

/// Whether the path was given explicitly.
pub open spec fn asked_explicitly(r: DeployRequest) -> bool {
    r.path_was_explicit || r.source is Some
}

/// The configuration a deployment reads: the files merged, with the
/// command line's provider over them, read as settings.
pub open spec fn config_read(c: NowConfig, g: JsonView, l: JsonView, r: DeployRequest) -> bool {
    let m = merged_config_spec(g, l, r.provider);
    &&& secret_paths_in(Seq::<char>::empty(), m).len() == 0
    &&& config_valid(m)
    &&& config_from(c, m)
}

/// Whether the configuration files read cannot be used.
pub open spec fn config_unreadable(g: JsonView, l: JsonView, r: DeployRequest) -> bool {
    let m = merged_config_spec(g, l, r.provider);
    secret_paths_in(Seq::<char>::empty(), m).len() > 0 || !config_valid(m)
}

pub open spec fn action_views(a: DeployAction) -> Seq<Seq<char>> {
    views(a.log@)
}

/// Whether an action fails with a message.
pub open spec fn fails_with(a: DeployAction, message: Seq<char>) -> bool {
    a.kind matches DeployActionKind::Fail(m) && m@ == message
}


// ---------------------------------------------------------------------
// Starting, and reading the configuration.
// ---------------------------------------------------------------------
fn line(a: &str, b: &str) -> (r: String)
    ensures
        r@ == a@ + b@,
{
    let mut s = a.to_owned();
    push_str(&mut s, b);
    s
}

fn log_if(verbose: bool, lines: Vec<String>) -> (r: Vec<String>)
    ensures
        views(r@) == logged(verbose, views(lines@)),
{
    if verbose {
        lines
    } else {
        let v: Vec<String> = Vec::new();
        assert(views(v@) =~= Seq::<Seq<char>>::empty());
        v
    }
}

fn act(log: Vec<String>, kind: DeployActionKind) -> (r: DeployAction)
    ensures
        r.log == log,
        r.kind == kind,
{
    DeployAction { log, kind }
}

fn no_log() -> (r: Vec<String>)
    ensures
        views(r@) == Seq::<Seq<char>>::empty(),
{
    let v: Vec<String> = Vec::new();
    assert(views(v@) =~= Seq::<Seq<char>>::empty());
    v
}

/// The lines logged when a deployment starts.
pub open spec fn start_log(r: DeployRequest, global_path: Seq<char>) -> Seq<Seq<char>> {
    logged(
        r.verbose,
        seq![
            "Project root: "@ + r.cwd@,
            "Local config: "@ + crate::paths::join_path(r.cwd@, ".now.json"@),
            "Global config: "@ + global_path,
        ],
    )
}

/// A deployment's first state and action: it reads the configuration
/// files. `terminal` tells whether the input is a terminal; `global_path`
/// is where the global settings live.
pub fn run_deploy(request: DeployRequest, terminal: bool, global_path: &str) -> (r: (
    DeployFlow,
    DeployAction,
))
    ensures
        r.0.request == request,
        r.0.terminal == terminal,
        r.0.step == DeployStep::LoadConfig,
        crate::config::config_is_empty(r.0.config),
        r.0.local_env is None,
        views(r.1.log@) == start_log(request, global_path@),
        r.1.kind is ReadConfig,
{
    let lines = vec![
        line("Project root: ", request.cwd.as_str()),
        line("Local config: ", crate::config::local_config_path(request.cwd.as_str()).as_str()),
        line("Global config: ", global_path),
    ];
    let log = log_if(request.verbose, lines);
    proof {
        assert(views(log@) =~= start_log(request, global_path@));
    }
    let selection = public_directory_selection(request.cwd.as_str());
    let flow = DeployFlow {
        request,
        terminal,
        step: DeployStep::LoadConfig,
        config: NowConfig::default(),
        selection,
        provider: ProviderKind::Firebase,
        local_env: None,
        move_choice: false,
        prepared: String::new(),
        sas_value: None,
        default_url: None,
        command_line: String::new(),
        command: ProviderCommand::new(ProviderKind::Firebase, String::new(), Vec::new(), String::new()),
    };
    (flow, act(log, DeployActionKind::ReadConfig))
}

fn unexpected(f: DeployFlow) -> (r: (DeployFlow, DeployAction))
    ensures
        r.0 == (DeployFlow { step: DeployStep::Done, ..f }),
        views(r.1.log@) == Seq::<Seq<char>>::empty(),
        fails_with(r.1, "deployment received an event it did not ask for"@),
{
    (
        DeployFlow { step: DeployStep::Done, ..f },
        act(no_log(), DeployActionKind::Fail("deployment received an event it did not ask for".to_owned())),
    )
}

/// The settings read from the configuration files, or the message why
/// they cannot be read.
fn read_settings(global: JsonValue, local: JsonValue, provider: Option<ProviderKind>) -> (r: Result<
    NowConfig,
    String,
>)
    ensures
        match r {
            Ok(c) => {
                let m = merged_config_spec(global@, local@, provider);
                secret_paths_in(Seq::<char>::empty(), m).len() == 0 && config_valid(m)
                    && config_from(c, m)
            },
            Err(msg) => {
                let m = merged_config_spec(global@, local@, provider);
                (secret_paths_in(Seq::<char>::empty(), m).len() > 0 || !config_valid(m))
                    && msg@ == parse_failure(m)
            },
        },
{
    let merged = merged_config_value(global, local, provider);
    match parse_config(merged) {
        Ok(c) => Ok(c),
        Err(e) => Err(e.message()),
    }
}


// ---------------------------------------------------------------------
// The transitions.
// ---------------------------------------------------------------------
/// The configuration once the command line's `--prefix` and
/// `--remote_dir` are written over `base`.
pub open spec fn overrides_applied(base: NowConfig, c: NowConfig, r: DeployRequest) -> bool {
    &&& opt_view(c.azure_blob.prefix) == (match r.prefix {
        Some(p) => Some(p@),
        None => opt_view(base.azure_blob.prefix),
    })
    &&& opt_view(c.ftp.remote_dir) == (match r.remote_dir {
        Some(d) => Some(d@),
        None => opt_view(base.ftp.remote_dir),
    })
    &&& c.provider == base.provider && c.source == base.source && c.base_url == base.base_url
    &&& c.default_url == base.default_url
    &&& c.move_publishable_files_to_public == base.move_publishable_files_to_public
    &&& c.firebase == base.firebase && c.azure_swa == base.azure_swa
    &&& c.azure_blob.account == base.azure_blob.account
    &&& c.azure_blob.container == base.azure_blob.container
    &&& c.azure_blob.destination_path == base.azure_blob.destination_path
    &&& c.azure_blob.overwrite == base.azure_blob.overwrite
    &&& c.azure_blob.base_url == base.azure_blob.base_url
    &&& c.azure_blob.sas_url == base.azure_blob.sas_url
    &&& c.azure_blob.sas_url_env == base.azure_blob.sas_url_env
    &&& c.ftp.host == base.ftp.host && c.ftp.username_env == base.ftp.username_env
    &&& c.ftp.password_env == base.ftp.password_env && c.ftp.base_url == base.ftp.base_url
}

/// Once the provider is known: the overrides are applied, the provider is
/// logged, and the project's `.env` is asked for when the provider reads
/// secrets from it.
pub open spec fn provider_chosen(
    f: DeployFlow,
    base: NowConfig,
    sel: SourceSelection,
    p: ProviderKind,
    r: (DeployFlow, DeployAction),
) -> bool {
    &&& r.0.step == DeployStep::LoadEnv
    &&& r.0.provider == p
    &&& r.0.selection == sel
    &&& r.0.request == f.request && r.0.terminal == f.terminal
    &&& overrides_applied(base, r.0.config, f.request)
    &&& views(r.1.log@) == logged(f.request.verbose, seq!["Provider: "@ + provider_display_name(p)])
    &&& r.1.kind == DeployActionKind::ReadLocalEnv(
        p == ProviderKind::AzureBlob || p == ProviderKind::AzureSwa,
    )
}

/// Whether to move a bare project's files into `public/`.
pub open spec fn publishable_spec(
    mode: crate::deploy::SourceMode,
    dry_run: bool,
    remembered: Option<bool>,
    json: bool,
    terminal: bool,
) -> PublishableChoice {
    if mode == crate::deploy::SourceMode::CurrentDirectoryWithExcludes && !dry_run {
        match remembered {
            Some(true) => PublishableChoice::Move,
            Some(false) => PublishableChoice::Keep,
            None => if !json && terminal {
                PublishableChoice::Ask
            } else {
                PublishableChoice::Keep
            },
        }
    } else {
        PublishableChoice::Keep
    }
}

/// The log line that shows the selection.
pub open spec fn selection_line(sel: SourceSelection) -> Seq<char> {
    "Source selection: mode="@ + crate::deploy::mode_name(sel.mode) + ", path="@ + sel.source@
        + ", excludes="@ + (if sel.excludes_enabled {
        "true"@
    } else {
        "false"@
    })
}

/// The action that prepares the published files of a selection.
pub open spec fn prepares(a: DeployAction, sel: SourceSelection) -> bool {
    a.kind matches DeployActionKind::Prepare(src, ex) && src@ == sel.source@ && ex
        == sel.excludes_enabled
}

/// The `.env` file known to a deployment, as an argument.
pub open spec fn env_of(f: &DeployFlow) -> Option<&EnvFile> {
    match &f.local_env {
        Some(e) => Some(e),
        None => None,
    }
}

/// The summary a deployment ends with.
pub open spec fn summary_of(f: DeployFlow, dry_run: bool) -> Seq<Seq<char>> {
    crate::deploy::summary_spec(
        f.selection.mode,
        f.selection.excludes_enabled,
        f.prepared@,
        f.provider,
        f.command_line@,
        opt_view(f.default_url),
        dry_run,
    )
}

/// The provider's command as a deployment runs it; verbose Firebase
/// deployments ask the tool for debug logs.
pub open spec fn expected_command(cmd: ProviderCommand, p: ProviderKind, c: NowConfig, source: Seq<char>, verbose: bool) -> bool {
    let debug = if verbose {
        seq!["--debug"@]
    } else {
        Seq::<Seq<char>>::empty()
    };
    match p {
        ProviderKind::Firebase => crate::provider::command_matches(
            cmd,
            p,
            "firebase"@,
            debug + crate::provider::firebase_args(c),
            "firebase"@,
            seq![],
            seq![],
            seq!["firebase"@] + debug + crate::provider::firebase_args(c),
        ),
        ProviderKind::AzureSwa => crate::provider::command_matches(
            cmd,
            p,
            "swa"@,
            crate::provider::swa_args(c, source),
            "swa"@,
            seq![crate::provider::swa_token_env(c)],
            seq![("SWA_CLI_DEPLOYMENT_TOKEN"@, crate::provider::swa_token_env(c))],
            seq!["swa"@] + crate::provider::swa_args(c, source),
        ),
        ProviderKind::Ftp => match crate::provider::non_empty_spec(opt_view(c.ftp.host)) {
            Some(host) => crate::provider::command_matches(
                cmd,
                p,
                "sh"@,
                seq!["-c"@, crate::provider::ftp_script(c, host, source)],
                "lftp"@,
                seq![crate::provider::ftp_username_env(c), crate::provider::ftp_password_env(c)],
                seq![],
                seq!["lftp"@, "-e"@, crate::provider::ftp_mirror(c, source), host],
            ),
            None => false,
        },
        ProviderKind::AzureBlob => false,
    }
}

/// The log lines that show the provider's command.
pub open spec fn command_log(cmd: ProviderCommand, verbose: bool) -> Seq<Seq<char>> {
    let mappings = pair_texts(crate::provider::pair_views(cmd.env_mappings@));
    logged(
        verbose,
        seq![
            "External command: "@ + crate::provider::shell_joined(seq![cmd.program@] + views(cmd.args@)),
            "Required environment variables: "@ + crate::text::join(views(cmd.required_env@), ", "@),
        ] + if mappings.len() > 0 {
            seq!["Environment mappings: "@ + crate::text::join(mappings, ", "@)]
        } else {
            Seq::<Seq<char>>::empty()
        },
    )
}

/// `target <- source` for each variable passed on.
pub open spec fn pair_texts(m: Seq<(Seq<char>, Seq<char>)>) -> Seq<Seq<char>> {
    m.map_values(|x: (Seq<char>, Seq<char>)| x.0 + " <- "@ + x.1)
}

/// The variables a command needs, then those it passes on.
pub open spec fn env_names(cmd: ProviderCommand) -> Seq<Seq<char>> {
    views(cmd.required_env@) + crate::provider::pair_views(cmd.env_mappings@).map_values(
        |x: (Seq<char>, Seq<char>)| x.1,
    )
}

/// Whether `r` ends the deployment with a failure and this message.
pub open spec fn failed(f: DeployFlow, r: (DeployFlow, DeployAction), message: Seq<char>) -> bool {
    &&& r.0.step == DeployStep::Done
    &&& views(r.1.log@) == Seq::<Seq<char>>::empty()
    &&& fails_with(r.1, message)
}

/// Whether `r` ends the deployment with these summary lines.
pub open spec fn finished(r: (DeployFlow, DeployAction), lines: Seq<Seq<char>>) -> bool {
    &&& r.0.step == DeployStep::Done
    &&& r.1.kind matches DeployActionKind::Finish(l) && views(l@) == lines
}

pub open spec fn unexpected_event(f: DeployFlow, r: (DeployFlow, DeployAction)) -> bool {
    failed(f, r, "deployment received an event it did not ask for"@)
}


/// The deployment's transitions: how the state and the next action follow
/// from a state and an event.
pub open spec fn deploy_next_ok(f: DeployFlow, e: DeployEvent, r: (DeployFlow, DeployAction)) -> bool {
    let req = f.request;
    match f.step {
        DeployStep::LoadConfig => match e {
            DeployEvent::Configs(g, l) => if config_unreadable(g@, l@, req) {
                failed(f, r, parse_failure(merged_config_spec(g@, l@, req.provider)))
            } else {
                &&& config_read(r.0.config, g@, l@, req)
                &&& r.0.step == DeployStep::Probe
                &&& r.0.request == req && r.0.terminal == f.terminal
                &&& views(r.1.log@) == Seq::<Seq<char>>::empty()
                &&& r.1.kind matches DeployActionKind::ProbeDirectories(ps) && views(ps@)
                    == source_probes_spec(
                    req.cwd@,
                    asked_path(req),
                    asked_explicitly(req),
                    opt_view(r.0.config.source),
                )
            },
            _ => unexpected_event(f, r),
        },
        DeployStep::Probe => match e {
            DeployEvent::Directories(dirs) => match crate::deploy::select_source_spec(
                req.cwd@,
                asked_path(req),
                asked_explicitly(req),
                opt_view(f.config.source),
                views(dirs@),
            ) {
                crate::deploy::SelectionOutcome::Selected(v) => {
                    &&& selection_view(r.0.selection) == v
                    &&& r.0.selection.project_root@ == req.cwd@
                    &&& match f.config.provider {
                        Some(p) => provider_chosen(f, f.config, r.0.selection, p, r),
                        None => if req.provider is None && !req.json && f.terminal {
                            &&& r.0.request == req && r.0.terminal == f.terminal
                            &&& r.0.config == f.config
                            &&& views(r.1.log@) == Seq::<Seq<char>>::empty()
                            &&& if req.path_was_explicit {
                                &&& r.0.step == DeployStep::Canonicalize
                                &&& r.1.kind matches DeployActionKind::Canonicalize(a, b) && a@
                                    == req.cwd@ && b@ == v.source
                            } else {
                                &&& r.0.step == DeployStep::Setup
                                &&& r.1.kind matches DeployActionKind::RunSetup(None)
                            }
                        } else {
                            failed(
                                f,
                                r,
                                crate::deploy::deploy_error_text(DeployError::ProviderNotConfigured),
                            )
                        },
                    }
                },
                crate::deploy::SelectionOutcome::MissingExplicitPath => failed(
                    f,
                    r,
                    crate::deploy::deploy_error_text(DeployError::MissingExplicitPath),
                ),
                crate::deploy::SelectionOutcome::NotADirectory(p) => failed(
                    f,
                    r,
                    "source path is not a directory: "@ + p,
                ),
            },
            _ => unexpected_event(f, r),
        },
        DeployStep::Canonicalize => match e {
            DeployEvent::Canonical(root, source) => {
                &&& r.0.step == DeployStep::Setup
                &&& r.0.request == req && r.0.config == f.config && r.0.selection == f.selection
                &&& views(r.1.log@) == Seq::<Seq<char>>::empty()
                &&& r.1.kind matches DeployActionKind::RunSetup(Some(t)) && t@
                    == crate::deploy::config_source_spec(root@, source@)
            },
            _ => unexpected_event(f, r),
        },
        DeployStep::Setup => match e {
            DeployEvent::Completed => {
                &&& r.0.step == DeployStep::ReloadConfig
                &&& r.0.request == req && r.0.selection == f.selection
                &&& views(r.1.log@) == Seq::<Seq<char>>::empty()
                &&& r.1.kind is ReadConfig
            },
            _ => unexpected_event(f, r),
        },
        DeployStep::ReloadConfig => match e {
            DeployEvent::Configs(g, l) => if config_unreadable(g@, l@, req) {
                failed(f, r, parse_failure(merged_config_spec(g@, l@, req.provider)))
            } else {
                exists|c: NowConfig|
                    #![trigger config_read(c, g@, l@, req)]
                    config_read(c, g@, l@, req) && match c.provider {
                        Some(p) => provider_chosen(f, c, f.selection, p, r),
                        None => failed(
                            f,
                            r,
                            crate::deploy::deploy_error_text(DeployError::ProviderMissingAfterSetup),
                        ),
                    }
            },
            _ => unexpected_event(f, r),
        },
        DeployStep::LoadEnv => match e {
            DeployEvent::EnvRead(env) => {
                let sel = f.selection;
                &&& r.0.local_env == env
                &&& r.0.request == req && r.0.config == f.config && r.0.provider == f.provider
                &&& r.0.selection == sel
                &&& views(r.1.log@) == logged(req.verbose, seq![selection_line(sel)])
                &&& match publishable_spec(
                    sel.mode,
                    req.dry_run,
                    f.config.move_publishable_files_to_public,
                    req.json,
                    f.terminal,
                ) {
                    PublishableChoice::Move => r.0.step == DeployStep::Moving && r.1.kind
                        is MoveToPublic,
                    PublishableChoice::Ask => r.0.step == DeployStep::AnswerPublishable
                        && (r.1.kind matches DeployActionKind::AskPublishable(q) && q@
                        == "No dist/, build/, or public/ directory was found. Move publishable files into public/? [y/N] "@),
                    PublishableChoice::Keep => r.0.step == DeployStep::Preparing && prepares(
                        r.1,
                        sel,
                    ),
                }
            },
            _ => unexpected_event(f, r),
        },
        DeployStep::AnswerPublishable => match e {
            DeployEvent::Answer(a) => {
                let choice = match a {
                    Some(x) => crate::deploy::is_yes(x@),
                    None => false,
                };
                &&& r.0.step == DeployStep::Remember
                &&& r.0.move_choice == choice
                &&& r.0.request == req && r.0.config == f.config && r.0.selection == f.selection
                &&& r.0.provider == f.provider && r.0.local_env == f.local_env
                &&& views(r.1.log@) == Seq::<Seq<char>>::empty()
                &&& r.1.kind == DeployActionKind::RememberChoice(choice)
            },
            _ => unexpected_event(f, r),
        },
        DeployStep::Remember => match e {
            DeployEvent::Completed => {
                &&& r.0.request == req && r.0.config == f.config && r.0.selection == f.selection
                &&& r.0.provider == f.provider && r.0.local_env == f.local_env
                &&& views(r.1.log@) == Seq::<Seq<char>>::empty()
                &&& if f.move_choice {
                    r.0.step == DeployStep::Moving && r.1.kind is MoveToPublic
                } else {
                    r.0.step == DeployStep::Preparing && prepares(r.1, f.selection)
                }
            },
            _ => unexpected_event(f, r),
        },
        DeployStep::Moving => match e {
            DeployEvent::Completed => {
                &&& r.0.step == DeployStep::Preparing
                &&& r.0.request == req && r.0.config == f.config
                &&& r.0.provider == f.provider && r.0.local_env == f.local_env
                &&& r.0.selection.mode == crate::deploy::SourceMode::PublicDirectoryCreated
                &&& r.0.selection.source@ == crate::paths::join_path(req.cwd@, "public"@)
                &&& r.0.selection.project_root@ == req.cwd@
                &&& !r.0.selection.excludes_enabled
                &&& views(r.1.log@) == Seq::<Seq<char>>::empty()
                &&& prepares(r.1, r.0.selection)
            },
            _ => unexpected_event(f, r),
        },
        DeployStep::Preparing => match e {
            DeployEvent::Prepared(path) => {
                &&& r.0.step == DeployStep::Inspecting
                &&& r.0.prepared == path
                &&& r.0.request == req && r.0.config == f.config && r.0.selection == f.selection
                &&& r.0.provider == f.provider && r.0.local_env == f.local_env
                &&& views(r.1.log@) == logged(req.verbose, seq!["Prepared source: "@ + path@])
                &&& r.1.kind matches DeployActionKind::Inspect(d, n) && d@ == path@ && n@
                    == crate::azure_blob::sas_env_name_spec(f.config.azure_blob)
            },
            _ => unexpected_event(f, r),
        },
        DeployStep::Inspecting => match e {
            DeployEvent::Inspected(files, sas) => {
                let url = crate::deploy::default_url_spec(
                    f.config,
                    f.provider,
                    opt_view(sas),
                    env_of(&f),
                    views(files@),
                );
                if f.provider == ProviderKind::AzureBlob {
                    match crate::azure_blob::upload_command_report(
                        f.config,
                        opt_view(sas),
                        env_of(&f),
                        f.prepared@,
                    ) {
                        Err(m) => failed(f, r, m),
                        Ok(line) => {
                            &&& opt_view(r.0.default_url) == url
                            &&& r.0.command_line@ == line
                            &&& r.0.request == req && r.0.config == f.config
                            &&& r.0.selection == f.selection && r.0.provider == f.provider
                            &&& r.0.prepared == f.prepared && r.0.local_env == f.local_env
                            &&& r.0.sas_value == sas
                            &&& views(r.1.log@) == logged(
                                req.verbose,
                                seq!["Built-in deployment: "@ + line],
                            )
                            &&& if req.dry_run {
                                finished(r, summary_of(r.0, true))
                            } else {
                                r.0.step == DeployStep::Uploading && r.1.kind is Upload
                            }
                        },
                    }
                } else if f.provider == ProviderKind::Ftp && crate::provider::non_empty_spec(
                    opt_view(f.config.ftp.host),
                ) is None {
                    failed(
                        f,
                        r,
                        crate::provider::provider_error_message(
                            crate::provider::ProviderError::MissingFtpHost,
                        ),
                    )
                } else {
                    &&& opt_view(r.0.default_url) == url
                    &&& expected_command(r.0.command, f.provider, f.config, f.prepared@, req.verbose)
                    &&& r.0.command_line@ == crate::provider::shell_joined(r.0.command.display_words())
                    &&& r.0.request == req && r.0.config == f.config
                    &&& r.0.selection == f.selection && r.0.provider == f.provider
                    &&& r.0.prepared == f.prepared && r.0.local_env == f.local_env
                    &&& views(r.1.log@) == command_log(r.0.command, req.verbose)
                    &&& if req.dry_run {
                        finished(r, summary_of(r.0, true))
                    } else {
                        &&& r.0.step == DeployStep::Checking
                        &&& r.1.kind matches DeployActionKind::CheckProgram(cli) && cli@
                            == r.0.command.required_cli@
                    }
                }
            },
            _ => unexpected_event(f, r),
        },
        DeployStep::Uploading => match e {
            DeployEvent::Uploaded(sum) => finished(
                r,
                summary_of(f, false) + if req.json {
                    Seq::<Seq<char>>::empty()
                } else {
                    seq![
                        "Uploaded: "@ + crate::number::nat_text(sum.files as nat) + " files, "@
                            + crate::number::nat_text(sum.bytes as nat) + " bytes"@,
                    ]
                },
            ) && views(r.1.log@) == Seq::<Seq<char>>::empty(),
            _ => unexpected_event(f, r),
        },
        DeployStep::Checking => match e {
            DeployEvent::ProgramFound(found) => if !found {
                failed(
                    f,
                    r,
                    "Provider CLI not found for "@ + provider_display_name(f.provider) + ": "@
                        + f.command.required_cli@ + "\n"@ + crate::provider::install_hint(
                        f.provider,
                    ),
                )
            } else {
                &&& r.0.step == DeployStep::Collecting
                &&& r.0.request == req && r.0.command == f.command && r.0.selection == f.selection
                &&& r.0.provider == f.provider && r.0.prepared == f.prepared
                &&& r.0.command_line == f.command_line && r.0.default_url == f.default_url
                &&& views(r.1.log@) == Seq::<Seq<char>>::empty()
                &&& r.1.kind matches DeployActionKind::ReadEnv(names) && views(names@) == env_names(
                    f.command,
                )
            },
            _ => unexpected_event(f, r),
        },
        DeployStep::Collecting => match e {
            DeployEvent::EnvValues(values) => {
                let n = f.command.required_env@.len();
                let m = f.command.env_mappings@.len();
                if values@.len() != n + m {
                    unexpected_event(f, r)
                } else if !(forall|i: int| 0 <= i < n ==> crate::provider::has_value(#[trigger] values@[i])) {
                    failed(
                        f,
                        r,
                        "missing required environment variable(s) for "@
                            + provider_display_name(f.command.provider) + ": "@ + crate::text::join(
                            crate::provider::missing_names(views(f.command.required_env@), values@.take(n as int)),
                            ", "@,
                        ),
                    )
                } else if exists|i: int| n <= i < n + m && (#[trigger] values@[i]) is None {
                    &&& r.0.step == DeployStep::Done
                    &&& views(r.1.log@) == Seq::<Seq<char>>::empty()
                    &&& r.1.kind matches DeployActionKind::Fail(msg) && exists|i: int|
                        #![trigger values@[i]]
                        n <= i < n + m && values@[i] is None && msg@
                            == "missing required environment variable: "@ + f.command.env_mappings@[i - n].1@
                            && forall|j: int| n <= j < i ==> values@[j] is Some
                } else {
                    &&& r.0.step == DeployStep::Running
                    &&& r.0.request == req && r.0.command == f.command && r.0.selection == f.selection
                    &&& r.0.provider == f.provider && r.0.prepared == f.prepared
                    &&& r.0.command_line == f.command_line && r.0.default_url == f.default_url
                    &&& views(r.1.log@) == Seq::<Seq<char>>::empty()
                    &&& r.1.kind matches DeployActionKind::Run(pairs) && pairs@.len() == m
                        && forall|i: int|
                        0 <= i < m ==> (#[trigger] pairs@[i]).0@ == f.command.env_mappings@[i].0@
                            && opt_view(values@[n + i]) == Some(pairs@[i].1@)
                }
            },
            _ => unexpected_event(f, r),
        },
        DeployStep::Running => match e {
            DeployEvent::Completed => finished(r, summary_of(f, false)) && views(r.1.log@)
                == Seq::<Seq<char>>::empty(),
            _ => unexpected_event(f, r),
        },
        DeployStep::Done => unexpected_event(f, r),
    }
}


// ---------------------------------------------------------------------
// The steps.
// ---------------------------------------------------------------------
fn fail_with(f: DeployFlow, message: String) -> (r: (DeployFlow, DeployAction))
    ensures
        failed(f, r, message@),
        r.0 == (DeployFlow { step: DeployStep::Done, ..f }),
{
    (DeployFlow { step: DeployStep::Done, ..f }, act(no_log(), DeployActionKind::Fail(message)))
}

fn opt_ref(o: &Option<String>) -> (r: Option<&str>)
    ensures
        opt_str_view(r) == opt_view(*o),
{
    match o {
        Some(s) => Some(s.as_str()),
        None => None,
    }
}

fn clone_opt(o: &Option<String>) -> (r: Option<String>)
    ensures
        opt_view(r) == opt_view(*o),
{
    match o {
        Some(s) => Some(s.clone()),
        None => None,
    }
}

fn env_ref(o: &Option<EnvFile>) -> (r: Option<&EnvFile>)
    ensures
        r == (match o {
            Some(e) => Some(e),
            None => None::<&EnvFile>,
        }),
{
    match o {
        Some(e) => Some(e),
        None => None,
    }
}

fn asked_path_exec(r: &DeployRequest) -> (p: Option<&str>)
    ensures
        opt_str_view(p) == asked_path(*r),
{
    match &r.path {
        Some(p) => Some(p.as_str()),
        None => opt_ref(&r.source),
    }
}

fn step_load_config(f: DeployFlow, e: DeployEvent) -> (r: (DeployFlow, DeployAction))
    requires
        f.step == DeployStep::LoadConfig,
    ensures
        deploy_next_ok(f, e, r),
{
    match e {
        DeployEvent::Configs(g, l) => match read_settings(g, l, f.request.provider) {
            Err(m) => fail_with(f, m),
            Ok(c) => {
                let explicit = f.request.path_was_explicit || f.request.source.is_some();
                let probes = source_probes(
                    f.request.cwd.as_str(),
                    asked_path_exec(&f.request),
                    explicit,
                    opt_ref(&c.source),
                );
                (
                    DeployFlow { step: DeployStep::Probe, config: c, ..f },
                    act(no_log(), DeployActionKind::ProbeDirectories(probes)),
                )
            },
        },
        _ => unexpected(f),
    }
}

/// With the provider known: the overrides, the log, and the `.env` file.
fn choose_provider(f: DeployFlow, p: ProviderKind) -> (r: (DeployFlow, DeployAction))
    ensures
        provider_chosen(f, f.config, f.selection, p, r),
{
    let prefix = clone_opt(&f.request.prefix);
    let remote = clone_opt(&f.request.remote_dir);
    let verbose = f.request.verbose;
    let mut f = f;
    apply_overrides(&mut f.config, prefix, remote);
    let lines = vec![line("Provider: ", p.display_name())];
    assert(views(lines@) =~= seq!["Provider: "@ + provider_display_name(p)]);
    let log = log_if(verbose, lines);
    let needs = needs_local_env(p);
    (DeployFlow { step: DeployStep::LoadEnv, provider: p, ..f }, act(log, DeployActionKind::ReadLocalEnv(needs)))
}


fn step_probe(f: DeployFlow, e: DeployEvent) -> (r: (DeployFlow, DeployAction))
    requires
        f.step == DeployStep::Probe,
    ensures
        deploy_next_ok(f, e, r),
{
    match e {
        DeployEvent::Directories(dirs) => {
            let explicit = f.request.path_was_explicit || f.request.source.is_some();
            let chosen = select_source(
                f.request.cwd.as_str(),
                asked_path_exec(&f.request),
                explicit,
                opt_ref(&f.config.source),
                &dirs,
            );
            match chosen {
                Err(err) => {
                    let m = err.message();
                    fail_with(f, m)
                },
                Ok(sel) => match resolve_provider(f.config.provider, &f.request, f.terminal) {
                    ProviderChoice::Use(p) => {
                        let f2 = DeployFlow { selection: sel, ..f };
                        choose_provider(f2, p)
                    },
                    ProviderChoice::NotConfigured => {
                        let m = DeployError::ProviderNotConfigured.message();
                        fail_with(DeployFlow { selection: sel, ..f }, m)
                    },
                    ProviderChoice::RunSetup => {
                        if f.request.path_was_explicit {
                            let root = f.request.cwd.clone();
                            let source = sel.source.clone();
                            (
                                DeployFlow { step: DeployStep::Canonicalize, selection: sel, ..f },
                                act(no_log(), DeployActionKind::Canonicalize(root, source)),
                            )
                        } else {
                            (
                                DeployFlow { step: DeployStep::Setup, selection: sel, ..f },
                                act(no_log(), DeployActionKind::RunSetup(None)),
                            )
                        }
                    },
                },
            }
        },
        _ => unexpected(f),
    }
}

fn step_canonicalize(f: DeployFlow, e: DeployEvent) -> (r: (DeployFlow, DeployAction))
    requires
        f.step == DeployStep::Canonicalize,
    ensures
        deploy_next_ok(f, e, r),
{
    match e {
        DeployEvent::Canonical(root, source) => {
            let saved = config_source_for_path(root.as_str(), source.as_str());
            (
                DeployFlow { step: DeployStep::Setup, ..f },
                act(no_log(), DeployActionKind::RunSetup(Some(saved))),
            )
        },
        _ => unexpected(f),
    }
}

fn step_setup(f: DeployFlow, e: DeployEvent) -> (r: (DeployFlow, DeployAction))
    requires
        f.step == DeployStep::Setup,
    ensures
        deploy_next_ok(f, e, r),
{
    match e {
        DeployEvent::Completed => (
            DeployFlow { step: DeployStep::ReloadConfig, ..f },
            act(no_log(), DeployActionKind::ReadConfig),
        ),
        _ => unexpected(f),
    }
}

fn step_reload(f: DeployFlow, e: DeployEvent) -> (r: (DeployFlow, DeployAction))
    requires
        f.step == DeployStep::ReloadConfig,
    ensures
        deploy_next_ok(f, e, r),
{
    match e {
        DeployEvent::Configs(g, l) => {
            let ghost gv = g@;
            let ghost lv = l@;
            match read_settings(g, l, f.request.provider) {
                Err(m) => fail_with(f, m),
                Ok(c) => {
                    let ghost cv = c;
                    match provider_after_setup(c.provider) {
                        Err(err) => {
                            let m = err.message();
                            let r = fail_with(f, m);
                            assert(config_read(cv, gv, lv, r.0.request));
                            r
                        },
                        Ok(p) => {
                            let f2 = DeployFlow { config: c, ..f };
                            let r = choose_provider(f2, p);
                            assert(config_read(cv, gv, lv, f.request));
                            r
                        },
                    }
                },
            }
        },
        _ => unexpected(f),
    }
}

fn bool_text(b: bool) -> (r: &'static str)
    ensures
        r@ == (if b {
            "true"@
        } else {
            "false"@
        }),
{
    if b {
        "true"
    } else {
        "false"
    }
}

fn selection_log_line(sel: &SourceSelection) -> (r: String)
    ensures
        r@ == selection_line(*sel),
{
    let mut s = line("Source selection: mode=", source_mode_name(sel.mode));
    push_str(&mut s, ", path=");
    push_str(&mut s, sel.source.as_str());
    push_str(&mut s, ", excludes=");
    push_str(&mut s, bool_text(sel.excludes_enabled));
    s
}

fn prepare_action(sel: &SourceSelection) -> (r: DeployAction)
    ensures
        prepares(r, *sel),
        views(r.log@) == Seq::<Seq<char>>::empty(),
{
    act(no_log(), DeployActionKind::Prepare(sel.source.clone(), sel.excludes_enabled))
}

fn step_load_env(f: DeployFlow, e: DeployEvent) -> (r: (DeployFlow, DeployAction))
    requires
        f.step == DeployStep::LoadEnv,
    ensures
        deploy_next_ok(f, e, r),
{
    match e {
        DeployEvent::EnvRead(env) => {
            let lines = vec![selection_log_line(&f.selection)];
            assert(views(lines@) =~= seq![selection_line(f.selection)]);
            let log = log_if(f.request.verbose, lines);
            let choice = publishable_files_choice(
                f.selection.mode,
                f.request.dry_run,
                f.config.move_publishable_files_to_public,
                f.request.json,
                f.terminal,
            );
            match choice {
                PublishableChoice::Move => (
                    DeployFlow { step: DeployStep::Moving, local_env: env, ..f },
                    act(log, DeployActionKind::MoveToPublic),
                ),
                PublishableChoice::Ask => (
                    DeployFlow { step: DeployStep::AnswerPublishable, local_env: env, ..f },
                    act(
                        log,
                        DeployActionKind::AskPublishable(
                            crate::deploy::publishable_files_question().to_owned(),
                        ),
                    ),
                ),
                PublishableChoice::Keep => {
                    let a = prepare_action(&f.selection);
                    (
                        DeployFlow { step: DeployStep::Preparing, local_env: env, ..f },
                        DeployAction { log, kind: a.kind },
                    )
                },
            }
        },
        _ => unexpected(f),
    }
}

fn step_answer(f: DeployFlow, e: DeployEvent) -> (r: (DeployFlow, DeployAction))
    requires
        f.step == DeployStep::AnswerPublishable,
    ensures
        deploy_next_ok(f, e, r),
{
    match e {
        DeployEvent::Answer(a) => {
            let choice = match &a {
                Some(x) => answer_is_yes(x.as_str()),
                None => false,
            };
            (
                DeployFlow { step: DeployStep::Remember, move_choice: choice, ..f },
                act(no_log(), DeployActionKind::RememberChoice(choice)),
            )
        },
        _ => unexpected(f),
    }
}

fn step_remember(f: DeployFlow, e: DeployEvent) -> (r: (DeployFlow, DeployAction))
    requires
        f.step == DeployStep::Remember,
    ensures
        deploy_next_ok(f, e, r),
{
    match e {
        DeployEvent::Completed => if f.move_choice {
            (DeployFlow { step: DeployStep::Moving, ..f }, act(no_log(), DeployActionKind::MoveToPublic))
        } else {
            let a = prepare_action(&f.selection);
            (DeployFlow { step: DeployStep::Preparing, ..f }, a)
        },
        _ => unexpected(f),
    }
}

fn step_moving(f: DeployFlow, e: DeployEvent) -> (r: (DeployFlow, DeployAction))
    requires
        f.step == DeployStep::Moving,
    ensures
        deploy_next_ok(f, e, r),
{
    match e {
        DeployEvent::Completed => {
            let sel = public_directory_selection(f.request.cwd.as_str());
            let a = prepare_action(&sel);
            (DeployFlow { step: DeployStep::Preparing, selection: sel, ..f }, a)
        },
        _ => unexpected(f),
    }
}

fn step_preparing(f: DeployFlow, e: DeployEvent) -> (r: (DeployFlow, DeployAction))
    requires
        f.step == DeployStep::Preparing,
    ensures
        deploy_next_ok(f, e, r),
{
    match e {
        DeployEvent::Prepared(path) => {
            let lines = vec![line("Prepared source: ", path.as_str())];
            assert(views(lines@) =~= seq!["Prepared source: "@ + path@]);
            let log = log_if(f.request.verbose, lines);
            let dir = path.clone();
            let name = sas_env_name(&f.config);
            (
                DeployFlow { step: DeployStep::Inspecting, prepared: path, ..f },
                act(log, DeployActionKind::Inspect(dir, name)),
            )
        },
        _ => unexpected(f),
    }
}


fn summary_lines(f: &DeployFlow, dry_run: bool) -> (r: Vec<String>)
    ensures
        views(r@) == summary_of(*f, dry_run),
{
    deploy_summary_lines(
        &f.selection,
        f.prepared.as_str(),
        f.provider,
        f.command_line.as_str(),
        opt_ref(&f.default_url),
        dry_run,
    )
}

fn mapping_texts(m: &Vec<(String, String)>) -> (r: Vec<String>)
    ensures
        views(r@) == pair_texts(crate::provider::pair_views(m@)),
{
    let ghost pv = crate::provider::pair_views(m@);
    let mut out: Vec<String> = Vec::new();
    let mut i: usize = 0;
    while i < m.len()
        invariant
            i <= m@.len(),
            pv == crate::provider::pair_views(m@),
            views(out@) == pair_texts(pv.take(i as int)),
        decreases m@.len() - i,
    {
        let mut t = m[i].0.clone();
        push_str(&mut t, " <- ");
        push_str(&mut t, m[i].1.as_str());
        proof {
            crate::provider::lemma_views_push(out@, t);
        }
        assert(pv[i as int] == (m@[i as int].0@, m@[i as int].1@));
        assert(pair_texts(pv.take(i + 1)) =~= pair_texts(pv.take(i as int)).push(t@));
        out.push(t);
        i = i + 1;
    }
    assert(pv.take(m@.len() as int) =~= pv);
    out
}

fn command_log_exec(cmd: &ProviderCommand, verbose: bool) -> (r: Vec<String>)
    ensures
        views(r@) == command_log(*cmd, verbose),
{
    let mut lines: Vec<String> = Vec::new();
    let exec_line = cmd.execution_line();
    lines.push(line("External command: ", exec_line.as_str()));
    let required = crate::provider::join_strings(&cmd.required_env, ", ");
    lines.push(line("Required environment variables: ", required.as_str()));
    let maps = mapping_texts(&cmd.env_mappings);
    if maps.len() > 0 {
        let joined = crate::provider::join_strings(&maps, ", ");
        lines.push(line("Environment mappings: ", joined.as_str()));
    }
    let ghost mappings = pair_texts(crate::provider::pair_views(cmd.env_mappings@));
    assert(views(lines@) =~= seq![
        "External command: "@ + crate::provider::shell_joined(seq![cmd.program@] + views(cmd.args@)),
        "Required environment variables: "@ + crate::text::join(views(cmd.required_env@), ", "@),
    ] + if mappings.len() > 0 {
        seq!["Environment mappings: "@ + crate::text::join(mappings, ", "@)]
    } else {
        Seq::<Seq<char>>::empty()
    });
    log_if(verbose, lines)
}

fn env_names_exec(cmd: &ProviderCommand) -> (r: Vec<String>)
    ensures
        views(r@) == env_names(*cmd),
{
    let mut out = crate::provider::clone_strings(&cmd.required_env);
    let ghost base = views(out@);
    let ghost srcs = crate::provider::pair_views(cmd.env_mappings@).map_values(
        |x: (Seq<char>, Seq<char>)| x.1,
    );
    let mut i: usize = 0;
    assert(srcs.take(0) =~= Seq::<Seq<char>>::empty());
    assert(views(out@) =~= base + srcs.take(0));
    while i < cmd.env_mappings.len()
        invariant
            i <= cmd.env_mappings@.len(),
            srcs == crate::provider::pair_views(cmd.env_mappings@).map_values(
                |x: (Seq<char>, Seq<char>)| x.1,
            ),
            srcs.len() == cmd.env_mappings@.len(),
            base == views(cmd.required_env@),
            views(out@) == base + srcs.take(i as int),
        decreases cmd.env_mappings@.len() - i,
    {
        let s = cmd.env_mappings[i].1.clone();
        proof {
            crate::provider::lemma_views_push(out@, s);
        }
        assert(srcs[i as int] == cmd.env_mappings@[i as int].1@);
        assert(srcs.take(i + 1) =~= srcs.take(i as int).push(s@));
        out.push(s);
        i = i + 1;
    }
    assert(srcs.take(cmd.env_mappings@.len() as int) =~= srcs);
    out
}

fn step_inspecting(f: DeployFlow, e: DeployEvent) -> (r: (DeployFlow, DeployAction))
    requires
        f.step == DeployStep::Inspecting,
    ensures
        deploy_next_ok(f, e, r),
{
    match e {
        DeployEvent::Inspected(files, sas) => {
            let verbose = f.request.verbose;
            let dry = f.request.dry_run;
            let url = choose_default_url(
                &f.config,
                f.provider,
                opt_ref(&sas),
                env_ref(&f.local_env),
                &files,
            );
            if f.provider == ProviderKind::AzureBlob {
                let shown = display_upload_command(
                    &f.config,
                    opt_ref(&sas),
                    env_ref(&f.local_env),
                    f.prepared.as_str(),
                );
                match shown {
                    Err(err) => {
                        let m = err.message();
                        fail_with(f, m)
                    },
                    Ok(cl) => {
                        let lines = vec![line("Built-in deployment: ", cl.as_str())];
                        assert(views(lines@) =~= seq!["Built-in deployment: "@ + cl@]);
                        let log = log_if(verbose, lines);
                        let f2 = DeployFlow { default_url: url, command_line: cl, sas_value: sas, ..f };
                        if dry {
                            let sum = summary_lines(&f2, true);
                            (DeployFlow { step: DeployStep::Done, ..f2 }, act(log, DeployActionKind::Finish(sum)))
                        } else {
                            (DeployFlow { step: DeployStep::Uploading, ..f2 }, act(log, DeployActionKind::Upload))
                        }
                    },
                }
            } else {
                match build_provider_command(f.provider, &f.config, f.prepared.as_str()) {
                    Err(err) => {
                        let m = err.message();
                        fail_with(f, m)
                    },
                    Ok(cmd0) => {
                        let ghost c0 = cmd0;
                        let cmd = if verbose {
                            cmd0.with_debug_logs()
                        } else {
                            cmd0
                        };
                        proof {
                            let debug = if verbose {
                                seq!["--debug"@]
                            } else {
                                Seq::<Seq<char>>::empty()
                            };
                            let fa = crate::provider::firebase_args(f.config);
                            assert(debug + fa =~= if verbose {
                                seq!["--debug"@] + fa
                            } else {
                                fa
                            });
                            if f.provider == ProviderKind::Firebase {
                                assert(c0.display_words() =~= seq!["firebase"@] + fa);
                                assert(seq!["firebase"@] + debug + fa =~= if verbose {
                                    seq![c0.display_words()[0], "--debug"@] + c0.display_words().skip(1)
                                } else {
                                    c0.display_words()
                                });
                            }
                        }
                        let cl = cmd.display_line();
                        let log = command_log_exec(&cmd, verbose);
                        let f2 = DeployFlow { default_url: url, command_line: cl, command: cmd, ..f };
                        if dry {
                            let sum = summary_lines(&f2, true);
                            (DeployFlow { step: DeployStep::Done, ..f2 }, act(log, DeployActionKind::Finish(sum)))
                        } else {
                            let cli = f2.command.required_cli.clone();
                            (
                                DeployFlow { step: DeployStep::Checking, ..f2 },
                                act(log, DeployActionKind::CheckProgram(cli)),
                            )
                        }
                    },
                }
            }
        },
        _ => unexpected(f),
    }
}


fn step_uploading(f: DeployFlow, e: DeployEvent) -> (r: (DeployFlow, DeployAction))
    requires
        f.step == DeployStep::Uploading,
    ensures
        deploy_next_ok(f, e, r),
{
    match e {
        DeployEvent::Uploaded(sum) => {
            let mut lines = summary_lines(&f, false);
            let ghost before = views(lines@);
            if !f.request.json {
                let mut t = line("Uploaded: ", crate::number::u64_text(sum.files as u64).as_str());
                push_str(&mut t, " files, ");
                push_str(&mut t, crate::number::u64_text(sum.bytes).as_str());
                push_str(&mut t, " bytes");
                proof {
                    crate::provider::lemma_views_push(lines@, t);
                }
                lines.push(t);
            }
            assert(views(lines@) =~= before + if f.request.json {
                Seq::<Seq<char>>::empty()
            } else {
                seq![
                    "Uploaded: "@ + crate::number::nat_text(sum.files as nat) + " files, "@
                        + crate::number::nat_text(sum.bytes as nat) + " bytes"@,
                ]
            });
            (DeployFlow { step: DeployStep::Done, ..f }, act(no_log(), DeployActionKind::Finish(lines)))
        },
        _ => unexpected(f),
    }
}

fn step_checking(f: DeployFlow, e: DeployEvent) -> (r: (DeployFlow, DeployAction))
    requires
        f.step == DeployStep::Checking,
    ensures
        deploy_next_ok(f, e, r),
{
    match e {
        DeployEvent::ProgramFound(found) => if !found {
            let m = provider_cli_missing_message(f.provider, f.command.required_cli.as_str());
            fail_with(f, m)
        } else {
            let names = env_names_exec(&f.command);
            (
                DeployFlow { step: DeployStep::Collecting, ..f },
                act(no_log(), DeployActionKind::ReadEnv(names)),
            )
        },
        _ => unexpected(f),
    }
}

fn step_collecting(f: DeployFlow, e: DeployEvent) -> (r: (DeployFlow, DeployAction))
    requires
        f.step == DeployStep::Collecting,
    ensures
        deploy_next_ok(f, e, r),
{
    match e {
        DeployEvent::EnvValues(values) => {
            let ghost all = values@;
            let n = f.command.required_env.len();
            let m = f.command.env_mappings.len();
            if values.len() < n || values.len() - n != m {
                return unexpected(f);
            }
            let mut first = values;
            let rest = first.split_off(n);
            assert(first@ =~= all.take(n as int));
            match f.command.validate_environment(&first) {
                Err(err) => {
                    let msg = err.message();
                    proof {
                        assert(!(forall|i: int| 0 <= i < n ==> crate::provider::has_value(#[trigger] all[i]))) by {
                            let k = choose|k: int| 0 <= k < first@.len() && !crate::provider::has_value(#[trigger] first@[k]);
                            assert(first@[k] == all[k]);
                        }
                    }
                    return fail_with(f, msg);
                },
                Ok(()) => {},
            }
            assert(forall|i: int| 0 <= i < n ==> crate::provider::has_value(#[trigger] all[i])) by {
                assert forall|i: int| 0 <= i < n implies crate::provider::has_value(#[trigger] all[i]) by {
                    assert(first@[i] == all[i]);
                }
            }
            match f.command.apply_environment(&rest) {
                Err(err) => {
                    let msg = err.message();
                    proof {
                        let k = choose|k: int|
                            0 <= k < rest@.len() && rest@[k] is None && err->MissingMappedVariable_name@
                                == f.command.env_mappings@[k].1@ && forall|j: int|
                                0 <= j < k ==> rest@[j] is Some;
                        assert(rest@[k] == all[n + k]);
                        assert(all[(n + k) as int] is None);
                        assert forall|j: int| n <= j < n + k implies all[j] is Some by {
                            assert(rest@[j - n] == all[j]);
                        }
                        assert(exists|i: int| n <= i < n + m && (#[trigger] all[i]) is None);
                    }
                    (
                        DeployFlow { step: DeployStep::Done, ..f },
                        act(no_log(), DeployActionKind::Fail(msg)),
                    )
                },
                Ok(pairs) => {
                    proof {
                        assert forall|i: int| n <= i < n + m implies !((#[trigger] all[i]) is None) by {
                            assert(rest@[i - n] == all[i]);
                        }
                        assert forall|i: int| 0 <= i < m implies opt_view(all[n + i]) == Some(
                            (#[trigger] pairs@[i]).1@,
                        ) by {
                            assert(rest@[i] == all[n + i]);
                        }
                    }
                    (
                        DeployFlow { step: DeployStep::Running, ..f },
                        act(no_log(), DeployActionKind::Run(pairs)),
                    )
                },
            }
        },
        _ => unexpected(f),
    }
}

fn step_running(f: DeployFlow, e: DeployEvent) -> (r: (DeployFlow, DeployAction))
    requires
        f.step == DeployStep::Running,
    ensures
        deploy_next_ok(f, e, r),
{
    match e {
        DeployEvent::Completed => {
            let lines = summary_lines(&f, false);
            (DeployFlow { step: DeployStep::Done, ..f }, act(no_log(), DeployActionKind::Finish(lines)))
        },
        _ => unexpected(f),
    }
}

/// One step of a deployment: the state after `event` and what to do next.
pub fn deploy_next(flow: DeployFlow, event: DeployEvent) -> (r: (DeployFlow, DeployAction))
    ensures
        deploy_next_ok(flow, event, r),
{
    match flow.step {
        DeployStep::LoadConfig => step_load_config(flow, event),
        DeployStep::Probe => step_probe(flow, event),
        DeployStep::Canonicalize => step_canonicalize(flow, event),
        DeployStep::Setup => step_setup(flow, event),
        DeployStep::ReloadConfig => step_reload(flow, event),
        DeployStep::LoadEnv => step_load_env(flow, event),
        DeployStep::AnswerPublishable => step_answer(flow, event),
        DeployStep::Remember => step_remember(flow, event),
        DeployStep::Moving => step_moving(flow, event),
        DeployStep::Preparing => step_preparing(flow, event),
        DeployStep::Inspecting => step_inspecting(flow, event),
        DeployStep::Uploading => step_uploading(flow, event),
        DeployStep::Checking => step_checking(flow, event),
        DeployStep::Collecting => step_collecting(flow, event),
        DeployStep::Running => step_running(flow, event),
        DeployStep::Done => unexpected(flow),
    }
}

} // verus!
