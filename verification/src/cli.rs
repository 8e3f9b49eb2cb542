//! The command line as values: what each command asks for, which
//! configuration file it reads or writes, what `config set` stores, what
//! `config get` prints and what `config doctor` reports.
use crate::azure_blob::{display_upload_command, upload_command_report};
use crate::config::{
    global_config_path, global_config_path_spec, local_config_path,
    opt_str_view, opt_view, parse_config_value, config_value_spec, opt_json_view,
    provider_display_name, secret_paths, secret_paths_in, set_key, has_empty_segment,
    secret_key_spec, ConfigError, NowConfig, ProviderKind,
};
use crate::deploy::DeployRequest;
use crate::env_file::EnvFile;
use crate::json::{get_key, get_path, key_path, remove_path, set_path, JsonValue, JsonView};
use crate::onboarding::{get_string, get_string_spec, or_else};
use crate::provider::{
    build_provider_command, ftp_mirror, install_hint, non_empty_spec, provider_error_message,
    shell_joined, swa_args, firebase_args, views, ProviderError,
};
use crate::text::{join, push_str, str_eq, trim};
use vstd::prelude::*;

verus! {

// ---------------------------------------------------------------------
// The commands.
// ---------------------------------------------------------------------
/// `--global` and `--local`.
#[derive(Debug, Clone, Copy, PartialEq, Eq, Structural)]
pub struct ScopeArgs {
    pub global: bool,
    pub local: bool,
}

/// Which configuration `config get` reads.
#[derive(Debug, Clone, Copy, PartialEq, Eq, Structural)]
pub enum ConfigReadScope {
    Merged,
    Local,
    Global,
}

/// Which configuration file a command writes.
#[derive(Debug, Clone, Copy, PartialEq, Eq, Structural)]
pub enum ConfigWriteScope {
    Local,
    Global,
}

impl ScopeArgs {
    /// `--global` reads the global file, `--local` the project's, and
    /// neither reads both merged.
    pub fn read_scope(self) -> (r: ConfigReadScope)
        ensures
            r == (if self.global {
                ConfigReadScope::Global
            } else if self.local {
                ConfigReadScope::Local
            } else {
                ConfigReadScope::Merged
            }),
    {
        if self.global {
            ConfigReadScope::Global
        } else if self.local {
            ConfigReadScope::Local
        } else {
            ConfigReadScope::Merged
        }
    }

    /// `--global` writes the global file; otherwise the project's.
    pub fn write_scope(self) -> (r: ConfigWriteScope)
        ensures
            r == (if self.global {
                ConfigWriteScope::Global
            } else {
                ConfigWriteScope::Local
            }),
    {
        if self.global {
            ConfigWriteScope::Global
        } else {
            ConfigWriteScope::Local
        }
    }
}

/// `now deploy`'s arguments.
#[derive(Debug)]
pub struct DeployArgs {
    pub path: Option<String>,
    pub source: Option<String>,
    pub provider: Option<ProviderKind>,
    pub prefix: Option<String>,
    pub remote_dir: Option<String>,
    pub dry_run: bool,
    pub json: bool,
    pub verbose: bool,
}

/// `now config`'s subcommands.
#[derive(Debug)]
pub enum ConfigCommand {
    SetValue { key: String, value: String, scope: ScopeArgs },
    Get { key: Option<String>, scope: ScopeArgs },
    Doctor,
}

/// The subcommands.
#[derive(Debug)]
pub enum Command {
    Deploy(DeployArgs),
    Init(ScopeArgs),
    Config(ConfigCommand),
}

/// The command line.
#[derive(Debug)]
pub struct Cli {
    pub command: Option<Command>,
    pub path: Option<String>,
    pub verbose: bool,
}

/// What a command line asks for.
#[derive(Debug)]
pub enum Invocation {
    Deploy(DeployRequest),
    Init(ConfigWriteScope),
    ConfigSet { scope: ConfigWriteScope, key: String, value: String },
    ConfigGet { scope: ConfigReadScope, key: Option<String> },
    ConfigDoctor,
}

/// The deployment a command line asks for: the path, when given, is an
/// explicit source; the plain command deploys with the defaults.
pub open spec fn request_matches(
    r: DeployRequest,
    cwd: Seq<char>,
    path: Option<String>,
    source: Option<String>,
    provider: Option<ProviderKind>,
    prefix: Option<String>,
    remote_dir: Option<String>,
    dry_run: bool,
    json: bool,
    verbose: bool,
) -> bool {
    &&& r.cwd@ == cwd
    &&& r.path_was_explicit == (path is Some)
    &&& r.path == path
    &&& r.source == source
    &&& r.provider == provider
    &&& r.prefix == prefix
    &&& r.remote_dir == remote_dir
    &&& r.dry_run == dry_run
    &&& r.json == json
    &&& r.verbose == verbose
}

/// What a command line asks for, run in `cwd`.
pub fn execute(cli: Cli, cwd: String) -> (r: Invocation)
    ensures
        match cli.command {
            Some(Command::Deploy(a)) => r matches Invocation::Deploy(d) && request_matches(
                d,
                cwd@,
                a.path,
                a.source,
                a.provider,
                a.prefix,
                a.remote_dir,
                a.dry_run,
                a.json,
                a.verbose,
            ),
            Some(Command::Init(scope)) => r matches Invocation::Init(w) && w == (if scope.global {
                ConfigWriteScope::Global
            } else {
                ConfigWriteScope::Local
            }),
            Some(Command::Config(ConfigCommand::SetValue { key, value, scope })) => r matches Invocation::ConfigSet {
                scope: w,
                key: k,
                value: v,
            } && k == key && v == value && w == (if scope.global {
                ConfigWriteScope::Global
            } else {
                ConfigWriteScope::Local
            }),
            Some(Command::Config(ConfigCommand::Get { key, scope })) => r matches Invocation::ConfigGet {
                scope: s,
                key: k,
            } && k == key && s == (if scope.global {
                ConfigReadScope::Global
            } else if scope.local {
                ConfigReadScope::Local
            } else {
                ConfigReadScope::Merged
            }),
            Some(Command::Config(ConfigCommand::Doctor)) => r is ConfigDoctor,
            None => r matches Invocation::Deploy(d) && request_matches(
                d,
                cwd@,
                cli.path,
                None,
                None,
                None,
                None,
                false,
                false,
                cli.verbose,
            ),
        },
{
    match cli.command {
        Some(Command::Deploy(a)) => Invocation::Deploy(
            DeployRequest {
                cwd,
                path_was_explicit: a.path.is_some(),
                path: a.path,
                source: a.source,
                provider: a.provider,
                prefix: a.prefix,
                remote_dir: a.remote_dir,
                dry_run: a.dry_run,
                json: a.json,
                verbose: a.verbose,
            },
        ),
        Some(Command::Init(scope)) => Invocation::Init(scope.write_scope()),
        Some(Command::Config(c)) => execute_config(c),
        None => Invocation::Deploy(
            DeployRequest {
                cwd,
                path_was_explicit: cli.path.is_some(),
                path: cli.path,
                source: None,
                provider: None,
                prefix: None,
                remote_dir: None,
                dry_run: false,
                json: false,
                verbose: cli.verbose,
            },
        ),
    }
}

/// What a `config` subcommand asks for.
pub fn execute_config(command: ConfigCommand) -> (r: Invocation)
    ensures
        match command {
            ConfigCommand::SetValue { key, value, scope } => r matches Invocation::ConfigSet {
                scope: w,
                key: k,
                value: v,
            } && k == key && v == value && w == (if scope.global {
                ConfigWriteScope::Global
            } else {
                ConfigWriteScope::Local
            }),
            ConfigCommand::Get { key, scope } => r matches Invocation::ConfigGet { scope: s, key: k }
                && k == key && s == (if scope.global {
                ConfigReadScope::Global
            } else if scope.local {
                ConfigReadScope::Local
            } else {
                ConfigReadScope::Merged
            }),
            ConfigCommand::Doctor => r is ConfigDoctor,
        },
{
    match command {
        ConfigCommand::SetValue { key, value, scope } => Invocation::ConfigSet {
            scope: scope.write_scope(),
            key,
            value,
        },
        ConfigCommand::Get { key, scope } => Invocation::ConfigGet { scope: scope.read_scope(), key },
        ConfigCommand::Doctor => Invocation::ConfigDoctor,
    }
}

/// The message for a provider name that names none.
pub open spec fn unsupported_provider_text(value: Seq<char>) -> Seq<char> {
    "unsupported provider "@ + value
        + "; expected firebase-hosting, azure-storage-blob, azure-static-web-app, or any-website-ftp"@
}

/// The provider a `--provider` value names.
pub fn parse_provider(value: &str) -> (r: Result<ProviderKind, String>)
    ensures
        match crate::config::parse_provider_name(value@) {
            Some(p) => r == Ok::<ProviderKind, String>(p),
            None => r matches Err(m) && m@ == unsupported_provider_text(value@),
        },
{
    match ProviderKind::parse(value) {
        Some(p) => Ok(p),
        None => {
            let mut m = "unsupported provider ".to_owned();
            push_str(&mut m, value);
            push_str(
                &mut m,
                "; expected firebase-hosting, azure-storage-blob, azure-static-web-app, or any-website-ftp",
            );
            Err(m)
        },
    }
}

/// The file a command writes: the project's `.now.json`, or the global
/// settings file found from `NOW_CONFIG_HOME`, `XDG_CONFIG_HOME` and the
/// home directory.
pub fn config_path(
    scope: ConfigWriteScope,
    cwd: &str,
    now_config_home: Option<&str>,
    xdg_config_home: Option<&str>,
    home: Option<&str>,
) -> (r: Result<String, ConfigError>)
    ensures
        scope == ConfigWriteScope::Local ==> (r matches Ok(p) && p@ == crate::paths::join_path(
            cwd@,
            ".now.json"@,
        )),
        scope == ConfigWriteScope::Global ==> match global_config_path_spec(
            opt_str_view(now_config_home),
            opt_str_view(xdg_config_home),
            opt_str_view(home),
        ) {
            Some(g) => r matches Ok(p) && p@ == g,
            None => r matches Err(ConfigError::NoHomeDirectory),
        },
{
    match scope {
        ConfigWriteScope::Local => Ok(local_config_path(cwd)),
        ConfigWriteScope::Global => global_config_path(now_config_home, xdg_config_home, home),
    }
}


// ---------------------------------------------------------------------
// `config set` and `config get`.
// ---------------------------------------------------------------------
/// Why a `config` command failed.
#[derive(Debug)]
pub enum CliError {
    Config(ConfigError),
    /// `azure_blob.sas_url` cannot be written to the global file.
    SasUrlGlobal,
    /// `config get` of a key that is not there; the key.
    KeyNotFound(String),
}

/// What `config set` writes: the configuration file's new value, and a
/// variable to write to the project's `.env`.
#[derive(Debug)]
pub struct ConfigSetPlan {
    pub value: JsonValue,
    pub env_value: Option<(String, String)>,
}

/// The variable that holds the SAS URL, as the configuration names it.
pub open spec fn sas_env_for(v: JsonView) -> Seq<char> {
    or_else(get_string_spec(v, "azure_blob.sas_url_env"@), "NOW_AZURE_BLOB_SAS_URL"@)
}

/// The configuration once the SAS URL's variable is named and any SAS URL
/// written in it is taken out.
pub open spec fn with_sas_env(v: JsonView, name: Seq<char>) -> JsonView {
    remove_path(
        set_path(v, key_path("azure_blob.sas_url_env"@), JsonView::Str(name)),
        key_path("azure_blob.sas_url"@),
    )
}

/// Whether `config set` accepts a key: not blank, not secret-like, no
/// empty segment.
pub open spec fn settable(key: Seq<char>) -> bool {
    trim(key).len() > 0 && !secret_key_spec(key) && !has_empty_segment(key)
}

/// What `config set key raw` does to a configuration file's value `v`;
/// `parsed` is what parsing `raw` as a JSON document gave. The SAS URL
/// itself never goes into a configuration file: it goes to `.env`, under
/// the variable the configuration names, and only for the project.
pub open spec fn config_set_spec(
    local: bool,
    key: Seq<char>,
    raw: Seq<char>,
    parsed: Option<JsonView>,
    v: JsonView,
) -> Option<(JsonView, Option<(Seq<char>, Seq<char>)>)> {
    if key == "azure_blob.sas_url"@ {
        if !local {
            None
        } else {
            Some((with_sas_env(v, sas_env_for(v)), Some((sas_env_for(v), raw))))
        }
    } else if !settable(key) {
        None
    } else {
        let set = set_path(v, key_path(key), config_value_spec(raw, parsed));
        if key == "azure_blob.sas_url_env"@ {
            Some((remove_path(set, key_path("azure_blob.sas_url"@)), None))
        } else {
            Some((set, None))
        }
    }
}

fn put_path(value: JsonValue, key: &str, new: JsonValue) -> (r: JsonValue)
    ensures
        r@ == set_path(value@, key_path(key@), new@),
{
    let parts = crate::json::split_str(key, '.');
    proof {
        crate::text::lemma_split_on_len(key@, '.');
    }
    crate::json::set_path_exec(value, &parts, new)
}

/// What `config set` writes, given the configuration file's value.
pub fn plan_config_set(
    scope: ConfigWriteScope,
    key: &str,
    raw: &str,
    parsed: Option<JsonValue>,
    current: JsonValue,
) -> (r: Result<ConfigSetPlan, CliError>)
    ensures
        match config_set_spec(
            scope == ConfigWriteScope::Local,
            key@,
            raw@,
            opt_json_view(parsed),
            current@,
        ) {
            Some((v, env)) => r matches Ok(plan) && plan.value@ == v && match env {
                Some((n, x)) => plan.env_value matches Some(p) && p.0@ == n && p.1@ == x,
                None => plan.env_value is None,
            },
            None => r is Err,
        },
        key@ == "azure_blob.sas_url"@ && scope == ConfigWriteScope::Global ==> r matches Err(
            CliError::SasUrlGlobal,
        ),
{
    if str_eq(key, "azure_blob.sas_url") {
        if scope == ConfigWriteScope::Global {
            return Err(CliError::SasUrlGlobal);
        }
        let name = match get_string(&current, "azure_blob.sas_url_env") {
            Some(n) => n,
            None => "NOW_AZURE_BLOB_SAS_URL".to_owned(),
        };
        let mut v = put_path(current, "azure_blob.sas_url_env", JsonValue::Str(name.clone()));
        crate::json::remove_key(&mut v, "azure_blob.sas_url");
        return Ok(ConfigSetPlan { value: v, env_value: Some((name, raw.to_owned())) });
    }
    let mut v = current;
    match set_key(&mut v, key, parse_config_value(raw, parsed)) {
        Err(e) => return Err(CliError::Config(e)),
        Ok(()) => {},
    }
    if str_eq(key, "azure_blob.sas_url_env") {
        crate::json::remove_key(&mut v, "azure_blob.sas_url");
    }
    Ok(ConfigSetPlan { value: v, env_value: None })
}

/// The message printed for each file `config set` wrote.
pub fn updated_line(path: &str) -> (r: String)
    ensures
        r@ == "Updated "@ + path@,
{
    let mut s = "Updated ".to_owned();
    push_str(&mut s, path);
    s
}

/// The value `config get` prints: the value at the key, or the whole
/// value without a key.
pub fn get_config<'a>(value: &'a JsonValue, key: Option<&str>) -> (r: Result<&'a JsonValue, CliError>)
    ensures
        match key {
            None => r matches Ok(v) && v@ == value@,
            Some(k) => match get_path(value@, key_path(k@)) {
                Some(x) => r matches Ok(v) && v@ == x,
                None => r matches Err(CliError::KeyNotFound(m)) && m@ == k@,
            },
        },
{
    match key {
        None => Ok(value),
        Some(k) => match get_key(value, k) {
            Some(v) => Ok(v),
            None => Err(CliError::KeyNotFound(k.to_owned())),
        },
    }
}

/// A string value is printed as it is; anything else as JSON.
pub fn plain_text(value: &JsonValue) -> (r: Option<&str>)
    ensures
        match value@ {
            JsonView::Str(s) => r matches Some(t) && t@ == s,
            _ => r is None,
        },
{
    match value {
        JsonValue::Str(s) => Some(s.as_str()),
        _ => None,
    }
}

/// The message of a `config` command's error.
pub open spec fn cli_error_text(e: CliError) -> Seq<char> {
    match e {
        CliError::Config(c) => crate::config::config_error_text(c),
        CliError::SasUrlGlobal => "azure_blob.sas_url is secret-like; set azure_blob.sas_url_env globally and provide the SAS URL through an environment variable"@,
        CliError::KeyNotFound(k) => "config key not found: "@ + k@,
    }
}

impl CliError {
    /// The message shown to the user.
    pub fn message(&self) -> (r: String)
        ensures
            r@ == cli_error_text(*self),
    {
        match self {
            CliError::Config(c) => c.message(),
            CliError::SasUrlGlobal => "azure_blob.sas_url is secret-like; set azure_blob.sas_url_env globally and provide the SAS URL through an environment variable".to_owned(),
            CliError::KeyNotFound(k) => {
                let mut m = "config key not found: ".to_owned();
                push_str(&mut m, k.as_str());
                m
            },
        }
    }
}


// ---------------------------------------------------------------------
// `config doctor`.
// ---------------------------------------------------------------------
/// The first lines of the report: where the files are, and the
/// secret-like keys they hold.
pub open spec fn doctor_head_spec(global: Seq<char>, local: Seq<char>, merged: JsonView) -> Seq<
    Seq<char>,
> {
    let paths = secret_paths_in(Seq::<char>::empty(), merged);
    seq![
        "Global config: "@ + global,
        "Local config: "@ + local,
        if paths.len() == 0 {
            "Secrets: none found in config files"@
        } else {
            "Secrets: remove these keys: "@ + join(paths, ", "@)
        },
    ]
}

/// The first lines of `config doctor`'s report.
pub fn doctor_head_lines(global_path: &str, local_path: &str, merged: &JsonValue) -> (r: Vec<
    String,
>)
    ensures
        views(r@) == doctor_head_spec(global_path@, local_path@, merged@),
{
    let mut out: Vec<String> = Vec::new();
    let mut g = "Global config: ".to_owned();
    push_str(&mut g, global_path);
    out.push(g);
    let mut l = "Local config: ".to_owned();
    push_str(&mut l, local_path);
    out.push(l);
    let paths = secret_paths(merged);
    if paths.len() == 0 {
        out.push("Secrets: none found in config files".to_owned());
    } else {
        let mut m = "Secrets: remove these keys: ".to_owned();
        let list = crate::provider::join_strings(&paths, ", ");
        push_str(&mut m, list.as_str());
        out.push(m);
    }
    assert(views(out@) =~= doctor_head_spec(global_path@, local_path@, merged@));
    out
}

/// The tool a provider's command runs.
pub open spec fn cli_name(p: ProviderKind) -> Seq<char> {
    match p {
        ProviderKind::Firebase => "firebase"@,
        ProviderKind::AzureBlob => Seq::<char>::empty(),
        ProviderKind::AzureSwa => "swa"@,
        ProviderKind::Ftp => "lftp"@,
    }
}

/// The tool a provider's command runs; Azure Storage Blob runs none.
pub fn required_cli_name(provider: ProviderKind) -> (r: &'static str)
    ensures
        r@ == cli_name(provider),
{
    proof {
        reveal_strlit("");
    }
    match provider {
        ProviderKind::Firebase => "firebase",
        ProviderKind::AzureBlob => "",
        ProviderKind::AzureSwa => "swa",
        ProviderKind::Ftp => "lftp",
    }
}

/// The words a provider's command is shown as, when it has one.
pub open spec fn shown_command(p: ProviderKind, c: NowConfig, source: Seq<char>) -> Option<
    Seq<Seq<char>>,
> {
    match p {
        ProviderKind::Firebase => Some(seq!["firebase"@] + firebase_args(c)),
        ProviderKind::AzureSwa => Some(seq!["swa"@] + swa_args(c, source)),
        ProviderKind::Ftp => match non_empty_spec(opt_view(c.ftp.host)) {
            Some(host) => Some(seq!["lftp"@, "-e"@, ftp_mirror(c, source), host]),
            None => None,
        },
        ProviderKind::AzureBlob => None,
    }
}

/// The rest of the report, for a configuration that reads well; `cwd` is
/// the directory shown as the source and `cli_found` whether the
/// provider's tool is installed.
pub open spec fn doctor_provider_spec(
    c: NowConfig,
    cwd: Seq<char>,
    process_value: Option<Seq<char>>,
    env_file: Option<&EnvFile>,
    cli_found: bool,
) -> Seq<Seq<char>> {
    match c.provider {
        None => seq!["Provider: not configured"@],
        Some(p) => {
            let head = seq!["Provider: "@ + provider_display_name(p)];
            if p == ProviderKind::AzureBlob {
                head + match upload_command_report(c, process_value, env_file, cwd) {
                    Ok(line) => seq!["Command: "@ + line, "Provider CLI: not required"@],
                    Err(m) => seq!["Provider config: "@ + m],
                }
            } else {
                head + match shown_command(p, c, cwd) {
                    Some(words) => seq!["Command: "@ + shell_joined(words)] + if cli_found {
                        seq!["Provider CLI: found "@ + cli_name(p)]
                    } else {
                        seq!["Provider CLI: missing "@ + cli_name(p), install_hint(p)]
                    },
                    None => seq![
                        "Provider config: "@ + provider_error_message(ProviderError::MissingFtpHost),
                    ],
                }
            }
        },
    }
}

fn text2(a: &str, b: &str) -> (r: String)
    ensures
        r@ == a@ + b@,
{
    let mut s = a.to_owned();
    push_str(&mut s, b);
    s
}

/// The rest of `config doctor`'s report.
pub fn doctor_provider_lines(
    config: &NowConfig,
    cwd: &str,
    process_value: Option<&str>,
    env_file: Option<&EnvFile>,
    cli_found: bool,
) -> (r: Vec<String>)
    ensures
        views(r@) == doctor_provider_spec(
            *config,
            cwd@,
            opt_str_view(process_value),
            env_file,
            cli_found,
        ),
{
    let mut out: Vec<String> = Vec::new();
    match config.provider {
        None => {
            out.push("Provider: not configured".to_owned());
        },
        Some(p) => {
            out.push(text2("Provider: ", p.display_name()));
            if p == ProviderKind::AzureBlob {
                match display_upload_command(config, process_value, env_file, cwd) {
                    Ok(line) => {
                        out.push(text2("Command: ", line.as_str()));
                        out.push("Provider CLI: not required".to_owned());
                    },
                    Err(e) => {
                        let m = e.message();
                        out.push(text2("Provider config: ", m.as_str()));
                    },
                }
            } else {
                match build_provider_command(p, config, cwd) {
                    Ok(cmd) => {
                        let line = cmd.display_line();
                        out.push(text2("Command: ", line.as_str()));
                        let cli = required_cli_name(p);
                        if cli_found {
                            out.push(text2("Provider CLI: found ", cli));
                        } else {
                            out.push(text2("Provider CLI: missing ", cli));
                            out.push(crate::provider::provider_install_hint(p).to_owned());
                        }
                    },
                    Err(e) => {
                        let m = e.message();
                        out.push(text2("Provider config: ", m.as_str()));
                    },
                }
            }
        },
    }
    assert(views(out@) =~= doctor_provider_spec(
        *config,
        cwd@,
        opt_str_view(process_value),
        env_file,
        cli_found,
    ));
    out
}


/// `config set azure_blob.sas_url` keeps the SAS URL out of the
/// configuration file: afterwards the file holds no SAS URL, the URL goes
/// to `.env` under the variable that the file names, and the global file
/// is never written with it.
pub proof fn lemma_sas_url_stays_out_of_config(raw: Seq<char>, parsed: Option<JsonView>, v: JsonView)
    ensures
        config_set_spec(false, "azure_blob.sas_url"@, raw, parsed, v) is None,
        config_set_spec(true, "azure_blob.sas_url"@, raw, parsed, v) matches Some((w, env)) && get_path(
            w,
            key_path("azure_blob.sas_url"@),
        ) is None && env == Some((sas_env_for(v), raw)),
{
    crate::text::lemma_split_on_len("azure_blob.sas_url"@, '.');
    crate::json::lemma_get_after_remove(
        set_path(v, key_path("azure_blob.sas_url_env"@), JsonView::Str(sas_env_for(v))),
        key_path("azure_blob.sas_url"@),
    );
}

} // verus!
