//! Providers and the typed configuration read from `.now.json` and the
//! global settings file.
use crate::json::{
    find_member, get_path, key_path, lemma_members_view, lookup, members_view, set_path, JsonValue,
    JsonView,
};
use crate::number::{decimal_text, i64_text, parse_i64, parse_i64_spec};
use crate::provider::{lemma_views_push, views};
use crate::text::{
    chars_of, contains, ends_with, is_blank, lower, lowered, push_char, push_str, starts_with,
    str_contains, str_ends_with, str_eq, trim, trimmed,
};
use vstd::prelude::*;

verus! {

/// The deployment targets.
#[derive(Debug, Clone, Copy, PartialEq, Eq, Structural)]
pub enum ProviderKind {
    Firebase,
    AzureBlob,
    AzureSwa,
    Ftp,
}

/// The name a provider is stored under in configuration files.
pub open spec fn provider_name(p: ProviderKind) -> Seq<char> {
    match p {
        ProviderKind::Firebase => "firebase-hosting"@,
        ProviderKind::AzureBlob => "azure-storage-blob"@,
        ProviderKind::AzureSwa => "azure-static-web-app"@,
        ProviderKind::Ftp => "any-website-ftp"@,
    }
}

/// The name a provider is shown under.
pub open spec fn provider_display_name(p: ProviderKind) -> Seq<char> {
    match p {
        ProviderKind::Firebase => "Firebase Hosting"@,
        ProviderKind::AzureBlob => "Azure Storage Blob"@,
        ProviderKind::AzureSwa => "Azure Static Web App"@,
        ProviderKind::Ftp => "Any Website (FTP)"@,
    }
}

/// The spellings, in lower case, that name each provider: the stored
/// name, the display name and the older short names.
pub open spec fn provider_of_lowered(s: Seq<char>) -> Option<ProviderKind> {
    if s == "firebase-hosting"@ || s == "firebase hosting"@ || s == "firebase"@ {
        Some(ProviderKind::Firebase)
    } else if s == "azure-storage-blob"@ || s == "azure storage blob"@ || s == "azure-blob"@ || s
        == "azure_blob"@ {
        Some(ProviderKind::AzureBlob)
    } else if s == "azure-static-web-app"@ || s == "azure static web app"@ || s == "azure-swa"@
        || s == "azure_swa"@ {
        Some(ProviderKind::AzureSwa)
    } else if s == "any-website-ftp"@ || s == "any website (ftp)"@ || s == "any website ftp"@
        || s == "ftp"@ {
        Some(ProviderKind::Ftp)
    } else {
        None
    }
}

/// The provider a user-given name denotes: surrounding whitespace and
/// ASCII case do not matter.
pub open spec fn parse_provider_name(s: Seq<char>) -> Option<ProviderKind> {
    provider_of_lowered(lower(trim(s)))
}

pub fn provider_of_lowered_exec(s: &str) -> (r: Option<ProviderKind>)
    ensures
        r == provider_of_lowered(s@),
{
    if str_eq(s, "firebase-hosting") || str_eq(s, "firebase hosting") || str_eq(s, "firebase") {
        Some(ProviderKind::Firebase)
    } else if str_eq(s, "azure-storage-blob") || str_eq(s, "azure storage blob") || str_eq(
        s,
        "azure-blob",
    ) || str_eq(s, "azure_blob") {
        Some(ProviderKind::AzureBlob)
    } else if str_eq(s, "azure-static-web-app") || str_eq(s, "azure static web app") || str_eq(
        s,
        "azure-swa",
    ) || str_eq(s, "azure_swa") {
        Some(ProviderKind::AzureSwa)
    } else if str_eq(s, "any-website-ftp") || str_eq(s, "any website (ftp)") || str_eq(
        s,
        "any website ftp",
    ) || str_eq(s, "ftp") {
        Some(ProviderKind::Ftp)
    } else {
        None
    }
}

impl ProviderKind {
    /// The name stored in configuration files.
    pub fn as_str(self) -> (r: &'static str)
        ensures
            r@ == provider_name(self),
    {
        match self {
            ProviderKind::Firebase => "firebase-hosting",
            ProviderKind::AzureBlob => "azure-storage-blob",
            ProviderKind::AzureSwa => "azure-static-web-app",
            ProviderKind::Ftp => "any-website-ftp",
        }
    }

    /// The name shown to users.
    pub fn display_name(self) -> (r: &'static str)
        ensures
            r@ == provider_display_name(self),
    {
        match self {
            ProviderKind::Firebase => "Firebase Hosting",
            ProviderKind::AzureBlob => "Azure Storage Blob",
            ProviderKind::AzureSwa => "Azure Static Web App",
            ProviderKind::Ftp => "Any Website (FTP)",
        }
    }

    /// The provider a name denotes, if any.
    pub fn parse(value: &str) -> (r: Option<ProviderKind>)
        ensures
            r == parse_provider_name(value@),
    {
        let t = trimmed(value);
        let l = lowered(t.as_str());
        provider_of_lowered_exec(l.as_str())
    }
}

/// Settings for Firebase Hosting.
#[derive(Debug)]
pub struct FirebaseConfig {
    pub project: Option<String>,
    pub site: Option<String>,
    pub base_url: Option<String>,
}

/// Settings for Azure Storage Blob.
#[derive(Debug)]
pub struct AzureBlobConfig {
    pub account: Option<String>,
    pub container: Option<String>,
    pub destination_path: Option<String>,
    pub overwrite: Option<bool>,
    pub base_url: Option<String>,
    pub sas_url: Option<String>,
    pub sas_url_env: Option<String>,
    pub prefix: Option<String>,
}

/// Settings for Azure Static Web Apps.
#[derive(Debug)]
pub struct AzureSwaConfig {
    pub app_name: Option<String>,
    pub environment: Option<String>,
    pub deployment_token_env: Option<String>,
    pub base_url: Option<String>,
}

/// Settings for FTP uploads.
#[derive(Debug)]
pub struct FtpConfig {
    pub host: Option<String>,
    pub remote_dir: Option<String>,
    pub username_env: Option<String>,
    pub password_env: Option<String>,
    pub base_url: Option<String>,
}

/// The merged configuration.
#[derive(Debug)]
pub struct NowConfig {
    pub provider: Option<ProviderKind>,
    pub source: Option<String>,
    pub base_url: Option<String>,
    pub default_url: Option<String>,
    pub move_publishable_files_to_public: Option<bool>,
    pub firebase: FirebaseConfig,
    pub azure_blob: AzureBlobConfig,
    pub azure_swa: AzureSwaConfig,
    pub ftp: FtpConfig,
}

impl Default for FirebaseConfig {
    fn default() -> (r: Self)
        ensures
            r.project is None,
            r.site is None,
            r.base_url is None,
    {
        FirebaseConfig { project: None, site: None, base_url: None }
    }
}

impl Default for AzureBlobConfig {
    fn default() -> (r: Self)
        ensures
            r.account is None,
            r.container is None,
            r.destination_path is None,
            r.overwrite is None,
            r.base_url is None,
            r.sas_url is None,
            r.sas_url_env is None,
            r.prefix is None,
    {
        AzureBlobConfig {
            account: None,
            container: None,
            destination_path: None,
            overwrite: None,
            base_url: None,
            sas_url: None,
            sas_url_env: None,
            prefix: None,
        }
    }
}

impl Default for AzureSwaConfig {
    fn default() -> (r: Self)
        ensures
            r.app_name is None,
            r.environment is None,
            r.deployment_token_env is None,
            r.base_url is None,
    {
        AzureSwaConfig { app_name: None, environment: None, deployment_token_env: None, base_url: None }
    }
}

impl Default for FtpConfig {
    fn default() -> (r: Self)
        ensures
            r.host is None,
            r.remote_dir is None,
            r.username_env is None,
            r.password_env is None,
            r.base_url is None,
    {
        FtpConfig { host: None, remote_dir: None, username_env: None, password_env: None, base_url: None }
    }
}

/// Whether every field of the configuration is unset.
pub open spec fn config_is_empty(c: NowConfig) -> bool {
    &&& c.provider is None
    &&& c.source is None
    &&& c.base_url is None
    &&& c.default_url is None
    &&& c.move_publishable_files_to_public is None
    &&& c.firebase.project is None && c.firebase.site is None && c.firebase.base_url is None
    &&& c.azure_blob.account is None && c.azure_blob.container is None
    &&& c.azure_blob.destination_path is None && c.azure_blob.overwrite is None
    &&& c.azure_blob.base_url is None && c.azure_blob.sas_url is None
    &&& c.azure_blob.sas_url_env is None && c.azure_blob.prefix is None
    &&& c.azure_swa.app_name is None && c.azure_swa.environment is None
    &&& c.azure_swa.deployment_token_env is None && c.azure_swa.base_url is None
    &&& c.ftp.host is None && c.ftp.remote_dir is None && c.ftp.username_env is None
    &&& c.ftp.password_env is None && c.ftp.base_url is None
}

impl Default for NowConfig {
    fn default() -> (r: Self)
        ensures
            config_is_empty(r),
    {
        NowConfig {
            provider: None,
            source: None,
            base_url: None,
            default_url: None,
            move_publishable_files_to_public: None,
            firebase: FirebaseConfig::default(),
            azure_blob: AzureBlobConfig::default(),
            azure_swa: AzureSwaConfig::default(),
            ftp: FtpConfig::default(),
        }
    }
}

/// A text, or the empty text.
pub open spec fn opt_or_empty(o: Option<Seq<char>>) -> Seq<char> {
    match o {
        Some(s) => s,
        None => Seq::<char>::empty(),
    }
}

/// The view of an optional string.
pub open spec fn opt_view(o: Option<String>) -> Option<Seq<char>> {
    match o {
        Some(s) => Some(s@),
        None => None,
    }
}

/// The base URL configured for a provider's own section.
pub open spec fn provider_section_base_url(c: NowConfig, p: ProviderKind) -> Option<Seq<char>> {
    match p {
        ProviderKind::Firebase => opt_view(c.firebase.base_url),
        ProviderKind::AzureBlob => opt_view(c.azure_blob.base_url),
        ProviderKind::AzureSwa => opt_view(c.azure_swa.base_url),
        ProviderKind::Ftp => opt_view(c.ftp.base_url),
    }
}

/// The top-level `base_url` if set, else the provider's own; a blank value
/// counts as none.
pub open spec fn base_url_for(c: NowConfig, p: ProviderKind) -> Option<Seq<char>> {
    let chosen = match c.base_url {
        Some(s) => Some(s@),
        None => provider_section_base_url(c, p),
    };
    match chosen {
        Some(s) => if trim(s).len() > 0 {
            Some(s)
        } else {
            None
        },
        None => None,
    }
}

fn opt_str(o: &Option<String>) -> (r: Option<&str>)
    ensures
        match r {
            Some(s) => opt_view(*o) == Some(s@),
            None => o is None,
        },
{
    match o {
        Some(s) => Some(s.as_str()),
        None => None,
    }
}

impl NowConfig {
    /// The base URL that published pages live under.
    pub fn provider_base_url(&self, provider: ProviderKind) -> (r: Option<&str>)
        ensures
            match r {
                Some(s) => base_url_for(*self, provider) == Some(s@),
                None => base_url_for(*self, provider) is None,
            },
    {
        let chosen = match &self.base_url {
            Some(s) => Some(s.as_str()),
            None => match provider {
                ProviderKind::Firebase => opt_str(&self.firebase.base_url),
                ProviderKind::AzureBlob => opt_str(&self.azure_blob.base_url),
                ProviderKind::AzureSwa => opt_str(&self.azure_swa.base_url),
                ProviderKind::Ftp => opt_str(&self.ftp.base_url),
            },
        };
        match chosen {
            Some(s) => if is_blank(s) {
                None
            } else {
                Some(s)
            },
            None => None,
        }
    }
}


// ---------------------------------------------------------------------
// Secret-like keys.
// ---------------------------------------------------------------------
/// A key that names a secret: in ASCII lower case it holds `password`,
/// `secret`, `token` or an account key, and does not end in `_env`, `.env`
/// or `-env` (those name an environment variable instead).
pub open spec fn secret_key_spec(key: Seq<char>) -> bool {
    let l = lower(key);
    &&& !(ends_with(l, "_env"@) || ends_with(l, ".env"@) || ends_with(l, "-env"@))
    &&& (contains(l, "password"@) || contains(l, "secret"@) || contains(l, "token"@) || contains(
        l,
        "account_key"@,
    ) || contains(l, "account-key"@) || contains(l, "accountkey"@))
}

/// Whether a dotted key names a secret.
pub fn is_secret_key(key: &str) -> (r: bool)
    ensures
        r == secret_key_spec(key@),
{
    let l = lowered(key);
    let ls = l.as_str();
    if str_ends_with(ls, "_env") || str_ends_with(ls, ".env") || str_ends_with(ls, "-env") {
        return false;
    }
    str_contains(ls, "password") || str_contains(ls, "secret") || str_contains(ls, "token")
        || str_contains(ls, "account_key") || str_contains(ls, "account-key") || str_contains(
        ls,
        "accountkey",
    )
}

/// The dotted path of a member named `key` under `prefix`.
pub open spec fn child_path(prefix: Seq<char>, key: Seq<char>) -> Seq<char> {
    if prefix.len() == 0 {
        key
    } else {
        prefix + seq!['.'] + key
    }
}

/// The dotted paths, in document order, of the secret-like members with a
/// value other than `null`, below `prefix`.
pub open spec fn secret_paths_in(prefix: Seq<char>, v: JsonView) -> Seq<Seq<char>>
    decreases v,
{
    match v {
        JsonView::Object(m) => secret_paths_members(prefix, m),
        _ => Seq::<Seq<char>>::empty(),
    }
}

pub open spec fn secret_paths_members(prefix: Seq<char>, m: Seq<(Seq<char>, JsonView)>) -> Seq<
    Seq<char>,
>
    decreases m,
{
    if m.len() == 0 {
        Seq::<Seq<char>>::empty()
    } else {
        let (k, c) = m.last();
        let path = child_path(prefix, k);
        let own = if secret_key_spec(path) && !(c is Null) {
            seq![path]
        } else {
            Seq::<Seq<char>>::empty()
        };
        secret_paths_members(prefix, m.drop_last()) + own + secret_paths_in(path, c)
    }
}

fn child_path_exec(prefix: &str, key: &str) -> (r: String)
    ensures
        r@ == child_path(prefix@, key@),
{
    let pv = chars_of(prefix);
    if pv.len() == 0 {
        key.to_owned()
    } else {
        let mut s = prefix.to_owned();
        push_char(&mut s, '.');
        push_str(&mut s, key);
        s
    }
}

fn collect_secret_paths(prefix: &str, value: &JsonValue, out: &mut Vec<String>)
    ensures
        views(final(out)@) == views(old(out)@) + secret_paths_in(prefix@, value@),
    decreases value@,
{
    match value {
        JsonValue::Object(m) => {
            proof {
                lemma_members_view(m@);
            }
            let ghost mv = members_view(m@);
            let ghost out0 = views(out@);
            let mut i: usize = 0;
            assert(mv.take(0) =~= Seq::<(Seq<char>, JsonView)>::empty());
            assert(out0 + Seq::<Seq<char>>::empty() =~= out0);
            while i < m.len()
                invariant
                    i <= m@.len(),
                    mv == members_view(m@),
                    mv.len() == m@.len(),
                    forall|j: int| 0 <= j < m@.len() ==> #[trigger] mv[j] == (m@[j].0@, m@[j].1@),
                    value@ == JsonView::Object(mv),
                    views(out@) == out0 + secret_paths_members(prefix@, mv.take(i as int)),
                decreases m@.len() - i,
            {
                let key = &m[i].0;
                let child = &m[i].1;
                let path = child_path_exec(prefix, key.as_str());
                assert(mv.take(i + 1).drop_last() =~= mv.take(i as int));
                assert(mv.take(i + 1).last() == mv[i as int]);
                let ghost before = views(out@);
                let not_null = match child {
                    JsonValue::Null => false,
                    _ => true,
                };
                let ghost own: Seq<Seq<char>> = if secret_key_spec(path@) && !(child@ is Null) {
                    seq![path@]
                } else {
                    Seq::<Seq<char>>::empty()
                };
                if not_null && is_secret_key(path.as_str()) {
                    proof {
                        lemma_views_push(out@, path);
                    }
                    out.push(path.clone());
                }
                assert(views(out@) =~= before + own);
                let ghost whole = JsonView::Object(mv);
                assert(whole->Object_0 == mv);
                assert(decreases_to!(whole => mv));
                assert(decreases_to!(mv => mv[i as int]));
                assert(decreases_to!(mv[i as int] => mv[i as int].1));
                collect_secret_paths(path.as_str(), child, out);
                i = i + 1;
                assert(views(out@) =~= out0 + secret_paths_members(prefix@, mv.take(i as int)));
            }
            assert(mv.take(m@.len() as int) =~= mv);
        },
        _ => {
            assert(views(out@) =~= views(out@) + Seq::<Seq<char>>::empty());
        },
    }
}

/// The dotted paths of the secret-like keys that hold a value.
pub fn secret_paths(value: &JsonValue) -> (r: Vec<String>)
    ensures
        views(r@) == secret_paths_in(Seq::<char>::empty(), value@),
{
    let mut out: Vec<String> = Vec::new();
    assert(views(out@) =~= Seq::<Seq<char>>::empty());
    collect_secret_paths("", value, &mut out);
    proof {
        reveal_strlit("");
    }
    assert(""@ =~= Seq::<char>::empty());
    assert(views(out@) =~= secret_paths_in(Seq::<char>::empty(), value@));
    out
}


// ---------------------------------------------------------------------
// Errors.
// ---------------------------------------------------------------------
/// Why a configuration value was refused.
#[derive(Debug)]
pub enum ConfigError {
    /// The configuration holds secret-like keys with values; their paths.
    SecretKeys(Vec<String>),
    /// A field has a value of the wrong type, or the whole value is not an
    /// object.
    Malformed,
    /// `config set` was given a blank key.
    EmptyKey,
    /// `config set` was given a secret-like key.
    SecretKey(String),
    /// A dotted key with an empty segment.
    EmptySegment(String),
    /// A configuration file that does not hold a JSON object.
    NotAnObject,
    /// A configuration file that is not JSON.
    InvalidJson,
    /// No directory for the global configuration could be found.
    NoHomeDirectory,
}

/// The message shown for a refused configuration value.
pub open spec fn config_error_text(e: ConfigError) -> Seq<char> {
    match e {
        ConfigError::SecretKeys(paths) => "configuration contains secret-like keys; use provider login state or environment variables instead: "@
            + crate::text::join(views(paths@), ", "@),
        ConfigError::Malformed => "failed to deserialize config"@,
        ConfigError::EmptyKey => "config key cannot be empty"@,
        ConfigError::SecretKey(k) => "refusing to write secret-like config key: "@ + k@,
        ConfigError::EmptySegment(k) => "config key contains an empty path segment: "@ + k@,
        ConfigError::NotAnObject => "config file must contain a JSON object"@,
        ConfigError::InvalidJson => "failed to parse JSON config"@,
        ConfigError::NoHomeDirectory => "cannot resolve home directory for global config"@,
    }
}

impl ConfigError {
    /// The message shown to the user.
    pub fn message(&self) -> (r: String)
        ensures
            r@ == config_error_text(*self),
    {
        match self {
            ConfigError::SecretKeys(paths) => {
                let mut m =
                    "configuration contains secret-like keys; use provider login state or environment variables instead: ".to_owned();
                let list = crate::provider::join_strings(paths, ", ");
                push_str(&mut m, list.as_str());
                m
            },
            ConfigError::Malformed => "failed to deserialize config".to_owned(),
            ConfigError::EmptyKey => "config key cannot be empty".to_owned(),
            ConfigError::SecretKey(k) => {
                let mut m = "refusing to write secret-like config key: ".to_owned();
                push_str(&mut m, k.as_str());
                m
            },
            ConfigError::EmptySegment(k) => {
                let mut m = "config key contains an empty path segment: ".to_owned();
                push_str(&mut m, k.as_str());
                m
            },
            ConfigError::NotAnObject => "config file must contain a JSON object".to_owned(),
            ConfigError::InvalidJson => "failed to parse JSON config".to_owned(),
            ConfigError::NoHomeDirectory => "cannot resolve home directory for global config".to_owned(),
        }
    }
}


// ---------------------------------------------------------------------
// Reading the typed configuration from its JSON value.
// ---------------------------------------------------------------------
/// An optional string field: `Some(None)` when missing or `null`, `None`
/// when it holds another type.
pub open spec fn str_field(m: Seq<(Seq<char>, JsonView)>, k: Seq<char>) -> Option<Option<Seq<char>>> {
    match lookup(m, k) {
        None => Some(None),
        Some(JsonView::Null) => Some(None),
        Some(JsonView::Str(s)) => Some(Some(s)),
        Some(_) => None,
    }
}

/// An optional boolean field, read as [`str_field`] reads a string.
pub open spec fn bool_field(m: Seq<(Seq<char>, JsonView)>, k: Seq<char>) -> Option<Option<bool>> {
    match lookup(m, k) {
        None => Some(None),
        Some(JsonView::Null) => Some(None),
        Some(JsonView::Bool(b)) => Some(Some(b)),
        Some(_) => None,
    }
}

/// The optional `provider` field: a string must name a provider.
pub open spec fn provider_field(m: Seq<(Seq<char>, JsonView)>) -> Option<Option<ProviderKind>> {
    match lookup(m, "provider"@) {
        None => Some(None),
        Some(JsonView::Null) => Some(None),
        Some(JsonView::Str(s)) => match parse_provider_name(s) {
            Some(p) => Some(Some(p)),
            None => None,
        },
        Some(_) => None,
    }
}

/// The members of a section: none when missing, `None` when it is not an
/// object.
pub open spec fn section(m: Seq<(Seq<char>, JsonView)>, k: Seq<char>) -> Option<
    Seq<(Seq<char>, JsonView)>,
> {
    match lookup(m, k) {
        None => Some(Seq::<(Seq<char>, JsonView)>::empty()),
        Some(JsonView::Object(s)) => Some(s),
        Some(_) => None,
    }
}

pub open spec fn firebase_from(c: FirebaseConfig, s: Seq<(Seq<char>, JsonView)>) -> bool {
    &&& str_field(s, "project"@) == Some(opt_view(c.project))
    &&& str_field(s, "site"@) == Some(opt_view(c.site))
    &&& str_field(s, "base_url"@) == Some(opt_view(c.base_url))
}

pub open spec fn firebase_valid(s: Seq<(Seq<char>, JsonView)>) -> bool {
    &&& str_field(s, "project"@) is Some
    &&& str_field(s, "site"@) is Some
    &&& str_field(s, "base_url"@) is Some
}

pub open spec fn azure_blob_from(c: AzureBlobConfig, s: Seq<(Seq<char>, JsonView)>) -> bool {
    &&& str_field(s, "account"@) == Some(opt_view(c.account))
    &&& str_field(s, "container"@) == Some(opt_view(c.container))
    &&& str_field(s, "destination_path"@) == Some(opt_view(c.destination_path))
    &&& bool_field(s, "overwrite"@) == Some(c.overwrite)
    &&& str_field(s, "base_url"@) == Some(opt_view(c.base_url))
    &&& str_field(s, "sas_url"@) == Some(opt_view(c.sas_url))
    &&& str_field(s, "sas_url_env"@) == Some(opt_view(c.sas_url_env))
    &&& str_field(s, "prefix"@) == Some(opt_view(c.prefix))
}

pub open spec fn azure_blob_valid(s: Seq<(Seq<char>, JsonView)>) -> bool {
    &&& str_field(s, "account"@) is Some
    &&& str_field(s, "container"@) is Some
    &&& str_field(s, "destination_path"@) is Some
    &&& bool_field(s, "overwrite"@) is Some
    &&& str_field(s, "base_url"@) is Some
    &&& str_field(s, "sas_url"@) is Some
    &&& str_field(s, "sas_url_env"@) is Some
    &&& str_field(s, "prefix"@) is Some
}

pub open spec fn azure_swa_from(c: AzureSwaConfig, s: Seq<(Seq<char>, JsonView)>) -> bool {
    &&& str_field(s, "app_name"@) == Some(opt_view(c.app_name))
    &&& str_field(s, "environment"@) == Some(opt_view(c.environment))
    &&& str_field(s, "deployment_token_env"@) == Some(opt_view(c.deployment_token_env))
    &&& str_field(s, "base_url"@) == Some(opt_view(c.base_url))
}

pub open spec fn azure_swa_valid(s: Seq<(Seq<char>, JsonView)>) -> bool {
    &&& str_field(s, "app_name"@) is Some
    &&& str_field(s, "environment"@) is Some
    &&& str_field(s, "deployment_token_env"@) is Some
    &&& str_field(s, "base_url"@) is Some
}

pub open spec fn ftp_from(c: FtpConfig, s: Seq<(Seq<char>, JsonView)>) -> bool {
    &&& str_field(s, "host"@) == Some(opt_view(c.host))
    &&& str_field(s, "remote_dir"@) == Some(opt_view(c.remote_dir))
    &&& str_field(s, "username_env"@) == Some(opt_view(c.username_env))
    &&& str_field(s, "password_env"@) == Some(opt_view(c.password_env))
    &&& str_field(s, "base_url"@) == Some(opt_view(c.base_url))
}

pub open spec fn ftp_valid(s: Seq<(Seq<char>, JsonView)>) -> bool {
    &&& str_field(s, "host"@) is Some
    &&& str_field(s, "remote_dir"@) is Some
    &&& str_field(s, "username_env"@) is Some
    &&& str_field(s, "password_env"@) is Some
    &&& str_field(s, "base_url"@) is Some
}

/// Whether a JSON value can be read as a configuration: an object whose
/// known fields have their types (unknown fields are ignored).
pub open spec fn config_valid(v: JsonView) -> bool {
    match v {
        JsonView::Object(m) => {
            &&& provider_field(m) is Some
            &&& str_field(m, "source"@) is Some
            &&& str_field(m, "base_url"@) is Some
            &&& str_field(m, "default_url"@) is Some
            &&& bool_field(m, "move_publishable_files_to_public"@) is Some
            &&& section(m, "firebase"@) matches Some(s) && firebase_valid(s)
            &&& section(m, "azure_blob"@) matches Some(s) && azure_blob_valid(s)
            &&& section(m, "azure_swa"@) matches Some(s) && azure_swa_valid(s)
            &&& section(m, "ftp"@) matches Some(s) && ftp_valid(s)
        },
        _ => false,
    }
}

/// Whether `c` is what the JSON value `v` reads as.
pub open spec fn config_from(c: NowConfig, v: JsonView) -> bool {
    match v {
        JsonView::Object(m) => {
            &&& provider_field(m) == Some(c.provider)
            &&& str_field(m, "source"@) == Some(opt_view(c.source))
            &&& str_field(m, "base_url"@) == Some(opt_view(c.base_url))
            &&& str_field(m, "default_url"@) == Some(opt_view(c.default_url))
            &&& bool_field(m, "move_publishable_files_to_public"@) == Some(
                c.move_publishable_files_to_public,
            )
            &&& section(m, "firebase"@) matches Some(s) && firebase_from(c.firebase, s)
            &&& section(m, "azure_blob"@) matches Some(s) && azure_blob_from(c.azure_blob, s)
            &&& section(m, "azure_swa"@) matches Some(s) && azure_swa_from(c.azure_swa, s)
            &&& section(m, "ftp"@) matches Some(s) && ftp_from(c.ftp, s)
        },
        _ => false,
    }
}

fn read_str(m: &Vec<(String, JsonValue)>, k: &str) -> (r: Option<Option<String>>)
    ensures
        match r {
            Some(o) => str_field(members_view(m@), k@) == Some(opt_view(o)),
            None => str_field(members_view(m@), k@) is None,
        },
{
    proof {
        lemma_members_view(m@);
    }
    match find_member(m, k) {
        None => Some(None),
        Some(j) => match &m[j].1 {
            JsonValue::Null => Some(None),
            JsonValue::Str(s) => Some(Some(s.clone())),
            _ => None,
        },
    }
}

fn read_bool(m: &Vec<(String, JsonValue)>, k: &str) -> (r: Option<Option<bool>>)
    ensures
        r == bool_field(members_view(m@), k@),
{
    proof {
        lemma_members_view(m@);
    }
    match find_member(m, k) {
        None => Some(None),
        Some(j) => match &m[j].1 {
            JsonValue::Null => Some(None),
            JsonValue::Bool(b) => Some(Some(*b)),
            _ => None,
        },
    }
}

fn read_provider(m: &Vec<(String, JsonValue)>) -> (r: Option<Option<ProviderKind>>)
    ensures
        r == provider_field(members_view(m@)),
{
    proof {
        lemma_members_view(m@);
    }
    match find_member(m, "provider") {
        None => Some(None),
        Some(j) => match &m[j].1 {
            JsonValue::Null => Some(None),
            JsonValue::Str(s) => match ProviderKind::parse(s.as_str()) {
                Some(p) => Some(Some(p)),
                None => None,
            },
            _ => None,
        },
    }
}

fn read_section<'a>(m: &'a Vec<(String, JsonValue)>, k: &str) -> (r: Option<
    Option<&'a Vec<(String, JsonValue)>>,
>)
    ensures
        match r {
            Some(Some(s)) => section(members_view(m@), k@) == Some(members_view(s@)),
            Some(None) => section(members_view(m@), k@) == Some(
                Seq::<(Seq<char>, JsonView)>::empty(),
            ),
            None => section(members_view(m@), k@) is None,
        },
{
    proof {
        lemma_members_view(m@);
    }
    match find_member(m, k) {
        None => Some(None),
        Some(j) => match &m[j].1 {
            JsonValue::Object(s) => Some(Some(s)),
            _ => None,
        },
    }
}


fn decode_firebase(s: &Vec<(String, JsonValue)>) -> (r: Option<FirebaseConfig>)
    ensures
        match r {
            Some(c) => firebase_valid(members_view(s@)) && firebase_from(c, members_view(s@)),
            None => !firebase_valid(members_view(s@)),
        },
{
    let project = match read_str(s, "project") {
        Some(x) => x,
        None => return None,
    };
    let site = match read_str(s, "site") {
        Some(x) => x,
        None => return None,
    };
    let base_url = match read_str(s, "base_url") {
        Some(x) => x,
        None => return None,
    };
    Some(FirebaseConfig { project, site, base_url })
}

fn decode_azure_blob(s: &Vec<(String, JsonValue)>) -> (r: Option<AzureBlobConfig>)
    ensures
        match r {
            Some(c) => azure_blob_valid(members_view(s@)) && azure_blob_from(c, members_view(s@)),
            None => !azure_blob_valid(members_view(s@)),
        },
{
    let account = match read_str(s, "account") {
        Some(x) => x,
        None => return None,
    };
    let container = match read_str(s, "container") {
        Some(x) => x,
        None => return None,
    };
    let destination_path = match read_str(s, "destination_path") {
        Some(x) => x,
        None => return None,
    };
    let overwrite = match read_bool(s, "overwrite") {
        Some(x) => x,
        None => return None,
    };
    let base_url = match read_str(s, "base_url") {
        Some(x) => x,
        None => return None,
    };
    let sas_url = match read_str(s, "sas_url") {
        Some(x) => x,
        None => return None,
    };
    let sas_url_env = match read_str(s, "sas_url_env") {
        Some(x) => x,
        None => return None,
    };
    let prefix = match read_str(s, "prefix") {
        Some(x) => x,
        None => return None,
    };
    Some(
        AzureBlobConfig {
            account,
            container,
            destination_path,
            overwrite,
            base_url,
            sas_url,
            sas_url_env,
            prefix,
        },
    )
}

fn decode_azure_swa(s: &Vec<(String, JsonValue)>) -> (r: Option<AzureSwaConfig>)
    ensures
        match r {
            Some(c) => azure_swa_valid(members_view(s@)) && azure_swa_from(c, members_view(s@)),
            None => !azure_swa_valid(members_view(s@)),
        },
{
    let app_name = match read_str(s, "app_name") {
        Some(x) => x,
        None => return None,
    };
    let environment = match read_str(s, "environment") {
        Some(x) => x,
        None => return None,
    };
    let deployment_token_env = match read_str(s, "deployment_token_env") {
        Some(x) => x,
        None => return None,
    };
    let base_url = match read_str(s, "base_url") {
        Some(x) => x,
        None => return None,
    };
    Some(AzureSwaConfig { app_name, environment, deployment_token_env, base_url })
}

fn decode_ftp(s: &Vec<(String, JsonValue)>) -> (r: Option<FtpConfig>)
    ensures
        match r {
            Some(c) => ftp_valid(members_view(s@)) && ftp_from(c, members_view(s@)),
            None => !ftp_valid(members_view(s@)),
        },
{
    let host = match read_str(s, "host") {
        Some(x) => x,
        None => return None,
    };
    let remote_dir = match read_str(s, "remote_dir") {
        Some(x) => x,
        None => return None,
    };
    let username_env = match read_str(s, "username_env") {
        Some(x) => x,
        None => return None,
    };
    let password_env = match read_str(s, "password_env") {
        Some(x) => x,
        None => return None,
    };
    let base_url = match read_str(s, "base_url") {
        Some(x) => x,
        None => return None,
    };
    Some(FtpConfig { host, remote_dir, username_env, password_env, base_url })
}

/// The members of a section, none when it is missing.
fn section_of<'a>(
    m: &'a Vec<(String, JsonValue)>,
    k: &str,
    empty: &'a Vec<(String, JsonValue)>,
) -> (r: Option<&'a Vec<(String, JsonValue)>>)
    requires
        empty@.len() == 0,
    ensures
        match r {
            Some(s) => section(members_view(m@), k@) == Some(members_view(s@)),
            None => section(members_view(m@), k@) is None,
        },
{
    match read_section(m, k) {
        None => None,
        Some(Some(s)) => Some(s),
        Some(None) => {
            assert(members_view(empty@) =~= Seq::<(Seq<char>, JsonView)>::empty());
            Some(empty)
        },
    }
}

fn decode_config(v: &JsonValue) -> (r: Option<NowConfig>)
    ensures
        match r {
            Some(c) => config_valid(v@) && config_from(c, v@),
            None => !config_valid(v@),
        },
{
    let m = match v {
        JsonValue::Object(m) => m,
        _ => return None,
    };
    let empty: Vec<(String, JsonValue)> = Vec::new();
    let provider = match read_provider(m) {
        Some(x) => x,
        None => return None,
    };
    let source = match read_str(m, "source") {
        Some(x) => x,
        None => return None,
    };
    let base_url = match read_str(m, "base_url") {
        Some(x) => x,
        None => return None,
    };
    let default_url = match read_str(m, "default_url") {
        Some(x) => x,
        None => return None,
    };
    let move_publishable_files_to_public = match read_bool(m, "move_publishable_files_to_public") {
        Some(x) => x,
        None => return None,
    };
    let firebase = match section_of(m, "firebase", &empty) {
        Some(sec) => match decode_firebase(sec) {
            Some(c) => c,
            None => return None,
        },
        None => return None,
    };
    let azure_blob = match section_of(m, "azure_blob", &empty) {
        Some(sec) => match decode_azure_blob(sec) {
            Some(c) => c,
            None => return None,
        },
        None => return None,
    };
    let azure_swa = match section_of(m, "azure_swa", &empty) {
        Some(sec) => match decode_azure_swa(sec) {
            Some(c) => c,
            None => return None,
        },
        None => return None,
    };
    let ftp = match section_of(m, "ftp", &empty) {
        Some(sec) => match decode_ftp(sec) {
            Some(c) => c,
            None => return None,
        },
        None => return None,
    };
    Some(
        NowConfig {
            provider,
            source,
            base_url,
            default_url,
            move_publishable_files_to_public,
            firebase,
            azure_blob,
            azure_swa,
            ftp,
        },
    )
}

/// The typed configuration a merged JSON value holds. A value with
/// secret-like keys is refused first, naming them; then one whose known
/// fields have the wrong types.
pub fn parse_config(value: JsonValue) -> (r: Result<NowConfig, ConfigError>)
    ensures
        match r {
            Ok(c) => {
                &&& secret_paths_in(Seq::<char>::empty(), value@).len() == 0
                &&& config_valid(value@)
                &&& config_from(c, value@)
            },
            Err(ConfigError::SecretKeys(paths)) => {
                &&& views(paths@) == secret_paths_in(Seq::<char>::empty(), value@)
                &&& paths@.len() > 0
            },
            Err(ConfigError::Malformed) => {
                &&& secret_paths_in(Seq::<char>::empty(), value@).len() == 0
                &&& !config_valid(value@)
            },
            Err(_) => false,
        },
{
    let paths = secret_paths(&value);
    if paths.len() > 0 {
        return Err(ConfigError::SecretKeys(paths));
    }
    match decode_config(&value) {
        Some(c) => Ok(c),
        None => Err(ConfigError::Malformed),
    }
}


// ---------------------------------------------------------------------
// Writing one key.
// ---------------------------------------------------------------------
/// Whether a dotted key has an empty segment (`a..b`, `.a`, `a.`).
pub open spec fn has_empty_segment(key: Seq<char>) -> bool {
    exists|i: int| 0 <= i < key_path(key).len() && (#[trigger] key_path(key)[i]).len() == 0
}

/// `value` with `new_value` at a dotted key. A blank key, a secret-like
/// key and a key with an empty segment are refused, in that order. The
/// first two leave `value` as it was; on the third, `value` has already
/// been made an object with objects along the names before the first
/// empty one, as the walk down the key leaves it.
pub fn set_key(value: &mut JsonValue, dotted_key: &str, new_value: JsonValue) -> (r: Result<
    (),
    ConfigError,
>)
    ensures
        trim(dotted_key@).len() == 0 ==> r matches Err(ConfigError::EmptyKey),
        trim(dotted_key@).len() > 0 && secret_key_spec(dotted_key@) ==> (r matches Err(
            ConfigError::SecretKey(k),
        ) && k@ == dotted_key@),
        trim(dotted_key@).len() > 0 && !secret_key_spec(dotted_key@) && has_empty_segment(
            dotted_key@,
        ) ==> (r matches Err(ConfigError::EmptySegment(k)) && k@ == dotted_key@),
        (trim(dotted_key@).len() == 0 || secret_key_spec(dotted_key@)) ==> final(value)@ == old(
            value,
        )@,
        r matches Err(ConfigError::EmptySegment(_)) ==> exists|e: int|
            0 <= e < key_path(dotted_key@).len() && (#[trigger] key_path(dotted_key@)[e]).len() == 0
                && (forall|j: int| 0 <= j < e ==> (#[trigger] key_path(dotted_key@)[j]).len() > 0)
                && final(value)@ == crate::json::touch_path(old(value)@, key_path(dotted_key@).take(e)),
        r is Ok <==> (trim(dotted_key@).len() > 0 && !secret_key_spec(dotted_key@)
            && !has_empty_segment(dotted_key@)),
        r is Ok ==> final(value)@ == set_path(old(value)@, key_path(dotted_key@), new_value@),
{
    if is_blank(dotted_key) {
        return Err(ConfigError::EmptyKey);
    }
    if is_secret_key(dotted_key) {
        return Err(ConfigError::SecretKey(dotted_key.to_owned()));
    }
    let parts = crate::json::split_str(dotted_key, '.');
    proof {
        crate::text::lemma_split_on_len(dotted_key@, '.');
    }
    let ghost p = key_path(dotted_key@);
    let mut i: usize = 0;
    while i < parts.len()
        invariant
            i <= parts@.len(),
            views(parts@) == p,
            p == key_path(dotted_key@),
            trim(dotted_key@).len() > 0,
            !secret_key_spec(dotted_key@),
            forall|j: int| 0 <= j < i ==> (#[trigger] p[j]).len() > 0,
            *value == *old(value),
        decreases parts@.len() - i,
    {
        let pv = chars_of(parts[i].as_str());
        assert(p[i as int] == parts@[i as int]@);
        if pv.len() == 0 {
            assert(p[i as int].len() == 0);
            let mut v = JsonValue::Null;
            std::mem::swap(value, &mut v);
            *value = crate::json::touch_path_exec(v, &parts, i);
            assert(p.take(i as int) == views(parts@).take(i as int));
            assert(key_path(dotted_key@)[i as int].len() == 0);
            return Err(ConfigError::EmptySegment(dotted_key.to_owned()));
        }
        i = i + 1;
    }
    let mut v = JsonValue::Null;
    std::mem::swap(value, &mut v);
    *value = crate::json::set_path_exec(v, &parts, new_value);
    Ok(())
}

spec fn index_of_empty(k: Seq<char>) -> bool {
    crate::json::index_of(Seq::<(Seq<char>, JsonView)>::empty(), k) is None
}

/// After a value is written at a path, reading that path gives it back.
pub proof fn lemma_get_after_set(v: JsonView, p: Seq<Seq<char>>, new: JsonView)
    ensures
        get_path(set_path(v, p, new), p) == Some(new),
    decreases p.len(),
{
    let m = crate::json::members_of(v);
    if p.len() == 0 {
    } else if p.len() == 1 {
        crate::json::lemma_lookup_obj_set(m, p[0], new, p[0]);
        assert(p.drop_first().len() == 0);
        assert(get_path(new, p.drop_first()) == Some(new));
        assert(set_path(v, p, new) == JsonView::Object(crate::json::obj_set(m, p[0], new)));
    } else {
        let child = match lookup(m, p[0]) {
            Some(c) => c,
            None => JsonView::Object(Seq::<(Seq<char>, JsonView)>::empty()),
        };
        lemma_get_after_set(child, p.drop_first(), new);
        let sub = set_path(child, p.drop_first(), new);
        crate::json::lemma_lookup_obj_set(m, p[0], sub, p[0]);
        assert(set_path(v, p, new) == JsonView::Object(crate::json::obj_set(m, p[0], sub)));
        assert(get_path(sub, p.drop_first()) == Some(new));
    }
}

/// Writing a value at one path leaves the value at every path that parts
/// from it unchanged.
pub proof fn lemma_set_keeps_other_paths(
    v: JsonView,
    p: Seq<Seq<char>>,
    q: Seq<Seq<char>>,
    new: JsonView,
    i: int,
)
    requires
        0 <= i < p.len(),
        i < q.len(),
        p.take(i) == q.take(i),
        p[i] != q[i],
    ensures
        get_path(set_path(v, p, new), q) == get_path(v, q),
    decreases i,
{
    let m = crate::json::members_of(v);
    if i == 0 {
        if p.len() == 1 {
            crate::json::lemma_lookup_obj_set(m, p[0], new, q[0]);
        } else {
            let child = match lookup(m, p[0]) {
                Some(c) => c,
                None => JsonView::Object(Seq::<(Seq<char>, JsonView)>::empty()),
            };
            crate::json::lemma_lookup_obj_set(m, p[0], set_path(child, p.drop_first(), new), q[0]);
        }
        if !(v is Object) {
            assert(lookup(Seq::<(Seq<char>, JsonView)>::empty(), q[0]) is None);
        }
    } else {
        assert(p[0] == p.take(i)[0]);
        assert(q[0] == q.take(i)[0]);
        assert(p.len() > 1);
        let child = match lookup(m, p[0]) {
            Some(c) => c,
            None => JsonView::Object(Seq::<(Seq<char>, JsonView)>::empty()),
        };
        assert(p.drop_first().take(i - 1) =~= q.drop_first().take(i - 1)) by {
            assert forall|j: int| 0 <= j < i - 1 implies #[trigger] p.drop_first().take(i - 1)[j]
                == q.drop_first().take(i - 1)[j] by {
                assert(p.take(i)[j + 1] == q.take(i)[j + 1]);
            }
        }
        lemma_set_keeps_other_paths(child, p.drop_first(), q.drop_first(), new, i - 1);
        crate::json::lemma_lookup_obj_set(m, p[0], set_path(child, p.drop_first(), new), q[0]);
        assert(q.drop_first().len() > 0);
        assert(index_of_empty(q.drop_first()[0]));
    }
}


// ---------------------------------------------------------------------
// Values given on the command line.
// ---------------------------------------------------------------------
/// `true`, `false` or `null`.
pub open spec fn is_json_word(raw: Seq<char>) -> bool {
    raw == "true"@ || raw == "false"@ || raw == "null"@
}

/// Text that starts like a JSON object, array or string.
pub open spec fn looks_like_json(raw: Seq<char>) -> bool {
    starts_with(raw, "{"@) || starts_with(raw, "["@) || starts_with(raw, "\""@)
}

/// The value `config set` stores for a raw argument, given what the JSON
/// parser made of it: JSON for a JSON word or JSON-looking text that
/// parses, else a decimal `i64` as a number, else the text as a string.
pub open spec fn config_value_spec(raw: Seq<char>, parsed: Option<JsonView>) -> JsonView {
    if (is_json_word(raw) || looks_like_json(raw)) && parsed is Some {
        parsed->0
    } else {
        match parse_i64_spec(raw) {
            Some(n) => JsonView::Number(decimal_text(n)),
            None => JsonView::Str(raw),
        }
    }
}

pub open spec fn opt_json_view(o: Option<JsonValue>) -> Option<JsonView> {
    match o {
        Some(v) => Some(v@),
        None => None,
    }
}

/// The value to store for `raw`; `parsed` is what parsing `raw` as a JSON
/// document gave, if it parsed.
pub fn parse_config_value(raw: &str, parsed: Option<JsonValue>) -> (r: JsonValue)
    ensures
        r@ == config_value_spec(raw@, opt_json_view(parsed)),
{
    let word = str_eq(raw, "true") || str_eq(raw, "false") || str_eq(raw, "null");
    let looks = crate::text::str_starts_with(raw, "{") || crate::text::str_starts_with(raw, "[")
        || crate::text::str_starts_with(raw, "\"");
    if word || looks {
        if let Some(v) = parsed {
            return v;
        }
    }
    match parse_i64(raw) {
        Some(n) => JsonValue::Number(i64_text(n)),
        None => JsonValue::Str(raw.to_owned()),
    }
}

// ---------------------------------------------------------------------
// Defaults and file locations.
// ---------------------------------------------------------------------
/// The configuration that interactive setup starts from, its members in
/// name order as a JSON object map keeps them.
pub open spec fn default_config_view() -> JsonView {
    JsonView::Object(
        seq![
            ("azure_blob"@, JsonView::Object(
                seq![
                    ("account"@, JsonView::Null),
                    ("container"@, JsonView::Str("$web"@)),
                    ("destination_path"@, JsonView::Null),
                ],
            )),
            ("azure_swa"@, JsonView::Object(
                seq![
                    ("deployment_token_env"@, JsonView::Str("SWA_CLI_DEPLOYMENT_TOKEN"@)),
                    ("environment"@, JsonView::Str("production"@)),
                ],
            )),
            ("base_url"@, JsonView::Null),
            ("default_url"@, JsonView::Null),
            ("firebase"@, JsonView::Object(seq![("project"@, JsonView::Null), ("site"@, JsonView::Null)])),
            ("ftp"@, JsonView::Object(
                seq![
                    ("host"@, JsonView::Null),
                    ("password_env"@, JsonView::Str("NOW_FTP_PASSWORD"@)),
                    ("remote_dir"@, JsonView::Str("/"@)),
                    ("username_env"@, JsonView::Str("NOW_FTP_USERNAME"@)),
                ],
            )),
            ("provider"@, JsonView::Null),
            ("source"@, JsonView::Null),
        ],
    )
}

fn object_of(members: Vec<(String, JsonValue)>, target: Ghost<Seq<(Seq<char>, JsonView)>>) -> (r: JsonValue)
    requires
        members@.len() == target@.len(),
        forall|i: int|
            0 <= i < members@.len() ==> (members@[i].0@, members@[i].1@) == #[trigger] target@[i],
    ensures
        r@ == JsonView::Object(target@),
{
    proof {
        crate::json::lemma_members_view_ext(members@, target@);
    }
    JsonValue::Object(members)
}

fn text_value(s: &str) -> (r: JsonValue)
    ensures
        r@ == JsonView::Str(s@),
{
    JsonValue::Str(s.to_owned())
}

/// The configuration that interactive setup starts from, its members in
/// name order as a JSON object map keeps them.
pub fn default_config() -> (r: JsonValue)
    ensures
        r@ == default_config_view(),
{
    let ghost t1 = seq![("project"@, JsonView::Null), ("site"@, JsonView::Null)];
    let firebase = object_of(
        vec![("project".to_owned(), JsonValue::Null), ("site".to_owned(), JsonValue::Null)],
        Ghost(t1),
    );
    let ghost t2 = seq![
                ("account"@, JsonView::Null),
                ("container"@, JsonView::Str("$web"@)),
                ("destination_path"@, JsonView::Null),
            ];
    let azure_blob = object_of(
        vec![
            ("account".to_owned(), JsonValue::Null),
            ("container".to_owned(), text_value("$web")),
            ("destination_path".to_owned(), JsonValue::Null),
        ],
        Ghost(t2),
    );
    let ghost t3 = seq![
                ("deployment_token_env"@, JsonView::Str("SWA_CLI_DEPLOYMENT_TOKEN"@)),
                ("environment"@, JsonView::Str("production"@)),
            ];
    let azure_swa = object_of(
        vec![
            ("deployment_token_env".to_owned(), text_value("SWA_CLI_DEPLOYMENT_TOKEN")),
            ("environment".to_owned(), text_value("production")),
        ],
        Ghost(t3),
    );
    let ghost t4 = seq![
                ("host"@, JsonView::Null),
                ("password_env"@, JsonView::Str("NOW_FTP_PASSWORD"@)),
                ("remote_dir"@, JsonView::Str("/"@)),
                ("username_env"@, JsonView::Str("NOW_FTP_USERNAME"@)),
            ];
    let ftp = object_of(
        vec![
            ("host".to_owned(), JsonValue::Null),
            ("password_env".to_owned(), text_value("NOW_FTP_PASSWORD")),
            ("remote_dir".to_owned(), text_value("/")),
            ("username_env".to_owned(), text_value("NOW_FTP_USERNAME")),
        ],
        Ghost(t4),
    );
    let ghost fv = firebase@;
    let ghost bv = azure_blob@;
    let ghost sv = azure_swa@;
    let ghost tv = ftp@;
    let ghost t5 = seq![
                ("azure_blob"@, bv),
                ("azure_swa"@, sv),
                ("base_url"@, JsonView::Null),
                ("default_url"@, JsonView::Null),
                ("firebase"@, fv),
                ("ftp"@, tv),
                ("provider"@, JsonView::Null),
                ("source"@, JsonView::Null),
            ];
    object_of(
        vec![
            ("azure_blob".to_owned(), azure_blob),
            ("azure_swa".to_owned(), azure_swa),
            ("base_url".to_owned(), JsonValue::Null),
            ("default_url".to_owned(), JsonValue::Null),
            ("firebase".to_owned(), firebase),
            ("ftp".to_owned(), ftp),
            ("provider".to_owned(), JsonValue::Null),
            ("source".to_owned(), JsonValue::Null),
        ],
        Ghost(t5),
    )
}

/// The project's own configuration file: `.now.json` in its root.
pub fn local_config_path(root: &str) -> (r: String)
    ensures
        r@ == crate::paths::join_path(root@, ".now.json"@),
{
    crate::paths::join(root, ".now.json")
}

/// Where the global settings live, given the values of `NOW_CONFIG_HOME`,
/// `XDG_CONFIG_HOME` and the home directory, each as far as it is set.
pub open spec fn global_config_path_spec(
    now_config_home: Option<Seq<char>>,
    xdg_config_home: Option<Seq<char>>,
    home: Option<Seq<char>>,
) -> Option<Seq<char>> {
    match now_config_home {
        Some(c) => Some(crate::paths::join_path(c, "settings.json"@)),
        None => match xdg_config_home {
            Some(x) => Some(crate::paths::join_path(crate::paths::join_path(x, "now"@), "settings.json"@)),
            None => match home {
                Some(h) => Some(
                    crate::paths::join_path(crate::paths::join_path(crate::paths::join_path(h, ".config"@), "now"@), "settings.json"@),
                ),
                None => None,
            },
        },
    }
}

pub open spec fn opt_str_view(o: Option<&str>) -> Option<Seq<char>> {
    match o {
        Some(s) => Some(s@),
        None => None,
    }
}

/// The global settings file: `NOW_CONFIG_HOME/settings.json`, else
/// `XDG_CONFIG_HOME/now/settings.json`, else `~/.config/now/settings.json`.
pub fn global_config_path(
    now_config_home: Option<&str>,
    xdg_config_home: Option<&str>,
    home: Option<&str>,
) -> (r: Result<String, ConfigError>)
    ensures
        match r {
            Ok(p) => global_config_path_spec(
                opt_str_view(now_config_home),
                opt_str_view(xdg_config_home),
                opt_str_view(home),
            ) == Some(p@),
            Err(e) => e is NoHomeDirectory && global_config_path_spec(
                opt_str_view(now_config_home),
                opt_str_view(xdg_config_home),
                opt_str_view(home),
            ) is None,
        },
{
    match now_config_home {
        Some(c) => Ok(crate::paths::join(c, "settings.json")),
        None => match xdg_config_home {
            Some(x) => {
                let d = crate::paths::join(x, "now");
                Ok(crate::paths::join(d.as_str(), "settings.json"))
            },
            None => match home {
                Some(h) => {
                    let a = crate::paths::join(h, ".config");
                    let b = crate::paths::join(a.as_str(), "now");
                    Ok(crate::paths::join(b.as_str(), "settings.json"))
                },
                None => Err(ConfigError::NoHomeDirectory),
            },
        },
    }
}


// ---------------------------------------------------------------------
// Configuration files.
// ---------------------------------------------------------------------
/// The value a configuration file holds. `text` is the file's contents,
/// `None` when there is no file; `parsed` is what parsing `text` as a JSON
/// document gave, if it parsed. A missing or blank file holds an empty
/// object; anything else must be a JSON object.
pub fn json_file_value(text: Option<&str>, parsed: Option<JsonValue>) -> (r: Result<
    JsonValue,
    ConfigError,
>)
    ensures
        match text {
            None => r matches Ok(v) && v@ == JsonView::Object(Seq::empty()),
            Some(t) => if trim(t@).len() == 0 {
                r matches Ok(v) && v@ == JsonView::Object(Seq::empty())
            } else {
                match parsed {
                    None => r matches Err(ConfigError::InvalidJson),
                    Some(p) => if p@ is Object {
                        r matches Ok(v) && v@ == p@
                    } else {
                        r matches Err(ConfigError::NotAnObject)
                    },
                }
            },
        },
{
    let empty = JsonValue::Object(Vec::new());
    assert(empty@ =~= JsonView::Object(Seq::empty()));
    match text {
        None => Ok(empty),
        Some(t) => if is_blank(t) {
            Ok(empty)
        } else {
            match parsed {
                None => Err(ConfigError::InvalidJson),
                Some(p) => match p {
                    JsonValue::Object(_) => Ok(p),
                    _ => Err(ConfigError::NotAnObject),
                },
            }
        },
    }
}

/// The local file merged over the global one, with the provider given on
/// the command line, if any, written over both.
pub open spec fn merged_config_spec(
    global: JsonView,
    local: JsonView,
    cli_provider: Option<ProviderKind>,
) -> JsonView {
    let merged = crate::json::merge_spec(global, local);
    match cli_provider {
        Some(p) => set_path(merged, seq!["provider"@], JsonView::Str(provider_name(p))),
        None => merged,
    }
}

/// The configuration in force: `local` merged over `global`, and the
/// provider given on the command line over both.
pub fn merged_config_value(global: JsonValue, local: JsonValue, cli_provider: Option<
    ProviderKind,
>) -> (r: JsonValue)
    ensures
        r@ == merged_config_spec(global@, local@, cli_provider),
{
    let mut merged = global;
    crate::json::merge_values(&mut merged, local);
    if let Some(provider) = cli_provider {
        let parts = vec!["provider".to_owned()];
        assert(views(parts@) =~= seq!["provider"@]);
        let name = provider.as_str().to_owned();
        merged = crate::json::set_path_exec(merged, &parts, JsonValue::Str(name));
    }
    merged
}


/// The provider named on the command line wins over what both files say.
pub proof fn lemma_cli_provider_wins(global: JsonView, local: JsonView, p: ProviderKind)
    ensures
        get_path(merged_config_spec(global, local, Some(p)), seq!["provider"@]) == Some(
            JsonView::Str(provider_name(p)),
        ),
{
    lemma_get_after_set(
        crate::json::merge_spec(global, local),
        seq!["provider"@],
        JsonView::Str(provider_name(p)),
    );
}


/// Without a top-level `base_url`, pages are published under the
/// `base_url` of the deploying provider's own section, when that holds
/// more than blanks: `firebase.base_url` for Firebase Hosting,
/// `azure_blob.base_url` for Azure Storage Blob, `azure_swa.base_url` for
/// Azure Static Web App, `ftp.base_url` for FTP.
pub proof fn lemma_base_url_from_provider_section(c: NowConfig, p: ProviderKind, url: Seq<char>)
    requires
        c.base_url is None,
        trim(url).len() > 0,
        p == ProviderKind::Firebase ==> (c.firebase.base_url matches Some(u) && u@ == url),
        p == ProviderKind::AzureBlob ==> (c.azure_blob.base_url matches Some(u) && u@ == url),
        p == ProviderKind::AzureSwa ==> (c.azure_swa.base_url matches Some(u) && u@ == url),
        p == ProviderKind::Ftp ==> (c.ftp.base_url matches Some(u) && u@ == url),
    ensures
        base_url_for(c, p) == Some(url),
{
}

/// A top-level `base_url` that holds more than blanks is used for every
/// provider, whatever the sections say.
pub proof fn lemma_top_level_base_url_wins(c: NowConfig, p: ProviderKind, url: Seq<char>)
    requires
        c.base_url matches Some(u) && u@ == url,
        trim(url).len() > 0,
    ensures
        base_url_for(c, p) == Some(url),
{
}

} // verus!
