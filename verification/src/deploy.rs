//! What a deployment decides: which directory is published and how it was
//! found, which provider runs, what happens to a bare project directory,
//! which URL is reported, and the summary printed at the end.
use crate::azure_blob::{public_base_url, public_blob_url_for_relative_path, public_base_url_spec,
    public_blob_url_spec, extension_spec};
use crate::config::{base_url_for, opt_str_view, opt_view, provider_display_name, NowConfig,
    ProviderKind};
use crate::env_file::EnvFile;
use crate::paths::{components, join, join_path, path_components, Comp, PathComponent};
use crate::json::{JsonValue, JsonView};
use crate::provider::views;
use crate::text::{chars_of, is_blank, lower, push_str, str_eq, trim, trimmed};
use vstd::prelude::*;

verus! {

/// What `now deploy` was asked to do.
#[derive(Debug)]
pub struct DeployRequest {
    pub cwd: String,
    pub path: Option<String>,
    pub source: Option<String>,
    pub path_was_explicit: bool,
    pub provider: Option<ProviderKind>,
    pub prefix: Option<String>,
    pub remote_dir: Option<String>,
    pub dry_run: bool,
    pub json: bool,
    pub verbose: bool,
}

/// How the published directory was chosen.
#[derive(Debug, Clone, Copy, PartialEq, Eq, Structural)]
pub enum SourceMode {
    ExplicitPath,
    ConfiguredSource,
    AutoDetected,
    CurrentDirectoryWithExcludes,
    PublicDirectoryCreated,
}

/// The published directory and how it was chosen.
#[derive(Debug)]
pub struct SourceSelection {
    pub project_root: String,
    pub source: String,
    pub mode: SourceMode,
    pub excludes_enabled: bool,
}

/// Why a deployment stops before it starts.
#[derive(Debug)]
pub enum DeployError {
    /// An explicit path was asked for but none was given.
    MissingExplicitPath,
    /// The chosen source is not a directory; its path.
    NotADirectory(String),
    /// No provider is configured and none can be asked for.
    ProviderNotConfigured,
    /// First-time setup ended without a provider.
    ProviderMissingAfterSetup,
}

// ---------------------------------------------------------------------
// Paths.
// ---------------------------------------------------------------------
/// `path` taken relative to `root` unless it is absolute.
pub open spec fn resolve_path_spec(root: Seq<char>, path: Seq<char>) -> Seq<char> {
    join_path(root, path)
}

/// `path` taken relative to `root` unless it is absolute.
pub fn resolve_path(root: &str, path: &str) -> (r: String)
    ensures
        r@ == resolve_path_spec(root@, path@),
{
    join(root, path)
}

/// Whether two paths name the same place component by component
/// (`Path`'s `==`).
pub open spec fn same_path(a: Seq<char>, b: Seq<char>) -> bool {
    components(a) == components(b)
}

fn comps_equal(a: &Vec<PathComponent>, b: &Vec<PathComponent>) -> (r: bool)
    ensures
        r == (a@.map_values(|c: PathComponent| c@) == b@.map_values(|c: PathComponent| c@)),
{
    let ghost av = a@.map_values(|c: PathComponent| c@);
    let ghost bv = b@.map_values(|c: PathComponent| c@);
    if a.len() != b.len() {
        assert(av.len() != bv.len());
        return false;
    }
    let mut i: usize = 0;
    while i < a.len()
        invariant
            i <= a@.len(),
            a@.len() == b@.len(),
            av == a@.map_values(|c: PathComponent| c@),
            bv == b@.map_values(|c: PathComponent| c@),
            forall|j: int| 0 <= j < i ==> av[j] == bv[j],
        decreases a@.len() - i,
    {
        let same = match (&a[i], &b[i]) {
            (PathComponent::RootDir, PathComponent::RootDir) => true,
            (PathComponent::CurDir, PathComponent::CurDir) => true,
            (PathComponent::ParentDir, PathComponent::ParentDir) => true,
            (PathComponent::Normal(x), PathComponent::Normal(y)) => str_eq(x.as_str(), y.as_str()),
            _ => false,
        };
        assert(av[i as int] == a@[i as int]@);
        assert(bv[i as int] == b@[i as int]@);
        if !same {
            assert(av[i as int] != bv[i as int]);
            return false;
        }
        i = i + 1;
    }
    assert(av =~= bv);
    true
}

/// Whether two paths name the same place component by component.
pub fn paths_equal(a: &str, b: &str) -> (r: bool)
    ensures
        r == same_path(a@, b@),
{
    let ca = path_components(a);
    let cb = path_components(b);
    comps_equal(&ca, &cb)
}

/// Whether `dirs` lists `p` among the existing directories.
pub open spec fn listed(dirs: Seq<Seq<char>>, p: Seq<char>) -> bool {
    exists|i: int| 0 <= i < dirs.len() && dirs[i] == p
}

fn is_listed(dirs: &Vec<String>, p: &str) -> (r: bool)
    ensures
        r == listed(views(dirs@), p@),
{
    let mut i: usize = 0;
    while i < dirs.len()
        invariant
            i <= dirs@.len(),
            forall|j: int| 0 <= j < i ==> views(dirs@)[j] != p@,
        decreases dirs@.len() - i,
    {
        assert(views(dirs@)[i as int] == dirs@[i as int]@);
        if str_eq(dirs[i].as_str(), p) {
            return true;
        }
        i = i + 1;
    }
    false
}

// ---------------------------------------------------------------------
// Choosing the source directory.
// ---------------------------------------------------------------------
/// The directories tried, in order, when nothing names the source.
pub open spec fn auto_candidates() -> Seq<Seq<char>> {
    seq!["dist"@, "build"@, "public"@]
}

/// A configured source that is set and not blank.
pub open spec fn configured_source(config_source: Option<Seq<char>>) -> Option<Seq<char>> {
    match config_source {
        Some(s) => if trim(s).len() > 0 {
            Some(s)
        } else {
            None
        },
        None => None,
    }
}

/// The outcome of choosing the source, as values.
pub ghost struct SelectionView {
    pub source: Seq<char>,
    pub mode: SourceMode,
    pub excludes_enabled: bool,
}

pub ghost enum SelectionOutcome {
    Selected(SelectionView),
    MissingExplicitPath,
    NotADirectory(Seq<char>),
}

/// The source directory chosen, given which paths are directories
/// (`dirs`): an explicit path, else the configured source, else the first
/// of `dist`, `build` and `public` that exists, else the project root with
/// the runtime files left out. An explicit or configured source must be a
/// directory; so must the project root when it is the source. Runtime
/// files are left out when the source is the project root or is given as
/// `.`.
pub open spec fn select_source_spec(
    root: Seq<char>,
    path: Option<Seq<char>>,
    path_was_explicit: bool,
    config_source: Option<Seq<char>>,
    dirs: Seq<Seq<char>>,
) -> SelectionOutcome {
    if path_was_explicit {
        match path {
            None => SelectionOutcome::MissingExplicitPath,
            Some(p) => {
                let source = resolve_path_spec(root, p);
                if !listed(dirs, source) {
                    SelectionOutcome::NotADirectory(source)
                } else {
                    SelectionOutcome::Selected(
                        SelectionView {
                            source,
                            mode: SourceMode::ExplicitPath,
                            excludes_enabled: same_path(source, root) || same_path(p, "."@),
                        },
                    )
                }
            },
        }
    } else {
        match configured_source(config_source) {
            Some(c) => {
                let source = resolve_path_spec(root, c);
                if !listed(dirs, source) {
                    SelectionOutcome::NotADirectory(source)
                } else {
                    SelectionOutcome::Selected(
                        SelectionView {
                            source,
                            mode: SourceMode::ConfiguredSource,
                            excludes_enabled: same_path(source, root) || same_path(c, "."@),
                        },
                    )
                }
            },
            None => if listed(dirs, join_path(root, "dist"@)) {
                SelectionOutcome::Selected(
                    SelectionView {
                        source: join_path(root, "dist"@),
                        mode: SourceMode::AutoDetected,
                        excludes_enabled: false,
                    },
                )
            } else if listed(dirs, join_path(root, "build"@)) {
                SelectionOutcome::Selected(
                    SelectionView {
                        source: join_path(root, "build"@),
                        mode: SourceMode::AutoDetected,
                        excludes_enabled: false,
                    },
                )
            } else if listed(dirs, join_path(root, "public"@)) {
                SelectionOutcome::Selected(
                    SelectionView {
                        source: join_path(root, "public"@),
                        mode: SourceMode::AutoDetected,
                        excludes_enabled: false,
                    },
                )
            } else if !listed(dirs, root) {
                SelectionOutcome::NotADirectory(root)
            } else {
                SelectionOutcome::Selected(
                    SelectionView {
                        source: root,
                        mode: SourceMode::CurrentDirectoryWithExcludes,
                        excludes_enabled: true,
                    },
                )
            },
        }
    }
}

/// The paths whose being a directory decides the choice of source, in the
/// order they are looked at.
pub open spec fn source_probes_spec(
    root: Seq<char>,
    path: Option<Seq<char>>,
    path_was_explicit: bool,
    config_source: Option<Seq<char>>,
) -> Seq<Seq<char>> {
    if path_was_explicit {
        match path {
            None => Seq::<Seq<char>>::empty(),
            Some(p) => seq![resolve_path_spec(root, p)],
        }
    } else {
        match configured_source(config_source) {
            Some(c) => seq![resolve_path_spec(root, c)],
            None => seq![
                join_path(root, "dist"@),
                join_path(root, "build"@),
                join_path(root, "public"@),
                root,
            ],
        }
    }
}

fn configured(config_source: Option<&str>) -> (r: Option<&str>)
    ensures
        opt_str_view(r) == configured_source(opt_str_view(config_source)),
{
    match config_source {
        Some(s) => if is_blank(s) {
            None
        } else {
            Some(s)
        },
        None => None,
    }
}

/// The paths that [`select_source`] needs to know about: which of them
/// are directories.
pub fn source_probes(
    project_root: &str,
    path: Option<&str>,
    path_was_explicit: bool,
    config_source: Option<&str>,
) -> (r: Vec<String>)
    ensures
        views(r@) == source_probes_spec(
            project_root@,
            opt_str_view(path),
            path_was_explicit,
            opt_str_view(config_source),
        ),
{
    let mut out: Vec<String> = Vec::new();
    if path_was_explicit {
        if let Some(p) = path {
            out.push(resolve_path(project_root, p));
        }
    } else {
        match configured(config_source) {
            Some(c) => {
                out.push(resolve_path(project_root, c));
            },
            None => {
                out.push(join(project_root, "dist"));
                out.push(join(project_root, "build"));
                out.push(join(project_root, "public"));
                out.push(project_root.to_owned());
            },
        }
    }
    assert(views(out@) =~= source_probes_spec(
        project_root@,
        opt_str_view(path),
        path_was_explicit,
        opt_str_view(config_source),
    ));
    out
}

/// The view of a selection.
pub open spec fn selection_view(s: SourceSelection) -> SelectionView {
    SelectionView { source: s.source@, mode: s.mode, excludes_enabled: s.excludes_enabled }
}

/// The published directory, given the paths among [`source_probes`] that
/// are directories (`dirs`).
pub fn select_source(
    project_root: &str,
    path: Option<&str>,
    path_was_explicit: bool,
    config_source: Option<&str>,
    dirs: &Vec<String>,
) -> (r: Result<SourceSelection, DeployError>)
    ensures
        match select_source_spec(
            project_root@,
            opt_str_view(path),
            path_was_explicit,
            opt_str_view(config_source),
            views(dirs@),
        ) {
            SelectionOutcome::Selected(v) => r matches Ok(s) && selection_view(s) == v
                && s.project_root@ == project_root@,
            SelectionOutcome::MissingExplicitPath => r matches Err(
                DeployError::MissingExplicitPath,
            ),
            SelectionOutcome::NotADirectory(p) => r matches Err(DeployError::NotADirectory(q))
                && q@ == p,
        },
{
    proof {
        reveal_strlit(".");
    }
    if path_was_explicit {
        let p = match path {
            Some(p) => p,
            None => return Err(DeployError::MissingExplicitPath),
        };
        let source = resolve_path(project_root, p);
        if !is_listed(dirs, source.as_str()) {
            return Err(DeployError::NotADirectory(source));
        }
        let excludes_enabled = paths_equal(source.as_str(), project_root) || paths_equal(p, ".");
        return Ok(
            SourceSelection {
                project_root: project_root.to_owned(),
                source,
                mode: SourceMode::ExplicitPath,
                excludes_enabled,
            },
        );
    }
    if let Some(c) = configured(config_source) {
        let source = resolve_path(project_root, c);
        if !is_listed(dirs, source.as_str()) {
            return Err(DeployError::NotADirectory(source));
        }
        let excludes_enabled = paths_equal(source.as_str(), project_root) || paths_equal(c, ".");
        return Ok(
            SourceSelection {
                project_root: project_root.to_owned(),
                source,
                mode: SourceMode::ConfiguredSource,
                excludes_enabled,
            },
        );
    }
    let dist = join(project_root, "dist");
    if is_listed(dirs, dist.as_str()) {
        return Ok(
            SourceSelection {
                project_root: project_root.to_owned(),
                source: dist,
                mode: SourceMode::AutoDetected,
                excludes_enabled: false,
            },
        );
    }
    let build = join(project_root, "build");
    if is_listed(dirs, build.as_str()) {
        return Ok(
            SourceSelection {
                project_root: project_root.to_owned(),
                source: build,
                mode: SourceMode::AutoDetected,
                excludes_enabled: false,
            },
        );
    }
    let public = join(project_root, "public");
    if is_listed(dirs, public.as_str()) {
        return Ok(
            SourceSelection {
                project_root: project_root.to_owned(),
                source: public,
                mode: SourceMode::AutoDetected,
                excludes_enabled: false,
            },
        );
    }
    if !is_listed(dirs, project_root) {
        return Err(DeployError::NotADirectory(project_root.to_owned()));
    }
    Ok(
        SourceSelection {
            project_root: project_root.to_owned(),
            source: project_root.to_owned(),
            mode: SourceMode::CurrentDirectoryWithExcludes,
            excludes_enabled: true,
        },
    )
}


// ---------------------------------------------------------------------
// The URL reported after a deployment.
// ---------------------------------------------------------------------
/// `s` without the `c` characters at its end.
pub open spec fn strip_trailing(s: Seq<char>, c: char) -> Seq<char>
    decreases s.len(),
{
    if s.len() > 0 && s.last() == c {
        strip_trailing(s.drop_last(), c)
    } else {
        s
    }
}

/// A file's URL under a base URL: the base without trailing slashes, a
/// slash, then the file; the file alone without a base.
pub open spec fn join_url_spec(base: Option<Seq<char>>, file_name: Seq<char>) -> Seq<char> {
    match base {
        Some(b) => strip_trailing(b, '/') + seq!['/'] + file_name,
        None => file_name,
    }
}

/// A file's URL under a base URL.
pub fn join_url(base_url: Option<&str>, file_name: &str) -> (r: String)
    ensures
        r@ == join_url_spec(opt_str_view(base_url), file_name@),
{
    match base_url {
        Some(b) => {
            let v = chars_of(b);
            let mut end = v.len();
            assert(v@.take(end as int) =~= v@);
            while end > 0 && v[end - 1] == '/'
                invariant
                    end <= v@.len(),
                    strip_trailing(v@, '/') == strip_trailing(v@.take(end as int), '/'),
                decreases end,
            {
                assert(v@.take(end as int).drop_last() =~= v@.take(end - 1));
                end = end - 1;
            }
            let mut out = crate::text::string_of_range(v.as_slice(), 0, end);
            assert(v@.subrange(0, end as int) =~= v@.take(end as int));
            crate::text::push_char(&mut out, '/');
            push_str(&mut out, file_name);
            out
        },
        None => file_name.to_owned(),
    }
}

/// The URL a provider's site is known under without a configured base:
/// for Azure Storage Blob, the public part of its SAS URL.
pub open spec fn inferred_base_spec(
    c: NowConfig,
    p: ProviderKind,
    process_value: Option<Seq<char>>,
    env_file: Option<&EnvFile>,
) -> Option<Seq<char>> {
    match p {
        ProviderKind::AzureBlob => public_base_url_spec(c, process_value, env_file),
        _ => None,
    }
}

/// The URL a provider's site is known under without a configured base.
pub fn inferred_provider_base_url(
    config: &NowConfig,
    provider: ProviderKind,
    process_value: Option<&str>,
    env_file: Option<&EnvFile>,
) -> (r: Option<String>)
    ensures
        opt_view(r) == inferred_base_spec(*config, provider, opt_str_view(process_value), env_file),
{
    match provider {
        ProviderKind::AzureBlob => public_base_url(config, process_value, env_file),
        _ => None,
    }
}

/// The URL of a published file: under the base URL when there is one;
/// for Azure Storage Blob, its public blob URL; else the file name alone.
pub open spec fn file_url_spec(
    c: NowConfig,
    p: ProviderKind,
    process_value: Option<Seq<char>>,
    env_file: Option<&EnvFile>,
    base: Option<Seq<char>>,
    relative: Seq<char>,
) -> Seq<char> {
    match base {
        Some(b) => join_url_spec(Some(b), relative),
        None => match p {
            ProviderKind::AzureBlob => match public_blob_url_spec(c, process_value, env_file, relative) {
                Some(u) => u,
                None => relative,
            },
            _ => relative,
        },
    }
}

/// The URL of a published file.
pub fn default_url_for_file(
    config: &NowConfig,
    provider: ProviderKind,
    process_value: Option<&str>,
    env_file: Option<&EnvFile>,
    base_url: Option<&str>,
    relative_path: &str,
) -> (r: String)
    ensures
        r@ == file_url_spec(
            *config,
            provider,
            opt_str_view(process_value),
            env_file,
            opt_str_view(base_url),
            relative_path@,
        ),
{
    if base_url.is_some() {
        return join_url(base_url, relative_path);
    }
    match provider {
        ProviderKind::AzureBlob => match public_blob_url_for_relative_path(
            config,
            process_value,
            env_file,
            relative_path,
        ) {
            Some(u) => u,
            None => relative_path.to_owned(),
        },
        _ => relative_path.to_owned(),
    }
}

/// Whether a file name ends in `.html` or `.htm`, in any ASCII case.
pub open spec fn is_html_name(n: Seq<char>) -> bool {
    match extension_spec(n) {
        Some(e) => lower(e) == "html"@ || lower(e) == "htm"@,
        None => false,
    }
}

/// The HTML files among `names`, in order.
pub open spec fn html_files(names: Seq<Seq<char>>) -> Seq<Seq<char>>
    decreases names.len(),
{
    if names.len() == 0 {
        Seq::<Seq<char>>::empty()
    } else if is_html_name(names.last()) {
        html_files(names.drop_last()).push(names.last())
    } else {
        html_files(names.drop_last())
    }
}

/// Whether `names` holds `n`.
pub open spec fn has_name(names: Seq<Seq<char>>, n: Seq<char>) -> bool {
    exists|i: int| 0 <= i < names.len() && names[i] == n
}

/// The URL reported after a deployment, given the names of the files at
/// the top of the published directory: the configured default URL; else
/// the URL of `index.html`, of `index.htm`, or of the only HTML file;
/// else the base URL; else what the provider's settings imply.
pub open spec fn default_url_spec(
    c: NowConfig,
    p: ProviderKind,
    process_value: Option<Seq<char>>,
    env_file: Option<&EnvFile>,
    files: Seq<Seq<char>>,
) -> Option<Seq<char>> {
    let base = base_url_for(c, p);
    let configured = match c.default_url {
        Some(d) => if trim(d@).len() > 0 {
            Some(trim(d@))
        } else {
            None
        },
        None => None,
    };
    if configured is Some {
        configured
    } else if has_name(files, "index.html"@) {
        Some(file_url_spec(c, p, process_value, env_file, base, "index.html"@))
    } else if has_name(files, "index.htm"@) {
        Some(file_url_spec(c, p, process_value, env_file, base, "index.htm"@))
    } else if html_files(files).len() == 1 {
        Some(file_url_spec(c, p, process_value, env_file, base, html_files(files)[0]))
    } else if base is Some {
        base
    } else {
        inferred_base_spec(c, p, process_value, env_file)
    }
}

fn is_html_file_name(n: &str) -> (r: bool)
    ensures
        r == is_html_name(n@),
{
    match crate::azure_blob::extension_of_name(n) {
        Some(e) => {
            let l = crate::text::lowered(e.as_str());
            str_eq(l.as_str(), "html") || str_eq(l.as_str(), "htm")
        },
        None => false,
    }
}

fn html_files_of(files: &Vec<String>) -> (r: Vec<String>)
    ensures
        views(r@) == html_files(views(files@)),
{
    let mut out: Vec<String> = Vec::new();
    let mut i: usize = 0;
    assert(views(files@).take(0) =~= Seq::<Seq<char>>::empty());
    assert(views(out@) =~= Seq::<Seq<char>>::empty());
    while i < files.len()
        invariant
            i <= files@.len(),
            views(out@) == html_files(views(files@).take(i as int)),
        decreases files@.len() - i,
    {
        let ghost q = views(files@);
        assert(q.take(i + 1).drop_last() =~= q.take(i as int));
        assert(q.take(i + 1).last() == files@[i as int]@);
        if is_html_file_name(files[i].as_str()) {
            let f = files[i].clone();
            proof {
                crate::provider::lemma_views_push(out@, f);
            }
            out.push(f);
        }
        i = i + 1;
    }
    assert(views(files@).take(files@.len() as int) =~= views(files@));
    out
}

fn has_file(files: &Vec<String>, n: &str) -> (r: bool)
    ensures
        r == has_name(views(files@), n@),
{
    let mut i: usize = 0;
    while i < files.len()
        invariant
            i <= files@.len(),
            forall|j: int| 0 <= j < i ==> views(files@)[j] != n@,
        decreases files@.len() - i,
    {
        assert(views(files@)[i as int] == files@[i as int]@);
        if str_eq(files[i].as_str(), n) {
            return true;
        }
        i = i + 1;
    }
    false
}

/// The URL reported after a deployment; `files` are the names of the
/// files at the top of the published directory.
pub fn choose_default_url(
    config: &NowConfig,
    provider: ProviderKind,
    process_value: Option<&str>,
    env_file: Option<&EnvFile>,
    files: &Vec<String>,
) -> (r: Option<String>)
    ensures
        opt_view(r) == default_url_spec(
            *config,
            provider,
            opt_str_view(process_value),
            env_file,
            views(files@),
        ),
{
    if let Some(d) = &config.default_url {
        if !is_blank(d.as_str()) {
            return Some(trimmed(d.as_str()));
        }
    }
    let base = config.provider_base_url(provider);
    if has_file(files, "index.html") {
        return Some(
            default_url_for_file(config, provider, process_value, env_file, base, "index.html"),
        );
    }
    if has_file(files, "index.htm") {
        return Some(
            default_url_for_file(config, provider, process_value, env_file, base, "index.htm"),
        );
    }
    let html = html_files_of(files);
    if html.len() == 1 {
        assert(views(html@)[0] == html@[0]@);
        return Some(
            default_url_for_file(config, provider, process_value, env_file, base, html[0].as_str()),
        );
    }
    match base {
        Some(b) => Some(b.to_owned()),
        None => inferred_provider_base_url(config, provider, process_value, env_file),
    }
}


// ---------------------------------------------------------------------
// Decisions along a deployment.
// ---------------------------------------------------------------------
/// Where the provider of a deployment comes from.
#[derive(Debug, Clone, Copy, PartialEq, Eq, Structural)]
pub enum ProviderChoice {
    /// The configured provider.
    Use(ProviderKind),
    /// None is configured: ask for one with first-time setup.
    RunSetup,
    /// None is configured and none can be asked for.
    NotConfigured,
}

/// Whether a deployment without a provider may ask for one: no provider
/// was named on the command line, the output is not JSON and the input is
/// a terminal.
pub fn should_prompt_first_run(request: &DeployRequest, stdin_is_terminal: bool) -> (r: bool)
    ensures
        r == (request.provider is None && !request.json && stdin_is_terminal),
{
    request.provider.is_none() && !request.json && stdin_is_terminal
}

/// The provider to deploy with, or what to do when none is configured.
pub fn resolve_provider(
    configured: Option<ProviderKind>,
    request: &DeployRequest,
    stdin_is_terminal: bool,
) -> (r: ProviderChoice)
    ensures
        match configured {
            Some(p) => r == ProviderChoice::Use(p),
            None => if request.provider is None && !request.json && stdin_is_terminal {
                r == ProviderChoice::RunSetup
            } else {
                r == ProviderChoice::NotConfigured
            },
        },
{
    match configured {
        Some(p) => ProviderChoice::Use(p),
        None => if should_prompt_first_run(request, stdin_is_terminal) {
            ProviderChoice::RunSetup
        } else {
            ProviderChoice::NotConfigured
        },
    }
}

/// The provider configured once first-time setup has run.
pub fn provider_after_setup(configured: Option<ProviderKind>) -> (r: Result<
    ProviderKind,
    DeployError,
>)
    ensures
        match configured {
            Some(p) => r matches Ok(q) && q == p,
            None => r matches Err(DeployError::ProviderMissingAfterSetup),
        },
{
    match configured {
        Some(p) => Ok(p),
        None => Err(DeployError::ProviderMissingAfterSetup),
    }
}

/// The configuration with the command line's `--prefix` and
/// `--remote_dir` written over it; nothing else changes.
pub fn apply_overrides(config: &mut NowConfig, prefix: Option<String>, remote_dir: Option<String>)
    ensures
        final(config).azure_blob.prefix == (match prefix {
            Some(p) => Some(p),
            None => old(config).azure_blob.prefix,
        }),
        final(config).ftp.remote_dir == (match remote_dir {
            Some(d) => Some(d),
            None => old(config).ftp.remote_dir,
        }),
        final(config).provider == old(config).provider,
        final(config).source == old(config).source,
        final(config).base_url == old(config).base_url,
        final(config).default_url == old(config).default_url,
        final(config).move_publishable_files_to_public == old(config).move_publishable_files_to_public,
        final(config).firebase == old(config).firebase,
        final(config).azure_swa == old(config).azure_swa,
        final(config).azure_blob.account == old(config).azure_blob.account,
        final(config).azure_blob.container == old(config).azure_blob.container,
        final(config).azure_blob.destination_path == old(config).azure_blob.destination_path,
        final(config).azure_blob.overwrite == old(config).azure_blob.overwrite,
        final(config).azure_blob.base_url == old(config).azure_blob.base_url,
        final(config).azure_blob.sas_url == old(config).azure_blob.sas_url,
        final(config).azure_blob.sas_url_env == old(config).azure_blob.sas_url_env,
        final(config).ftp.host == old(config).ftp.host,
        final(config).ftp.username_env == old(config).ftp.username_env,
        final(config).ftp.password_env == old(config).ftp.password_env,
        final(config).ftp.base_url == old(config).ftp.base_url,
{
    if let Some(p) = prefix {
        config.azure_blob.prefix = Some(p);
    }
    if let Some(d) = remote_dir {
        config.ftp.remote_dir = Some(d);
    }
}

/// Whether a provider reads secrets from the project's `.env`.
pub fn needs_local_env(provider: ProviderKind) -> (r: bool)
    ensures
        r == (provider == ProviderKind::AzureBlob || provider == ProviderKind::AzureSwa),
{
    match provider {
        ProviderKind::AzureBlob | ProviderKind::AzureSwa => true,
        _ => false,
    }
}

/// What to do with a project whose root would be published as it is.
#[derive(Debug, Clone, Copy, PartialEq, Eq, Structural)]
pub enum PublishableChoice {
    /// Move the publishable files into `public/`.
    Move,
    /// Leave the files where they are.
    Keep,
    /// Ask, and remember the answer.
    Ask,
}

/// Whether to move a bare project's files into `public/`: only when the
/// project root itself would be published and this is no dry run; then by
/// the remembered choice, else by asking when the input is a terminal and
/// the output is not JSON.
pub fn publishable_files_choice(
    mode: SourceMode,
    dry_run: bool,
    remembered: Option<bool>,
    json: bool,
    stdin_is_terminal: bool,
) -> (r: PublishableChoice)
    ensures
        !(mode == SourceMode::CurrentDirectoryWithExcludes && !dry_run) ==> r
            == PublishableChoice::Keep,
        mode == SourceMode::CurrentDirectoryWithExcludes && !dry_run ==> r == (match remembered {
            Some(true) => PublishableChoice::Move,
            Some(false) => PublishableChoice::Keep,
            None => if !json && stdin_is_terminal {
                PublishableChoice::Ask
            } else {
                PublishableChoice::Keep
            },
        }),
{
    if mode == SourceMode::CurrentDirectoryWithExcludes && !dry_run {
        match remembered {
            Some(true) => PublishableChoice::Move,
            Some(false) => PublishableChoice::Keep,
            None => if !json && stdin_is_terminal {
                PublishableChoice::Ask
            } else {
                PublishableChoice::Keep
            },
        }
    } else {
        PublishableChoice::Keep
    }
}

/// Whether an answer to a yes/no question is yes: `y`, `Y`, `yes` or
/// `YES`, with surrounding whitespace ignored.
pub open spec fn is_yes(answer: Seq<char>) -> bool {
    let t = trim(answer);
    t == "y"@ || t == "Y"@ || t == "yes"@ || t == "YES"@
}

/// Whether an answer to a yes/no question is yes.
pub fn answer_is_yes(answer: &str) -> (r: bool)
    ensures
        r == is_yes(answer@),
{
    let t = trimmed(answer);
    let ts = t.as_str();
    str_eq(ts, "y") || str_eq(ts, "Y") || str_eq(ts, "yes") || str_eq(ts, "YES")
}

/// The question asked before moving a bare project's files.
pub fn publishable_files_question() -> (r: &'static str)
    ensures
        r@ == "No dist/, build/, or public/ directory was found. Move publishable files into public/? [y/N] "@,
{
    "No dist/, build/, or public/ directory was found. Move publishable files into public/? [y/N] "
}

/// The selection once the publishable files were moved into `public/`.
pub fn public_directory_selection(project_root: &str) -> (r: SourceSelection)
    ensures
        r.project_root@ == project_root@,
        r.source@ == join_path(project_root@, "public"@),
        r.mode == SourceMode::PublicDirectoryCreated,
        !r.excludes_enabled,
{
    SourceSelection {
        project_root: project_root.to_owned(),
        source: join(project_root, "public"),
        mode: SourceMode::PublicDirectoryCreated,
        excludes_enabled: false,
    }
}

/// The text of a path made of components.
pub open spec fn comp_text(c: Comp) -> Seq<char> {
    match c {
        Comp::RootDir => Seq::<char>::empty(),
        Comp::CurDir => "."@,
        Comp::ParentDir => ".."@,
        Comp::Normal(n) => n,
    }
}

pub open spec fn comps_text(cs: Seq<Comp>) -> Seq<char> {
    crate::text::join(cs.map_values(|c: Comp| comp_text(c)), "/"@)
}

/// How a source directory is written into `.now.json`, given the
/// canonical project root and the canonical source: relative to the root
/// when inside it (`.` for the root itself), else as it is.
pub open spec fn config_source_spec(root: Seq<char>, source: Seq<char>) -> Seq<char> {
    match crate::paths::strip_components(components(source), components(root)) {
        Some(rest) => if rest.len() == 0 {
            "."@
        } else {
            comps_text(rest)
        },
        None => source,
    }
}

/// How a source directory is written into `.now.json`; both paths are
/// canonical.
pub fn config_source_for_path(canonical_root: &str, canonical_source: &str) -> (r: String)
    ensures
        r@ == config_source_spec(canonical_root@, canonical_source@),
{
    let rc = path_components(canonical_root);
    let sc = path_components(canonical_source);
    let ghost rv = rc@.map_values(|c: PathComponent| c@);
    let ghost sv = sc@.map_values(|c: PathComponent| c@);
    if rc.len() > sc.len() {
        return canonical_source.to_owned();
    }
    let mut i: usize = 0;
    while i < rc.len()
        invariant
            i <= rc@.len() <= sc@.len(),
            rv == rc@.map_values(|c: PathComponent| c@),
            sv == sc@.map_values(|c: PathComponent| c@),
            rv == components(canonical_root@),
            sv == components(canonical_source@),
            forall|j: int| 0 <= j < i ==> sv[j] == rv[j],
        decreases rc@.len() - i,
    {
        let same = match (&rc[i], &sc[i]) {
            (PathComponent::RootDir, PathComponent::RootDir) => true,
            (PathComponent::CurDir, PathComponent::CurDir) => true,
            (PathComponent::ParentDir, PathComponent::ParentDir) => true,
            (PathComponent::Normal(x), PathComponent::Normal(y)) => str_eq(x.as_str(), y.as_str()),
            _ => false,
        };
        assert(rv[i as int] == rc@[i as int]@);
        assert(sv[i as int] == sc@[i as int]@);
        if !same {
            assert(rv.len() == rc@.len() && sv.len() == sc@.len());
            assert(sv.take(rv.len() as int)[i as int] != rv[i as int]);
            assert(sv.take(rv.len() as int) != rv);
            return canonical_source.to_owned();
        }
        i = i + 1;
    }
    assert(sv.take(rv.len() as int) =~= rv);
    let ghost rest = sv.skip(rv.len() as int);
    if rc.len() == sc.len() {
        assert(rest.len() == 0);
        return ".".to_owned();
    }
    let mut out = String::new();
    let mut k = rc.len();
    let ghost texts = rest.map_values(|c: Comp| comp_text(c));
    assert(texts.take(0) =~= Seq::<Seq<char>>::empty());
    while k < sc.len()
        invariant
            rc@.len() <= k <= sc@.len(),
            sv == sc@.map_values(|c: PathComponent| c@),
            sv == components(canonical_source@),
            rv == components(canonical_root@),
            rv.len() == rc@.len(),
            sv.take(rv.len() as int) == rv,
            rest == sv.skip(rc@.len() as int),
            texts == rest.map_values(|c: Comp| comp_text(c)),
            out@ == crate::text::join(texts.take(k - rc@.len()), "/"@),
        decreases sc@.len() - k,
    {
        let ghost j = k - rc@.len();
        assert(texts.take(j + 1).drop_last() =~= texts.take(j));
        assert(texts[j] == comp_text(sc@[k as int]@));
        if k > rc.len() {
            push_str(&mut out, "/");
        }
        match &sc[k] {
            PathComponent::RootDir => {},
            PathComponent::CurDir => push_str(&mut out, "."),
            PathComponent::ParentDir => push_str(&mut out, ".."),
            PathComponent::Normal(n) => push_str(&mut out, n.as_str()),
        }
        k = k + 1;
        proof {
            reveal_strlit("/");
            reveal_strlit(".");
            reveal_strlit("..");
        }
        assert(out@ =~= crate::text::join(texts.take(k - rc@.len()), "/"@));
    }
    assert(texts.take(texts.len() as int) =~= texts);
    out
}


// ---------------------------------------------------------------------
// What is printed.
// ---------------------------------------------------------------------
/// The name a source mode is printed under.
pub open spec fn mode_name(m: SourceMode) -> Seq<char> {
    match m {
        SourceMode::ExplicitPath => "ExplicitPath"@,
        SourceMode::ConfiguredSource => "ConfiguredSource"@,
        SourceMode::AutoDetected => "AutoDetected"@,
        SourceMode::CurrentDirectoryWithExcludes => "CurrentDirectoryWithExcludes"@,
        SourceMode::PublicDirectoryCreated => "PublicDirectoryCreated"@,
    }
}

/// The name a source mode is printed under.
pub fn source_mode_name(mode: SourceMode) -> (r: &'static str)
    ensures
        r@ == mode_name(mode),
{
    match mode {
        SourceMode::ExplicitPath => "ExplicitPath",
        SourceMode::ConfiguredSource => "ConfiguredSource",
        SourceMode::AutoDetected => "AutoDetected",
        SourceMode::CurrentDirectoryWithExcludes => "CurrentDirectoryWithExcludes",
        SourceMode::PublicDirectoryCreated => "PublicDirectoryCreated",
    }
}

/// The name a source mode has in JSON output.
pub open spec fn mode_json_name(m: SourceMode) -> Seq<char> {
    match m {
        SourceMode::ExplicitPath => "explicit-path"@,
        SourceMode::ConfiguredSource => "configured-source"@,
        SourceMode::AutoDetected => "auto-detected"@,
        SourceMode::CurrentDirectoryWithExcludes => "current-directory-with-excludes"@,
        SourceMode::PublicDirectoryCreated => "public-directory-created"@,
    }
}

/// The name a source mode has in JSON output.
pub fn source_mode_json_name(mode: SourceMode) -> (r: &'static str)
    ensures
        r@ == mode_json_name(mode),
{
    match mode {
        SourceMode::ExplicitPath => "explicit-path",
        SourceMode::ConfiguredSource => "configured-source",
        SourceMode::AutoDetected => "auto-detected",
        SourceMode::CurrentDirectoryWithExcludes => "current-directory-with-excludes",
        SourceMode::PublicDirectoryCreated => "public-directory-created",
    }
}

/// The lines printed at the end of a deployment.
pub open spec fn summary_spec(
    mode: SourceMode,
    excludes_enabled: bool,
    prepared_path: Seq<char>,
    provider: ProviderKind,
    command: Seq<char>,
    default_url: Option<Seq<char>>,
    dry_run: bool,
) -> Seq<Seq<char>> {
    let head = seq![
        "Provider: "@ + provider_display_name(provider),
        "Source: "@ + prepared_path,
        "Source mode: "@ + mode_name(mode),
    ];
    let excluded = if excludes_enabled {
        seq!["Excluded: .now.json, .env, .env.*, .git/, node_modules/, target/, temp files"@]
    } else {
        Seq::<Seq<char>>::empty()
    };
    let dry = if dry_run {
        seq!["Dry run: provider command was not executed"@]
    } else {
        Seq::<Seq<char>>::empty()
    };
    let url = match default_url {
        Some(u) => "Default URL: "@ + u,
        None => "Default URL: not resolved; set default_url or base_url"@,
    };
    head + excluded + seq!["Command: "@ + command] + dry + seq![url]
}

fn line2(a: &str, b: &str) -> (r: String)
    ensures
        r@ == a@ + b@,
{
    let mut s = a.to_owned();
    push_str(&mut s, b);
    s
}

/// The lines printed at the end of a deployment.
pub fn deploy_summary_lines(
    selection: &SourceSelection,
    prepared_path: &str,
    provider: ProviderKind,
    command: &str,
    default_url: Option<&str>,
    dry_run: bool,
) -> (r: Vec<String>)
    ensures
        views(r@) == summary_spec(
            selection.mode,
            selection.excludes_enabled,
            prepared_path@,
            provider,
            command@,
            opt_str_view(default_url),
            dry_run,
        ),
{
    let mut out: Vec<String> = Vec::new();
    out.push(line2("Provider: ", provider.display_name()));
    out.push(line2("Source: ", prepared_path));
    out.push(line2("Source mode: ", source_mode_name(selection.mode)));
    if selection.excludes_enabled {
        out.push(
            "Excluded: .now.json, .env, .env.*, .git/, node_modules/, target/, temp files".to_owned(),
        );
    }
    out.push(line2("Command: ", command));
    if dry_run {
        out.push("Dry run: provider command was not executed".to_owned());
    }
    match default_url {
        Some(u) => out.push(line2("Default URL: ", u)),
        None => out.push("Default URL: not resolved; set default_url or base_url".to_owned()),
    }
    assert(views(out@) =~= summary_spec(
        selection.mode,
        selection.excludes_enabled,
        prepared_path@,
        provider,
        command@,
        opt_str_view(default_url),
        dry_run,
    ));
    out
}

/// The message when a provider's command-line tool is not installed.
pub fn provider_cli_missing_message(provider: ProviderKind, required_cli: &str) -> (r: String)
    ensures
        r@ == "Provider CLI not found for "@ + provider_display_name(provider) + ": "@
            + required_cli@ + "\n"@ + crate::provider::install_hint(provider),
{
    let mut s = "Provider CLI not found for ".to_owned();
    push_str(&mut s, provider.display_name());
    push_str(&mut s, ": ");
    push_str(&mut s, required_cli);
    push_str(&mut s, "\n");
    push_str(&mut s, crate::provider::provider_install_hint(provider));
    s
}

/// The message of a deployment error.
pub open spec fn deploy_error_text(e: DeployError) -> Seq<char> {
    match e {
        DeployError::MissingExplicitPath => "explicit path flag was set without a path"@,
        DeployError::NotADirectory(p) => "source path is not a directory: "@ + p@,
        DeployError::ProviderNotConfigured => "provider is not configured; use --provider or set provider in .now.json"@,
        DeployError::ProviderMissingAfterSetup => "provider is not configured after first-time setup"@,
    }
}

impl DeployError {
    /// The message shown to the user.
    pub fn message(&self) -> (r: String)
        ensures
            r@ == deploy_error_text(*self),
    {
        match self {
            DeployError::MissingExplicitPath => "explicit path flag was set without a path".to_owned(),
            DeployError::NotADirectory(p) => line2("source path is not a directory: ", p.as_str()),
            DeployError::ProviderNotConfigured => "provider is not configured; use --provider or set provider in .now.json".to_owned(),
            DeployError::ProviderMissingAfterSetup => "provider is not configured after first-time setup".to_owned(),
        }
    }
}


// ---------------------------------------------------------------------
// Moving a bare project's files into `public/`.
// ---------------------------------------------------------------------
/// Whether the entry `name` of the project root moves into `public/`:
/// everything but `public` itself and what a publication leaves out.
pub open spec fn moves_to_public_spec(root: Seq<char>, name: Seq<char>) -> bool {
    name != "public"@ && !crate::fs_rules::excluded(
        crate::fs_rules::relative_components(root, join_path(root, name)),
    )
}

/// Whether the entry `name` of the project root moves into `public/`.
pub fn moves_to_public(root: &str, name: &str) -> (r: bool)
    ensures
        r == moves_to_public_spec(root@, name@),
{
    if str_eq(name, "public") {
        return false;
    }
    let path = join(root, name);
    !crate::fs_rules::is_excluded_path(root, path.as_str())
}

/// The configuration with the answer about moving files remembered.
pub fn remember_publishable_choice(config: JsonValue, choice: bool) -> (r: JsonValue)
    ensures
        r@ == crate::json::set_path(
            config@,
            seq!["move_publishable_files_to_public"@],
            JsonView::Bool(choice),
        ),
{
    let parts = vec!["move_publishable_files_to_public".to_owned()];
    assert(views(parts@) =~= seq!["move_publishable_files_to_public"@]);
    crate::json::set_path_exec(config, &parts, JsonValue::Bool(choice))
}


/// With no path given and no source configured, the published directory
/// is found by looking for `dist/`, then `build/`, then `public/` under the
/// project root: the first that is a directory is published as it is,
/// without excludes.
pub proof fn lemma_auto_detect_order(root: Seq<char>, dirs: Seq<Seq<char>>)
    ensures
        ({
            let dist = join_path(root, "dist"@);
            let build = join_path(root, "build"@);
            let public = join_path(root, "public"@);
            let r = select_source_spec(root, None, false, None, dirs);
            &&& dirs.contains(dist) ==> r == SelectionOutcome::Selected(
                SelectionView { source: dist, mode: SourceMode::AutoDetected, excludes_enabled: false },
            )
            &&& !dirs.contains(dist) && dirs.contains(build) ==> r == SelectionOutcome::Selected(
                SelectionView { source: build, mode: SourceMode::AutoDetected, excludes_enabled: false },
            )
            &&& !dirs.contains(dist) && !dirs.contains(build) && dirs.contains(public) ==> r
                == SelectionOutcome::Selected(
                SelectionView {
                    source: public,
                    mode: SourceMode::AutoDetected,
                    excludes_enabled: false,
                },
            )
            &&& !dirs.contains(dist) && !dirs.contains(build) && !dirs.contains(public)
                && dirs.contains(root) ==> r == SelectionOutcome::Selected(
                SelectionView {
                    source: root,
                    mode: SourceMode::CurrentDirectoryWithExcludes,
                    excludes_enabled: true,
                },
            )
        }),
{
    let dist = join_path(root, "dist"@);
    let build = join_path(root, "build"@);
    let public = join_path(root, "public"@);
    assert(listed(dirs, dist) == dirs.contains(dist));
    assert(listed(dirs, build) == dirs.contains(build));
    assert(listed(dirs, public) == dirs.contains(public));
    assert(listed(dirs, root) == dirs.contains(root));
}


/// The URL reported after a deployment: a configured `default_url`
/// (trimmed) comes first; otherwise, when the published directory holds
/// `index.html` and a base URL applies, it is that page under the base
/// URL; with `index.htm` only, that page instead.
pub proof fn lemma_default_url_order(
    c: NowConfig,
    p: ProviderKind,
    process_value: Option<Seq<char>>,
    env_file: Option<&EnvFile>,
    files: Seq<Seq<char>>,
    base: Seq<char>,
)
    requires
        base.len() > 0,
        base.last() != '/',
    ensures
        (c.default_url matches Some(d) && trim(d@).len() > 0) ==> default_url_spec(
            c,
            p,
            process_value,
            env_file,
            files,
        ) == Some(trim(c.default_url->0@)),
        !(c.default_url matches Some(d) && trim(d@).len() > 0) && files.contains("index.html"@)
            && base_url_for(c, p) == Some(base) ==> default_url_spec(
            c,
            p,
            process_value,
            env_file,
            files,
        ) == Some(base + "/index.html"@),
        !(c.default_url matches Some(d) && trim(d@).len() > 0) && !files.contains("index.html"@)
            && files.contains("index.htm"@) && base_url_for(c, p) == Some(base) ==> default_url_spec(
            c,
            p,
            process_value,
            env_file,
            files,
        ) == Some(base + "/index.htm"@),
{
    assert(strip_trailing(base, '/') == base);
    reveal_strlit("/index.html");
    reveal_strlit("index.html");
    reveal_strlit("/index.htm");
    reveal_strlit("index.htm");
    assert(seq!['/'] + "index.html"@ =~= "/index.html"@);
    assert(seq!['/'] + "index.htm"@ =~= "/index.htm"@);
    assert(base + seq!['/'] + "index.html"@ =~= base + "/index.html"@);
    assert(base + seq!['/'] + "index.htm"@ =~= base + "/index.htm"@);
    assert(has_name(files, "index.html"@) == files.contains("index.html"@));
    assert(has_name(files, "index.htm"@) == files.contains("index.htm"@));
}

/// A path given on the command line is published as given, resolved
/// against the project root, when it is a directory, and refused when it
/// is not; a configured source is used the same way when no path is given.
pub proof fn lemma_explicit_and_configured_sources(
    root: Seq<char>,
    path: Seq<char>,
    config_source: Option<Seq<char>>,
    dirs: Seq<Seq<char>>,
)
    ensures
        dirs.contains(join_path(root, path)) ==> (select_source_spec(
            root,
            Some(path),
            true,
            config_source,
            dirs,
        ) matches SelectionOutcome::Selected(v) && v.source == join_path(root, path) && v.mode
            == SourceMode::ExplicitPath),
        !dirs.contains(join_path(root, path)) ==> select_source_spec(
            root,
            Some(path),
            true,
            config_source,
            dirs,
        ) == SelectionOutcome::NotADirectory(join_path(root, path)),
        (trim(path).len() > 0 && dirs.contains(join_path(root, path))) ==> (select_source_spec(
            root,
            None,
            false,
            Some(path),
            dirs,
        ) matches SelectionOutcome::Selected(v) && v.source == join_path(root, path) && v.mode
            == SourceMode::ConfiguredSource),
{
    assert(listed(dirs, join_path(root, path)) == dirs.contains(join_path(root, path)));
}

} // verus!
