//! Azure Storage Blob: where each file of the site goes under a container
//! SAS URL, how that URL is shown without its credentials, and which
//! content type each upload carries.
use crate::config::{opt_view, AzureBlobConfig, NowConfig};
use crate::env_file::{resolve_env_value, resolved_env_value, EnvFile};
use crate::paths::{components, path_components, Comp, PathComponent};
use crate::provider::views;
use crate::text::{chars_of, is_blank, lower, push_str, str_eq, trim, trimmed};
use url::Url;
use vstd::prelude::*;

verus! {

// ---------------------------------------------------------------------
// What the `url` crate computes.
// ---------------------------------------------------------------------
/// The serialization of `Url::parse(text)`, `None` when it does not parse.
pub uninterp spec fn url_serialization(text: Seq<char>) -> Option<Seq<char>>;

/// `Url::parse(text)` and then its query: `None` when it does not parse.
pub uninterp spec fn url_query_part(text: Seq<char>) -> Option<Option<Seq<char>>>;

/// `Url::parse(text)` with its query removed (`set_query(None)`),
/// serialized; `None` when it does not parse.
pub uninterp spec fn url_cleared_query(text: Seq<char>) -> Option<Seq<char>>;

/// `Url::parse(text)` and then its path segments: `None` when it does not
/// parse, `Some(None)` when the URL cannot be a base.
pub uninterp spec fn url_path_segments(text: Seq<char>) -> Option<Option<Seq<Seq<char>>>>;

/// `Url::parse(text)` with a trailing empty path segment dropped
/// (`pop_if_empty`) and `segments` appended (`extend`), serialized: `None`
/// when it does not parse, `Some(None)` when the URL cannot be a base.
pub uninterp spec fn url_extended(text: Seq<char>, segments: Seq<Seq<char>>) -> Option<
    Option<Seq<char>>,
>;

/// Calls `url::Url::parse` and `Url::as_str`: the result is the
/// serialization of the parsed URL, or `None` when parsing fails.
#[verifier::external_body]
fn parse_url(text: &str) -> (r: Option<String>)
    ensures
        opt_view(r) == url_serialization(text@),
{
    match Url::parse(text) {
        Ok(u) => Some(u.as_str().to_owned()),
        Err(_) => None,
    }
}

/// Calls `url::Url::parse` and `Url::query`: the result is the query of
/// the parsed URL, or `None` when parsing fails.
#[verifier::external_body]
fn query_of_url(text: &str) -> (r: Option<Option<String>>)
    ensures
        match r {
            Some(q) => url_query_part(text@) == Some(opt_view(q)),
            None => url_query_part(text@) is None,
        },
{
    match Url::parse(text) {
        Ok(u) => Some(u.query().map(|q| q.to_owned())),
        Err(_) => None,
    }
}

/// Calls `url::Url::parse`, `Url::set_query(None)` and `Url::as_str`: the
/// result is the serialization without a query, or `None` when parsing
/// fails.
#[verifier::external_body]
fn url_without_query(text: &str) -> (r: Option<String>)
    ensures
        opt_view(r) == url_cleared_query(text@),
{
    match Url::parse(text) {
        Ok(mut u) => {
            u.set_query(None);
            Some(u.as_str().to_owned())
        },
        Err(_) => None,
    }
}

/// Calls `url::Url::parse` and `Url::path_segments`: the result is the
/// segments, `Some(None)` for a URL that cannot be a base, or `None` when
/// parsing fails.
#[verifier::external_body]
fn path_segments_of_url(text: &str) -> (r: Option<Option<Vec<String>>>)
    ensures
        match r {
            Some(Some(v)) => url_path_segments(text@) == Some(Some(views(v@))),
            Some(None) => url_path_segments(text@) == Some(None::<Seq<Seq<char>>>),
            None => url_path_segments(text@) is None,
        },
{
    match Url::parse(text) {
        Ok(u) => Some(u.path_segments().map(|s| s.map(|x| x.to_owned()).collect())),
        Err(_) => None,
    }
}

/// Calls `url::Url::parse`, `Url::path_segments_mut`,
/// `PathSegmentsMut::pop_if_empty`, `PathSegmentsMut::extend` and
/// `Url::as_str`: the result is the serialization with the segments
/// appended, `Some(None)` for a URL that cannot be a base, or `None` when
/// parsing fails.
#[verifier::external_body]
fn extend_url(text: &str, segments: &Vec<String>) -> (r: Option<Option<String>>)
    ensures
        match r {
            Some(o) => url_extended(text@, views(segments@)) == Some(opt_view(o)),
            None => url_extended(text@, views(segments@)) is None,
        },
{
    match Url::parse(text) {
        Ok(mut u) => {
            let ok = match u.path_segments_mut() {
                Ok(mut s) => {
                    s.pop_if_empty().extend(segments.iter());
                    true
                },
                Err(_) => false,
            };
            Some(if ok { Some(u.as_str().to_owned()) } else { None })
        },
        Err(_) => None,
    }
}

// ---------------------------------------------------------------------
// Blob URLs.
// ---------------------------------------------------------------------
/// Why a blob URL could not be made.
#[derive(Debug)]
pub enum AzureBlobError {
    /// No SAS URL is configured, neither in the configuration nor in the
    /// environment variable it names.
    MissingSasUrl,
    /// The SAS URL does not parse.
    InvalidUrl,
    /// The SAS URL names no container.
    NoContainerPath,
    /// The SAS URL cannot be a base for blob paths.
    CannotBeBase,
    /// A relative path with a root or a parent component; the path.
    UnsupportedPath(String),
}

/// The outcome of placing a relative path under a SAS URL.
pub ghost enum BlobUrl {
    Url(Seq<char>),
    InvalidUrl,
    NoContainerPath,
    CannotBeBase,
    UnsupportedPath,
}

/// Whether some path segment is not empty: the URL names a container.
pub open spec fn has_container_path(segments: Option<Option<Seq<Seq<char>>>>) -> bool {
    match segments {
        Some(Some(s)) => some_nonempty(s),
        _ => false,
    }
}

/// Whether some of the strings is not empty.
pub open spec fn some_nonempty(s: Seq<Seq<char>>) -> bool {
    exists|i: int| 0 <= i < s.len() && (#[trigger] s[i]).len() > 0
}

/// The names that a relative path adds to a URL: its normal components;
/// `.` adds nothing; a root or `..` makes it unusable.
pub open spec fn relative_segments(cs: Seq<Comp>) -> Option<Seq<Seq<char>>>
    decreases cs.len(),
{
    if cs.len() == 0 {
        Some(Seq::<Seq<char>>::empty())
    } else {
        match relative_segments(cs.drop_last()) {
            None => None,
            Some(r) => match cs.last() {
                Comp::Normal(n) => Some(r.push(n)),
                Comp::CurDir => Some(r),
                _ => None,
            },
        }
    }
}

/// The URL of the blob at `relative` under the container SAS URL `sas`.
pub open spec fn blob_url_spec(sas: Seq<char>, relative: Seq<char>) -> BlobUrl {
    if url_serialization(sas) is None {
        BlobUrl::InvalidUrl
    } else if !has_container_path(url_path_segments(sas)) {
        BlobUrl::NoContainerPath
    } else {
        match relative_segments(components(relative)) {
            None => BlobUrl::UnsupportedPath,
            Some(segs) => match url_extended(sas, segs) {
                Some(Some(u)) => BlobUrl::Url(u),
                _ => BlobUrl::CannotBeBase,
            },
        }
    }
}

fn segments_of(relative: &str) -> (r: Option<Vec<String>>)
    ensures
        match r {
            Some(v) => relative_segments(components(relative@)) == Some(views(v@)),
            None => relative_segments(components(relative@)) is None,
        },
{
    let comps = path_components(relative);
    let ghost cs = comps@.map_values(|c: PathComponent| c@);
    let mut out: Vec<String> = Vec::new();
    let mut i: usize = 0;
    assert(cs.take(0) =~= Seq::<Comp>::empty());
    assert(views(out@) =~= Seq::<Seq<char>>::empty());
    while i < comps.len()
        invariant
            i <= comps@.len(),
            cs == comps@.map_values(|c: PathComponent| c@),
            cs == components(relative@),
            relative_segments(cs.take(i as int)) == Some(views(out@)),
        decreases comps@.len() - i,
    {
        assert(cs.take(i + 1).drop_last() =~= cs.take(i as int));
        assert(cs.take(i + 1).last() == comps@[i as int]@);
        match &comps[i] {
            PathComponent::Normal(n) => {
                let name = n.clone();
                proof {
                    crate::provider::lemma_views_push(out@, name);
                }
                out.push(name);
            },
            PathComponent::CurDir => {},
            _ => {
                proof {
                    lemma_relative_segments_stays_none(cs, i as int + 1);
                }
                return None;
            },
        }
        i = i + 1;
    }
    assert(cs.take(comps@.len() as int) =~= cs);
    Some(out)
}

proof fn lemma_relative_segments_stays_none(cs: Seq<Comp>, k: int)
    requires
        0 <= k <= cs.len(),
        relative_segments(cs.take(k)) is None,
    ensures
        relative_segments(cs) is None,
    decreases cs.len() - k,
{
    if k < cs.len() {
        assert(cs.take(k + 1).drop_last() =~= cs.take(k));
        lemma_relative_segments_stays_none(cs, k + 1);
    } else {
        assert(cs.take(k) =~= cs);
    }
}

fn container_path_present(sas: &str) -> (r: bool)
    ensures
        r == has_container_path(url_path_segments(sas@)),
{
    match path_segments_of_url(sas) {
        Some(Some(v)) => {
            let mut i: usize = 0;
            while i < v.len()
                invariant
                    i <= v@.len(),
                    url_path_segments(sas@) == Some(Some(views(v@))),
                    forall|j: int| 0 <= j < i ==> (#[trigger] views(v@)[j]).len() == 0,
                decreases v@.len() - i,
            {
                let c = chars_of(v[i].as_str());
                assert(views(v@)[i as int] == v@[i as int]@);
                if c.len() > 0 {
                    assert(views(v@)[i as int].len() > 0);
                    assert(views(v@).len() == v@.len());
                    assert(some_nonempty(views(v@)));
                    return true;
                }
                i = i + 1;
            }
            assert forall|j: int| 0 <= j < views(v@).len() implies (#[trigger] views(v@)[j]).len()
                == 0 by {}
            false
        },
        _ => false,
    }
}

/// The URL of the blob at `relative_path` under the container SAS URL
/// `sas_url`, query included.
pub fn blob_url_for_relative_path(sas_url: &str, relative_path: &str) -> (r: Result<
    String,
    AzureBlobError,
>)
    ensures
        match blob_url_spec(sas_url@, relative_path@) {
            BlobUrl::Url(u) => r matches Ok(s) && s@ == u,
            BlobUrl::InvalidUrl => r matches Err(AzureBlobError::InvalidUrl),
            BlobUrl::NoContainerPath => r matches Err(AzureBlobError::NoContainerPath),
            BlobUrl::CannotBeBase => r matches Err(AzureBlobError::CannotBeBase),
            BlobUrl::UnsupportedPath => r matches Err(AzureBlobError::UnsupportedPath(p)) && p@
                == relative_path@,
        },
{
    if parse_url(sas_url).is_none() {
        return Err(AzureBlobError::InvalidUrl);
    }
    if !container_path_present(sas_url) {
        return Err(AzureBlobError::NoContainerPath);
    }
    let segs = match segments_of(relative_path) {
        Some(s) => s,
        None => return Err(AzureBlobError::UnsupportedPath(relative_path.to_owned())),
    };
    match extend_url(sas_url, &segs) {
        Some(Some(u)) => Ok(u),
        _ => Err(AzureBlobError::CannotBeBase),
    }
}

/// What a SAS URL looks like on screen: without its query, which holds
/// the credentials, and with `?<redacted>` in its place when there was one.
pub open spec fn masked_spec(sas: Seq<char>) -> Option<Seq<char>> {
    match url_serialization(sas) {
        None => None,
        Some(href) => match url_query_part(sas) {
            Some(Some(_)) => match url_cleared_query(sas) {
                Some(c) => Some(c + "?<redacted>"@),
                None => None,
            },
            Some(None) => Some(href),
            None => None,
        },
    }
}

/// A SAS URL with its credentials hidden.
pub fn mask_sas_url(sas_url: &str) -> (r: Result<String, AzureBlobError>)
    ensures
        match masked_spec(sas_url@) {
            Some(m) => r matches Ok(s) && s@ == m,
            None => r matches Err(AzureBlobError::InvalidUrl),
        },
{
    let href = match parse_url(sas_url) {
        Some(h) => h,
        None => return Err(AzureBlobError::InvalidUrl),
    };
    match query_of_url(sas_url) {
        Some(Some(_)) => match url_without_query(sas_url) {
            Some(c) => {
                let mut s = c;
                push_str(&mut s, "?<redacted>");
                Ok(s)
            },
            None => Err(AzureBlobError::InvalidUrl),
        },
        Some(None) => Ok(href),
        None => Err(AzureBlobError::InvalidUrl),
    }
}


// ---------------------------------------------------------------------
// The configured SAS URL.
// ---------------------------------------------------------------------
/// The environment variable that holds the SAS URL: the configured name,
/// else `NOW_AZURE_BLOB_SAS_URL`.
pub open spec fn sas_env_name_spec(c: AzureBlobConfig) -> Seq<char> {
    match c.sas_url_env {
        Some(s) => if trim(s@).len() > 0 {
            trim(s@)
        } else {
            "NOW_AZURE_BLOB_SAS_URL"@
        },
        None => "NOW_AZURE_BLOB_SAS_URL"@,
    }
}

/// The SAS URL in force: one written in the configuration, else the value
/// of the environment variable it names, from the process environment
/// (`process_value`) or else from `.env`.
pub open spec fn sas_url_spec(
    c: NowConfig,
    process_value: Option<Seq<char>>,
    env_file: Option<&EnvFile>,
) -> Option<Seq<char>> {
    match c.azure_blob.sas_url {
        Some(s) if trim(s@).len() > 0 => Some(trim(s@)),
        _ => resolved_env_value(
            process_value,
            crate::env_file::file_value(env_file, sas_env_name_spec(c.azure_blob)),
        ),
    }
}

/// The name of the environment variable that holds the SAS URL.
pub fn sas_env_name(config: &NowConfig) -> (r: String)
    ensures
        r@ == sas_env_name_spec(config.azure_blob),
{
    match &config.azure_blob.sas_url_env {
        Some(s) => {
            let t = trimmed(s.as_str());
            if is_blank(s.as_str()) {
                "NOW_AZURE_BLOB_SAS_URL".to_owned()
            } else {
                t
            }
        },
        None => "NOW_AZURE_BLOB_SAS_URL".to_owned(),
    }
}

/// The SAS URL, if one is configured; `process_value` is what the process
/// environment holds for [`sas_env_name`].
pub fn optional_sas_url(
    config: &NowConfig,
    process_value: Option<&str>,
    env_file: Option<&EnvFile>,
) -> (r: Option<String>)
    ensures
        opt_view(r) == sas_url_spec(*config, crate::config::opt_str_view(process_value), env_file),
{
    if let Some(s) = &config.azure_blob.sas_url {
        if !is_blank(s.as_str()) {
            return Some(trimmed(s.as_str()));
        }
    }
    let name = sas_env_name(config);
    resolve_env_value(process_value, name.as_str(), env_file)
}

/// The SAS URL; an error when none is configured.
pub fn sas_url(config: &NowConfig, process_value: Option<&str>, env_file: Option<&EnvFile>) -> (r:
    Result<String, AzureBlobError>)
    ensures
        match sas_url_spec(*config, crate::config::opt_str_view(process_value), env_file) {
            Some(u) => r matches Ok(s) && s@ == u,
            None => r matches Err(AzureBlobError::MissingSasUrl),
        },
{
    match optional_sas_url(config, process_value, env_file) {
        Some(u) => Ok(u),
        None => Err(AzureBlobError::MissingSasUrl),
    }
}

/// The folder prefix under the container, if one is configured.
pub open spec fn prefix_spec(c: AzureBlobConfig) -> Option<Seq<char>> {
    match c.prefix {
        Some(p) => if trim(p@).len() > 0 {
            Some(trim(p@))
        } else {
            None
        },
        None => None,
    }
}

/// The URL that the site's files go under: the SAS URL, with the folder
/// prefix appended as a relative blob path when there is one.
pub open spec fn upload_base_spec(sas: Seq<char>, prefix: Option<Seq<char>>) -> BlobUrl {
    match prefix {
        None => BlobUrl::Url(sas),
        Some(p) => blob_url_spec(sas, p),
    }
}

/// The URL the site's files go under, or why there is none.
pub open spec fn site_base_spec(
    c: NowConfig,
    process_value: Option<Seq<char>>,
    env_file: Option<&EnvFile>,
) -> Option<BlobUrl> {
    match sas_url_spec(c, process_value, env_file) {
        Some(sas) => Some(upload_base_spec(sas, prefix_spec(c.azure_blob))),
        None => None,
    }
}

/// The URL the site's files go under: the SAS URL, with the folder prefix
/// appended when one is configured.
pub fn upload_base_url(
    config: &NowConfig,
    process_value: Option<&str>,
    env_file: Option<&EnvFile>,
) -> (r: Result<String, AzureBlobError>)
    ensures
        match site_base_spec(*config, crate::config::opt_str_view(process_value), env_file) {
            None => r matches Err(AzureBlobError::MissingSasUrl),
            Some(BlobUrl::Url(u)) => r matches Ok(s) && s@ == u,
            Some(BlobUrl::InvalidUrl) => r matches Err(AzureBlobError::InvalidUrl),
            Some(BlobUrl::NoContainerPath) => r matches Err(AzureBlobError::NoContainerPath),
            Some(BlobUrl::CannotBeBase) => r matches Err(AzureBlobError::CannotBeBase),
            Some(BlobUrl::UnsupportedPath) => r matches Err(AzureBlobError::UnsupportedPath(p))
                && Some(p@) == prefix_spec(config.azure_blob),
        },
{
    let sas = sas_url(config, process_value, env_file)?;
    match &config.azure_blob.prefix {
        Some(p) => if is_blank(p.as_str()) {
            Ok(sas)
        } else {
            let t = trimmed(p.as_str());
            blob_url_for_relative_path(sas.as_str(), t.as_str())
        },
        None => Ok(sas),
    }
}

/// The line that stands for the upload in summaries and dry runs; the SAS
/// URL appears with its credentials hidden.
pub open spec fn upload_command_spec(base: Seq<char>, source: Seq<char>) -> Option<Seq<char>> {
    match masked_spec(base) {
        Some(m) => Some("Azure Storage Blob SAS upload "@ + source + " -> "@ + m),
        None => None,
    }
}

/// The line that stands for the upload of `source`.
pub fn display_upload_command(
    config: &NowConfig,
    process_value: Option<&str>,
    env_file: Option<&EnvFile>,
    source: &str,
) -> (r: Result<String, AzureBlobError>)
    ensures
        match site_base_spec(*config, crate::config::opt_str_view(process_value), env_file) {
            None => r matches Err(AzureBlobError::MissingSasUrl),
            Some(BlobUrl::Url(u)) => match upload_command_spec(u, source@) {
                Some(line) => r matches Ok(s) && s@ == line,
                None => r matches Err(AzureBlobError::InvalidUrl),
            },
            Some(BlobUrl::InvalidUrl) => r matches Err(AzureBlobError::InvalidUrl),
            Some(BlobUrl::NoContainerPath) => r matches Err(AzureBlobError::NoContainerPath),
            Some(BlobUrl::CannotBeBase) => r matches Err(AzureBlobError::CannotBeBase),
            Some(BlobUrl::UnsupportedPath) => r matches Err(AzureBlobError::UnsupportedPath(p))
                && Some(p@) == prefix_spec(config.azure_blob),
        },
{
    let base = upload_base_url(config, process_value, env_file)?;
    let masked = mask_sas_url(base.as_str())?;
    let mut s = "Azure Storage Blob SAS upload ".to_owned();
    push_str(&mut s, source);
    push_str(&mut s, " -> ");
    push_str(&mut s, masked.as_str());
    Ok(s)
}

/// The public URL of the blob at `relative` (the SAS query left out).
pub open spec fn public_blob_url_spec(
    c: NowConfig,
    process_value: Option<Seq<char>>,
    env_file: Option<&EnvFile>,
    relative: Seq<char>,
) -> Option<Seq<char>> {
    match site_base_spec(c, process_value, env_file) {
        Some(BlobUrl::Url(base)) => match blob_url_spec(base, relative) {
            BlobUrl::Url(u) => url_cleared_query(u),
            _ => None,
        },
        _ => None,
    }
}

/// The public URL of the blob at `relative_path`, when a SAS URL is
/// configured.
pub fn public_blob_url_for_relative_path(
    config: &NowConfig,
    process_value: Option<&str>,
    env_file: Option<&EnvFile>,
    relative_path: &str,
) -> (r: Option<String>)
    ensures
        opt_view(r) == public_blob_url_spec(
            *config,
            crate::config::opt_str_view(process_value),
            env_file,
            relative_path@,
        ),
{
    let base = match upload_base_url(config, process_value, env_file) {
        Ok(b) => b,
        Err(_) => return None,
    };
    let url = match blob_url_for_relative_path(base.as_str(), relative_path) {
        Ok(u) => u,
        Err(_) => return None,
    };
    url_without_query(url.as_str())
}

/// The public URL the site lives under (the SAS query left out).
pub open spec fn public_base_url_spec(
    c: NowConfig,
    process_value: Option<Seq<char>>,
    env_file: Option<&EnvFile>,
) -> Option<Seq<char>> {
    match site_base_spec(c, process_value, env_file) {
        Some(BlobUrl::Url(base)) => url_cleared_query(base),
        _ => None,
    }
}

/// The public URL the site lives under, when a SAS URL is configured.
pub fn public_base_url(
    config: &NowConfig,
    process_value: Option<&str>,
    env_file: Option<&EnvFile>,
) -> (r: Option<String>)
    ensures
        opt_view(r) == public_base_url_spec(
            *config,
            crate::config::opt_str_view(process_value),
            env_file,
        ),
{
    match upload_base_url(config, process_value, env_file) {
        Ok(b) => url_without_query(b.as_str()),
        Err(_) => None,
    }
}


// ---------------------------------------------------------------------
// Uploads.
// ---------------------------------------------------------------------
/// The index of the last `c` in `s`.
pub open spec fn last_index_of(s: Seq<char>, c: char) -> Option<int>
    decreases s.len(),
{
    if s.len() == 0 {
        None
    } else if s.last() == c {
        Some(s.len() - 1)
    } else {
        last_index_of(s.drop_last(), c)
    }
}

/// The extension of a file name (`Path::extension`): what follows the
/// last `.`, unless there is none or the only one starts the name.
pub open spec fn extension_spec(name: Seq<char>) -> Option<Seq<char>> {
    match last_index_of(name, '.') {
        None => None,
        Some(i) => if i == 0 {
            None
        } else {
            Some(name.skip(i + 1))
        },
    }
}

/// The content type for a lower-case extension.
pub open spec fn content_type_of_ext(e: Seq<char>) -> Seq<char> {
    if e == "html"@ || e == "htm"@ {
        "text/html; charset=utf-8"@
    } else if e == "css"@ {
        "text/css; charset=utf-8"@
    } else if e == "js"@ || e == "mjs"@ {
        "text/javascript; charset=utf-8"@
    } else if e == "json"@ {
        "application/json"@
    } else if e == "svg"@ {
        "image/svg+xml"@
    } else if e == "png"@ {
        "image/png"@
    } else if e == "jpg"@ || e == "jpeg"@ {
        "image/jpeg"@
    } else if e == "gif"@ {
        "image/gif"@
    } else if e == "webp"@ {
        "image/webp"@
    } else if e == "ico"@ {
        "image/x-icon"@
    } else if e == "wasm"@ {
        "application/wasm"@
    } else if e == "txt"@ {
        "text/plain; charset=utf-8"@
    } else if e == "xml"@ {
        "application/xml"@
    } else if e == "pdf"@ {
        "application/pdf"@
    } else {
        "application/octet-stream"@
    }
}

/// The content type a file is uploaded with, by its extension in any
/// ASCII case.
pub open spec fn content_type_spec(path: Seq<char>) -> Seq<char> {
    match crate::paths::file_name(components(path)) {
        Some(n) => match extension_spec(n) {
            Some(e) => content_type_of_ext(lower(e)),
            None => "application/octet-stream"@,
        },
        None => "application/octet-stream"@,
    }
}

fn last_dot(v: &Vec<char>) -> (r: Option<usize>)
    ensures
        match r {
            Some(i) => last_index_of(v@, '.') == Some(i as int) && i < v@.len(),
            None => last_index_of(v@, '.') is None,
        },
{
    let mut i = v.len();
    assert(v@.take(i as int) =~= v@);
    while i > 0
        invariant
            i <= v@.len(),
            last_index_of(v@, '.') == last_index_of(v@.take(i as int), '.'),
        decreases i,
    {
        assert(v@.take(i as int).drop_last() =~= v@.take(i - 1));
        assert(v@.take(i as int).last() == v@[i - 1]);
        if v[i - 1] == '.' {
            return Some(i - 1);
        }
        i = i - 1;
    }
    assert(v@.take(0) =~= Seq::<char>::empty());
    None
}

/// The extension of a file name.
pub fn extension_of_name(name: &str) -> (r: Option<String>)
    ensures
        opt_view(r) == extension_spec(name@),
{
    let v = chars_of(name);
    assert(v@.take(v@.len() as int) =~= v@);
    let found = last_dot(&v);
    match found {
        None => None,
        Some(i) => if i == 0 {
            None
        } else {
            let n = v.len();
            assert(i < n);
            let e = crate::text::string_of_range(v.as_slice(), i + 1, n);
            assert(v@.subrange(i + 1, v@.len() as int) =~= v@.skip(i + 1));
            Some(e)
        },
    }
}

fn type_for_ext(e: &str) -> (r: &'static str)
    ensures
        r@ == content_type_of_ext(e@),
{
    if str_eq(e, "html") || str_eq(e, "htm") {
        "text/html; charset=utf-8"
    } else if str_eq(e, "css") {
        "text/css; charset=utf-8"
    } else if str_eq(e, "js") || str_eq(e, "mjs") {
        "text/javascript; charset=utf-8"
    } else if str_eq(e, "json") {
        "application/json"
    } else if str_eq(e, "svg") {
        "image/svg+xml"
    } else if str_eq(e, "png") {
        "image/png"
    } else if str_eq(e, "jpg") || str_eq(e, "jpeg") {
        "image/jpeg"
    } else if str_eq(e, "gif") {
        "image/gif"
    } else if str_eq(e, "webp") {
        "image/webp"
    } else if str_eq(e, "ico") {
        "image/x-icon"
    } else if str_eq(e, "wasm") {
        "application/wasm"
    } else if str_eq(e, "txt") {
        "text/plain; charset=utf-8"
    } else if str_eq(e, "xml") {
        "application/xml"
    } else if str_eq(e, "pdf") {
        "application/pdf"
    } else {
        "application/octet-stream"
    }
}

/// The content type a file is uploaded with.
pub fn content_type_for_path(path: &str) -> (r: &'static str)
    ensures
        r@ == content_type_spec(path@),
{
    let comps = path_components(path);
    let ghost cs = comps@.map_values(|c: PathComponent| c@);
    if comps.len() == 0 {
        return "application/octet-stream";
    }
    assert(cs.last() == comps@[comps@.len() - 1]@);
    match &comps[comps.len() - 1] {
        PathComponent::Normal(n) => match extension_of_name(n.as_str()) {
            Some(e) => {
                let l = crate::text::lowered(e.as_str());
                type_for_ext(l.as_str())
            },
            None => "application/octet-stream",
        },
        _ => "application/octet-stream",
    }
}

/// What an upload sent: how many files and how many bytes.
#[derive(Debug, Clone, Copy, PartialEq, Eq, Structural)]
pub struct AzureBlobUploadSummary {
    pub files: usize,
    pub bytes: u64,
}

impl AzureBlobUploadSummary {
    /// Nothing sent yet.
    pub fn new() -> (r: Self)
        ensures
            r.files == 0 && r.bytes == 0,
    {
        AzureBlobUploadSummary { files: 0, bytes: 0 }
    }

    /// One more file of `bytes` bytes sent.
    pub fn add_file(&mut self, bytes: u64)
        requires
            old(self).files < usize::MAX,
            old(self).bytes + bytes <= u64::MAX,
        ensures
            final(self).files == old(self).files + 1,
            final(self).bytes == old(self).bytes + bytes,
    {
        self.files = self.files + 1;
        self.bytes = self.bytes + bytes;
    }
}

/// One file's upload: where it goes and its content type.
#[derive(Debug)]
pub struct BlobUpload {
    pub url: String,
    pub content_type: &'static str,
}

/// The upload of the file at `relative` (relative to the site's root)
/// under the URL the site goes under.
pub fn blob_upload(base_url: &str, relative: &str) -> (r: Result<BlobUpload, AzureBlobError>)
    ensures
        match blob_url_spec(base_url@, relative@) {
            BlobUrl::Url(u) => r matches Ok(b) && b.url@ == u && b.content_type@
                == content_type_spec(relative@),
            BlobUrl::InvalidUrl => r matches Err(AzureBlobError::InvalidUrl),
            BlobUrl::NoContainerPath => r matches Err(AzureBlobError::NoContainerPath),
            BlobUrl::CannotBeBase => r matches Err(AzureBlobError::CannotBeBase),
            BlobUrl::UnsupportedPath => r matches Err(AzureBlobError::UnsupportedPath(p)) && p@
                == relative@,
        },
{
    let url = blob_url_for_relative_path(base_url, relative)?;
    Ok(BlobUpload { url, content_type: content_type_for_path(relative) })
}


/// The message of an Azure Storage Blob error.
pub open spec fn blob_error_text(e: AzureBlobError) -> Seq<char> {
    match e {
        AzureBlobError::MissingSasUrl => "Azure Storage Blob SAS URL is required: set azure_blob.sas_url_env and provide the URL in that environment variable or in .env"@,
        AzureBlobError::InvalidUrl => "azure_blob SAS URL must be a valid URL"@,
        AzureBlobError::NoContainerPath => "azure_blob SAS URL must include a container path"@,
        AzureBlobError::CannotBeBase => "azure_blob SAS URL cannot be used as a blob base URL"@,
        AzureBlobError::UnsupportedPath(p) => "unsupported relative path: "@ + p@,
    }
}

impl AzureBlobError {
    /// The message shown to the user.
    pub fn message(&self) -> (r: String)
        ensures
            r@ == blob_error_text(*self),
    {
        match self {
            AzureBlobError::MissingSasUrl => "Azure Storage Blob SAS URL is required: set azure_blob.sas_url_env and provide the URL in that environment variable or in .env".to_owned(),
            AzureBlobError::InvalidUrl => "azure_blob SAS URL must be a valid URL".to_owned(),
            AzureBlobError::NoContainerPath => "azure_blob SAS URL must include a container path".to_owned(),
            AzureBlobError::CannotBeBase => "azure_blob SAS URL cannot be used as a blob base URL".to_owned(),
            AzureBlobError::UnsupportedPath(p) => {
                let mut m = "unsupported relative path: ".to_owned();
                push_str(&mut m, p.as_str());
                m
            },
        }
    }
}


/// What `display_upload_command` reports: the line, or the message of
/// why there is none.
pub open spec fn upload_command_report(
    c: NowConfig,
    process_value: Option<Seq<char>>,
    env_file: Option<&EnvFile>,
    source: Seq<char>,
) -> Result<Seq<char>, Seq<char>> {
    match site_base_spec(c, process_value, env_file) {
        None => Err(blob_error_text(AzureBlobError::MissingSasUrl)),
        Some(BlobUrl::Url(u)) => match upload_command_spec(u, source) {
            Some(line) => Ok(line),
            None => Err(blob_error_text(AzureBlobError::InvalidUrl)),
        },
        Some(BlobUrl::InvalidUrl) => Err(blob_error_text(AzureBlobError::InvalidUrl)),
        Some(BlobUrl::NoContainerPath) => Err(blob_error_text(AzureBlobError::NoContainerPath)),
        Some(BlobUrl::CannotBeBase) => Err(blob_error_text(AzureBlobError::CannotBeBase)),
        Some(BlobUrl::UnsupportedPath) => Err(
            "unsupported relative path: "@ + crate::config::opt_or_empty(prefix_spec(c.azure_blob)),
        ),
    }
}


/// Stylesheets are uploaded as CSS: a path whose file name ends in `.css`,
/// in any ASCII case, after at least one character, gets the content type
/// `text/css; charset=utf-8`.
pub proof fn lemma_css_content_type(path: Seq<char>, stem: Seq<char>, a: char, b: char, c: char)
    requires
        crate::paths::file_name(components(path)) == Some(stem + seq!['.', a, b, c]),
        stem.len() > 0,
        a == 'c' || a == 'C',
        b == 's' || b == 'S',
        c == 's' || c == 'S',
    ensures
        content_type_spec(path) == "text/css; charset=utf-8"@,
{
    let n = stem + seq!['.', a, b, c];
    let n1 = n.drop_last();
    let n2 = n1.drop_last();
    let n3 = n2.drop_last();
    assert(n1 =~= stem + seq!['.', a, b]);
    assert(n2 =~= stem + seq!['.', a]);
    assert(n3 =~= stem + seq!['.']);
    assert(n.last() == c);
    assert(n1.last() == b);
    assert(n2.last() == a);
    assert(n3.last() == '.');
    assert(last_index_of(n3, '.') == Some(stem.len() as int));
    assert(last_index_of(n2, '.') == Some(stem.len() as int));
    assert(last_index_of(n1, '.') == Some(stem.len() as int));
    assert(last_index_of(n, '.') == Some(stem.len() as int));
    let e = n.skip(stem.len() + 1int);
    assert(e =~= seq![a, b, c]);
    reveal_strlit("css");
    assert(crate::text::lower_char(a) == 'c');
    assert(crate::text::lower_char(b) == 's');
    assert(crate::text::lower_char(c) == 's');
    assert(lower(e) =~= "css"@);
    assert(extension_spec(n) == Some(e));
    reveal_strlit("html");
    reveal_strlit("htm");
    assert("css"@ != "html"@ && "css"@ != "htm"@) by {
        assert("css"@.len() != "html"@.len());
        assert("css"@[2] != "htm"@[2]);
    }
    assert(content_type_of_ext(lower(e)) == "text/css; charset=utf-8"@);
}


proof fn lemma_last_dot_before_extension(stem: Seq<char>, ext: Seq<char>)
    requires
        forall|i: int| 0 <= i < ext.len() ==> ext[i] != '.',
    ensures
        last_index_of(stem + seq!['.'] + ext, '.') == Some(stem.len() as int),
    decreases ext.len(),
{
    let n = stem + seq!['.'] + ext;
    if ext.len() == 0 {
        assert(n =~= stem + seq!['.']);
        assert(n.last() == '.');
    } else {
        assert(n.drop_last() =~= stem + seq!['.'] + ext.drop_last());
        assert(n.last() == ext.last());
        lemma_last_dot_before_extension(stem, ext.drop_last());
    }
}

/// The extension of a file name is what follows its last dot, when the
/// name has something before that dot.
pub proof fn lemma_extension_of_name(stem: Seq<char>, ext: Seq<char>)
    requires
        stem.len() > 0,
        forall|i: int| 0 <= i < ext.len() ==> ext[i] != '.',
    ensures
        extension_spec(stem + seq!['.'] + ext) == Some(ext),
{
    lemma_last_dot_before_extension(stem, ext);
    assert((stem + seq!['.'] + ext).skip(stem.len() + 1int) =~= ext);
}

/// The content type a file is uploaded with follows its extension, in any
/// ASCII case: web pages, stylesheets, scripts, JSON, images, WebAssembly,
/// text, XML and PDF each get their own type, anything else is sent as
/// bytes.
pub proof fn lemma_content_type_by_extension(path: Seq<char>, stem: Seq<char>, ext: Seq<char>)
    requires
        crate::paths::file_name(components(path)) == Some(stem + seq!['.'] + ext),
        stem.len() > 0,
        forall|i: int| 0 <= i < ext.len() ==> ext[i] != '.',
    ensures
        ({
            let l = lower(ext);
            let t = content_type_spec(path);
            &&& (l == "html"@ || l == "htm"@) ==> t == "text/html; charset=utf-8"@
            &&& l == "css"@ ==> t == "text/css; charset=utf-8"@
            &&& (l == "js"@ || l == "mjs"@) ==> t == "text/javascript; charset=utf-8"@
            &&& l == "json"@ ==> t == "application/json"@
            &&& l == "svg"@ ==> t == "image/svg+xml"@
            &&& l == "png"@ ==> t == "image/png"@
            &&& (l == "jpg"@ || l == "jpeg"@) ==> t == "image/jpeg"@
            &&& l == "gif"@ ==> t == "image/gif"@
            &&& l == "webp"@ ==> t == "image/webp"@
            &&& l == "ico"@ ==> t == "image/x-icon"@
            &&& l == "wasm"@ ==> t == "application/wasm"@
            &&& l == "txt"@ ==> t == "text/plain; charset=utf-8"@
            &&& l == "xml"@ ==> t == "application/xml"@
            &&& l == "pdf"@ ==> t == "application/pdf"@
        }),
{
    lemma_extension_of_name(stem, ext);
    reveal_strlit("html");
    reveal_strlit("htm");
    reveal_strlit("css");
    reveal_strlit("js");
    reveal_strlit("mjs");
    reveal_strlit("json");
    reveal_strlit("svg");
    reveal_strlit("png");
    reveal_strlit("jpg");
    reveal_strlit("jpeg");
    reveal_strlit("gif");
    reveal_strlit("webp");
    reveal_strlit("ico");
    reveal_strlit("wasm");
    reveal_strlit("txt");
    reveal_strlit("xml");
    reveal_strlit("pdf");
    assert(content_type_spec(path) == content_type_of_ext(lower(ext)));
    let l = lower(ext);
    if l == "htm"@ {
        assert("htm"@.len() != "html"@.len());
    }
    if l == "css"@ {
        assert("css"@.len() != "html"@.len());
        assert("css"@[0] != "htm"@[0]);
    }
    if l == "js"@ {
        assert("js"@.len() != "html"@.len());
        assert("js"@.len() != "htm"@.len());
        assert("js"@.len() != "css"@.len());
    }
    if l == "mjs"@ {
        assert("mjs"@.len() != "html"@.len());
        assert("mjs"@[0] != "htm"@[0]);
        assert("mjs"@[0] != "css"@[0]);
        assert("mjs"@.len() != "js"@.len());
    }
    if l == "json"@ {
        assert("json"@[0] != "html"@[0]);
        assert("json"@.len() != "htm"@.len());
        assert("json"@.len() != "css"@.len());
        assert("json"@.len() != "js"@.len());
        assert("json"@.len() != "mjs"@.len());
    }
    if l == "svg"@ {
        assert("svg"@.len() != "html"@.len());
        assert("svg"@[0] != "htm"@[0]);
        assert("svg"@[0] != "css"@[0]);
        assert("svg"@.len() != "js"@.len());
        assert("svg"@[0] != "mjs"@[0]);
        assert("svg"@.len() != "json"@.len());
    }
    if l == "png"@ {
        assert("png"@.len() != "html"@.len());
        assert("png"@[0] != "htm"@[0]);
        assert("png"@[0] != "css"@[0]);
        assert("png"@.len() != "js"@.len());
        assert("png"@[0] != "mjs"@[0]);
        assert("png"@.len() != "json"@.len());
        assert("png"@[0] != "svg"@[0]);
    }
    if l == "jpg"@ {
        assert("jpg"@.len() != "html"@.len());
        assert("jpg"@[0] != "htm"@[0]);
        assert("jpg"@[0] != "css"@[0]);
        assert("jpg"@.len() != "js"@.len());
        assert("jpg"@[0] != "mjs"@[0]);
        assert("jpg"@.len() != "json"@.len());
        assert("jpg"@[0] != "svg"@[0]);
        assert("jpg"@[0] != "png"@[0]);
    }
    if l == "jpeg"@ {
        assert("jpeg"@[0] != "html"@[0]);
        assert("jpeg"@.len() != "htm"@.len());
        assert("jpeg"@.len() != "css"@.len());
        assert("jpeg"@.len() != "js"@.len());
        assert("jpeg"@.len() != "mjs"@.len());
        assert("jpeg"@[1] != "json"@[1]);
        assert("jpeg"@.len() != "svg"@.len());
        assert("jpeg"@.len() != "png"@.len());
        assert("jpeg"@.len() != "jpg"@.len());
    }
    if l == "gif"@ {
        assert("gif"@.len() != "html"@.len());
        assert("gif"@[0] != "htm"@[0]);
        assert("gif"@[0] != "css"@[0]);
        assert("gif"@.len() != "js"@.len());
        assert("gif"@[0] != "mjs"@[0]);
        assert("gif"@.len() != "json"@.len());
        assert("gif"@[0] != "svg"@[0]);
        assert("gif"@[0] != "png"@[0]);
        assert("gif"@[0] != "jpg"@[0]);
        assert("gif"@.len() != "jpeg"@.len());
    }
    if l == "webp"@ {
        assert("webp"@[0] != "html"@[0]);
        assert("webp"@.len() != "htm"@.len());
        assert("webp"@.len() != "css"@.len());
        assert("webp"@.len() != "js"@.len());
        assert("webp"@.len() != "mjs"@.len());
        assert("webp"@[0] != "json"@[0]);
        assert("webp"@.len() != "svg"@.len());
        assert("webp"@.len() != "png"@.len());
        assert("webp"@.len() != "jpg"@.len());
        assert("webp"@[0] != "jpeg"@[0]);
        assert("webp"@.len() != "gif"@.len());
    }
    if l == "ico"@ {
        assert("ico"@.len() != "html"@.len());
        assert("ico"@[0] != "htm"@[0]);
        assert("ico"@[0] != "css"@[0]);
        assert("ico"@.len() != "js"@.len());
        assert("ico"@[0] != "mjs"@[0]);
        assert("ico"@.len() != "json"@.len());
        assert("ico"@[0] != "svg"@[0]);
        assert("ico"@[0] != "png"@[0]);
        assert("ico"@[0] != "jpg"@[0]);
        assert("ico"@.len() != "jpeg"@.len());
        assert("ico"@[0] != "gif"@[0]);
        assert("ico"@.len() != "webp"@.len());
    }
    if l == "wasm"@ {
        assert("wasm"@[0] != "html"@[0]);
        assert("wasm"@.len() != "htm"@.len());
        assert("wasm"@.len() != "css"@.len());
        assert("wasm"@.len() != "js"@.len());
        assert("wasm"@.len() != "mjs"@.len());
        assert("wasm"@[0] != "json"@[0]);
        assert("wasm"@.len() != "svg"@.len());
        assert("wasm"@.len() != "png"@.len());
        assert("wasm"@.len() != "jpg"@.len());
        assert("wasm"@[0] != "jpeg"@[0]);
        assert("wasm"@.len() != "gif"@.len());
        assert("wasm"@[1] != "webp"@[1]);
        assert("wasm"@.len() != "ico"@.len());
    }
    if l == "txt"@ {
        assert("txt"@.len() != "html"@.len());
        assert("txt"@[0] != "htm"@[0]);
        assert("txt"@[0] != "css"@[0]);
        assert("txt"@.len() != "js"@.len());
        assert("txt"@[0] != "mjs"@[0]);
        assert("txt"@.len() != "json"@.len());
        assert("txt"@[0] != "svg"@[0]);
        assert("txt"@[0] != "png"@[0]);
        assert("txt"@[0] != "jpg"@[0]);
        assert("txt"@.len() != "jpeg"@.len());
        assert("txt"@[0] != "gif"@[0]);
        assert("txt"@.len() != "webp"@.len());
        assert("txt"@[0] != "ico"@[0]);
        assert("txt"@.len() != "wasm"@.len());
    }
    if l == "xml"@ {
        assert("xml"@.len() != "html"@.len());
        assert("xml"@[0] != "htm"@[0]);
        assert("xml"@[0] != "css"@[0]);
        assert("xml"@.len() != "js"@.len());
        assert("xml"@[0] != "mjs"@[0]);
        assert("xml"@.len() != "json"@.len());
        assert("xml"@[0] != "svg"@[0]);
        assert("xml"@[0] != "png"@[0]);
        assert("xml"@[0] != "jpg"@[0]);
        assert("xml"@.len() != "jpeg"@.len());
        assert("xml"@[0] != "gif"@[0]);
        assert("xml"@.len() != "webp"@.len());
        assert("xml"@[0] != "ico"@[0]);
        assert("xml"@.len() != "wasm"@.len());
        assert("xml"@[0] != "txt"@[0]);
    }
    if l == "pdf"@ {
        assert("pdf"@.len() != "html"@.len());
        assert("pdf"@[0] != "htm"@[0]);
        assert("pdf"@[0] != "css"@[0]);
        assert("pdf"@.len() != "js"@.len());
        assert("pdf"@[0] != "mjs"@[0]);
        assert("pdf"@.len() != "json"@.len());
        assert("pdf"@[0] != "svg"@[0]);
        assert("pdf"@[1] != "png"@[1]);
        assert("pdf"@[0] != "jpg"@[0]);
        assert("pdf"@.len() != "jpeg"@.len());
        assert("pdf"@[0] != "gif"@[0]);
        assert("pdf"@.len() != "webp"@.len());
        assert("pdf"@[0] != "ico"@[0]);
        assert("pdf"@.len() != "wasm"@.len());
        assert("pdf"@[0] != "txt"@[0]);
        assert("pdf"@[0] != "xml"@[0]);
    }
}

} // verus!
