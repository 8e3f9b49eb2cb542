//! Which files are left out when a project directory is published as it is.
use crate::paths::{components, file_name, path_components, strip_components, Comp, PathComponent};
use crate::text::{ends_with, starts_with, str_ends_with, str_eq, str_starts_with};
use vstd::prelude::*;

verus! {

/// Directories that are never published: `.git`, `node_modules`, `target`.
pub open spec fn is_excluded_dir_name(n: Seq<char>) -> bool {
    n == ".git"@ || n == "node_modules"@ || n == "target"@
}

/// Files that are never published by name: `.now.json`, `.DS_Store`.
pub open spec fn is_excluded_file_name(n: Seq<char>) -> bool {
    n == ".now.json"@ || n == ".DS_Store"@
}

/// Editor and temporary files.
pub open spec fn is_temp(n: Seq<char>) -> bool {
    ||| ends_with(n, "~"@)
    ||| ends_with(n, ".tmp"@)
    ||| ends_with(n, ".temp"@)
    ||| ends_with(n, ".swp"@)
    ||| ends_with(n, ".bak"@)
    ||| starts_with(n, ".#"@)
}

/// `.env` and `.env.*` files hold secrets.
pub open spec fn is_env_file_name(n: Seq<char>) -> bool {
    n == ".env"@ || starts_with(n, ".env."@)
}

/// A path, given by its components, is left out when one of its normal
/// components is an excluded directory, or when its file name is excluded.
pub open spec fn excluded(cs: Seq<Comp>) -> bool {
    ||| exists|i: int|
        0 <= i < cs.len() && (#[trigger] cs[i] matches Comp::Normal(n) && is_excluded_dir_name(n))
    ||| match file_name(cs) {
        Some(n) => is_excluded_file_name(n) || is_env_file_name(n) || is_temp(n),
        None => false,
    }
}

/// The path relative to `root` when it lies under it, else the path itself.
pub open spec fn relative_components(root: Seq<char>, path: Seq<char>) -> Seq<Comp> {
    match strip_components(components(path), components(root)) {
        Some(rest) => rest,
        None => components(path),
    }
}

fn is_excluded_dir_str(n: &str) -> (b: bool)
    ensures
        b == is_excluded_dir_name(n@),
{
    str_eq(n, ".git") || str_eq(n, "node_modules") || str_eq(n, "target")
}

/// Whether a file name marks an editor or temporary file.
pub fn is_temp_name(name: &str) -> (b: bool)
    ensures
        b == is_temp(name@),
{
    str_ends_with(name, "~") || str_ends_with(name, ".tmp") || str_ends_with(name, ".temp")
        || str_ends_with(name, ".swp") || str_ends_with(name, ".bak") || str_starts_with(
        name,
        ".#",
    )
}

fn file_name_excluded(n: &str) -> (b: bool)
    ensures
        b == (is_excluded_file_name(n@) || is_env_file_name(n@) || is_temp(n@)),
{
    str_eq(n, ".now.json") || str_eq(n, ".DS_Store") || str_eq(n, ".env") || str_starts_with(
        n,
        ".env.",
    ) || is_temp_name(n)
}

/// Whether the components `cs[from..]` name an excluded path.
fn components_excluded(cs: &Vec<PathComponent>, from: usize) -> (b: bool)
    requires
        from <= cs@.len(),
    ensures
        b == excluded(cs@.map_values(|c: PathComponent| c@).skip(from as int)),
{
    let ghost v = cs@.map_values(|c: PathComponent| c@).skip(from as int);
    let mut i = from;
    while i < cs.len()
        invariant
            from <= i <= cs@.len(),
            v == cs@.map_values(|c: PathComponent| c@).skip(from as int),
            forall|j: int|
                0 <= j < i - from ==> !(#[trigger] v[j] matches Comp::Normal(n)
                    && is_excluded_dir_name(n)),
        decreases cs@.len() - i,
    {
        match &cs[i] {
            PathComponent::Normal(n) => {
                if is_excluded_dir_str(n.as_str()) {
                    assert(v[i - from] == cs@[i as int]@);
                    return true;
                }
            },
            _ => {},
        }
        assert(v[i - from] == cs@[i as int]@);
        i = i + 1;
    }
    if cs.len() > from {
        assert(v.last() == cs@[cs@.len() - 1]@);
        match &cs[cs.len() - 1] {
            PathComponent::Normal(n) => file_name_excluded(n.as_str()),
            _ => false,
        }
    } else {
        false
    }
}

fn component_eq(a: &PathComponent, b: &PathComponent) -> (r: bool)
    ensures
        r == (a@ == b@),
{
    match (a, b) {
        (PathComponent::RootDir, PathComponent::RootDir) => true,
        (PathComponent::CurDir, PathComponent::CurDir) => true,
        (PathComponent::ParentDir, PathComponent::ParentDir) => true,
        (PathComponent::Normal(x), PathComponent::Normal(y)) => str_eq(x.as_str(), y.as_str()),
        _ => false,
    }
}

/// Whether `prefix` is a leading part of `cs`.
fn components_start_with(cs: &Vec<PathComponent>, prefix: &Vec<PathComponent>) -> (r: bool)
    ensures
        r == (prefix@.len() <= cs@.len() && cs@.map_values(|c: PathComponent| c@).take(
            prefix@.len() as int,
        ) == prefix@.map_values(|c: PathComponent| c@)),
{
    let ghost a = cs@.map_values(|c: PathComponent| c@);
    let ghost b = prefix@.map_values(|c: PathComponent| c@);
    if prefix.len() > cs.len() {
        return false;
    }
    let mut i: usize = 0;
    while i < prefix.len()
        invariant
            prefix@.len() <= cs@.len(),
            i <= prefix@.len(),
            a == cs@.map_values(|c: PathComponent| c@),
            b == prefix@.map_values(|c: PathComponent| c@),
            forall|j: int| 0 <= j < i ==> a[j] == b[j],
        decreases prefix@.len() - i,
    {
        if !component_eq(&cs[i], &prefix[i]) {
            assert(a.take(prefix@.len() as int)[i as int] != b[i as int]);
            return false;
        }
        i = i + 1;
    }
    assert(a.take(prefix@.len() as int) =~= b);
    true
}

/// Whether a path, read relative to the published directory, is left out.
pub fn is_excluded_relative(path: &str) -> (b: bool)
    ensures
        b == excluded(components(path@)),
{
    let cs = path_components(path);
    let b = components_excluded(&cs, 0);
    assert(cs@.map_values(|c: PathComponent| c@).skip(0) =~= cs@.map_values(
        |c: PathComponent| c@,
    ));
    b
}

/// Whether `path` is left out of a publication of `root`: the part of
/// `path` under `root` is read as a relative path.
pub fn is_excluded_path(root: &str, path: &str) -> (b: bool)
    ensures
        b == excluded(relative_components(root@, path@)),
{
    let pcs = path_components(path);
    let rcs = path_components(root);
    if components_start_with(&pcs, &rcs) {
        components_excluded(&pcs, rcs.len())
    } else {
        let b = components_excluded(&pcs, 0);
        assert(pcs@.map_values(|c: PathComponent| c@).skip(0) =~= pcs@.map_values(
            |c: PathComponent| c@,
        ));
        b
    }
}


/// Runtime files are never published: a path (relative to the project
/// root) whose file name is `.DS_Store`, `.now.json` or `.env` is left out,
/// wherever it lies.
pub proof fn lemma_runtime_files_excluded(cs: Seq<Comp>, name: Seq<char>)
    requires
        cs.len() > 0,
        cs.last() == Comp::Normal(name),
        name == ".DS_Store"@ || name == ".now.json"@ || name == ".env"@,
    ensures
        excluded(cs),
{
    assert(file_name(cs) == Some(name));
}

/// Nothing under `.git`, `node_modules` or `target` is published.
pub proof fn lemma_excluded_dirs_hide_their_contents(cs: Seq<Comp>, i: int)
    requires
        0 <= i < cs.len(),
        cs[i] == Comp::Normal(".git"@) || cs[i] == Comp::Normal("node_modules"@) || cs[i]
            == Comp::Normal("target"@),
    ensures
        excluded(cs),
{
    assert(cs[i] matches Comp::Normal(n) && is_excluded_dir_name(n));
}


/// Secret and temporary files are never published: a file named
/// `.env.<anything>`, `.#<anything>`, or ending in `~`, `.tmp`, `.temp`,
/// `.swp` or `.bak` is left out.
pub proof fn lemma_secret_and_temp_files_excluded(cs: Seq<Comp>, name: Seq<char>, part: Seq<char>)
    requires
        cs.len() > 0,
        cs.last() == Comp::Normal(name),
        name == ".env."@ + part || name == ".#"@ + part || name == part + "~"@ || name == part
            + ".tmp"@ || name == part + ".temp"@ || name == part + ".swp"@ || name == part + ".bak"@,
    ensures
        excluded(cs),
{
    assert(file_name(cs) == Some(name));
    if name == ".env."@ + part {
        assert(name.take(".env."@.len() as int) =~= ".env."@);
    } else if name == ".#"@ + part {
        assert(name.take(".#"@.len() as int) =~= ".#"@);
    } else if name == part + "~"@ {
        assert(name.skip(name.len() - "~"@.len()) =~= "~"@);
    } else if name == part + ".tmp"@ {
        assert(name.skip(name.len() - ".tmp"@.len()) =~= ".tmp"@);
    } else if name == part + ".temp"@ {
        assert(name.skip(name.len() - ".temp"@.len()) =~= ".temp"@);
    } else if name == part + ".swp"@ {
        assert(name.skip(name.len() - ".swp"@.len()) =~= ".swp"@);
    } else {
        assert(name.skip(name.len() - ".bak"@.len()) =~= ".bak"@);
    }
}

} // verus!
