//! Paths as `/`-separated strings, read the way `std::path::Path` reads
//! them on Unix: components, file names, prefixes and joins.
use crate::text::{chars_of, push_char, push_range, split_on, string_of, string_of_range};
use vstd::prelude::*;

verus! {

/// One component of a path (`std::path::Component` without Windows
/// prefixes).
pub ghost enum Comp {
    RootDir,
    CurDir,
    ParentDir,
    Normal(Seq<char>),
}

/// A component of a path, as a value.
#[derive(Debug)]
pub enum PathComponent {
    RootDir,
    CurDir,
    ParentDir,
    Normal(String),
}

impl View for PathComponent {
    type V = Comp;

    open spec fn view(&self) -> Comp {
        match self {
            PathComponent::RootDir => Comp::RootDir,
            PathComponent::CurDir => Comp::CurDir,
            PathComponent::ParentDir => Comp::ParentDir,
            PathComponent::Normal(s) => Comp::Normal(s@),
        }
    }
}

pub open spec fn dot() -> Seq<char> {
    seq!['.']
}

pub open spec fn dot_dot() -> Seq<char> {
    seq!['.', '.']
}

/// A piece between separators that names a component: not empty, not `.`.
pub open spec fn is_meaningful(p: Seq<char>) -> bool {
    p.len() > 0 && p != dot()
}

/// The pieces that name components, in order.
pub open spec fn keep_meaningful(ps: Seq<Seq<char>>) -> Seq<Seq<char>>
    decreases ps.len(),
{
    if ps.len() == 0 {
        Seq::<Seq<char>>::empty()
    } else {
        let r = keep_meaningful(ps.drop_last());
        if is_meaningful(ps.last()) {
            r.push(ps.last())
        } else {
            r
        }
    }
}

pub open spec fn comp_of_piece(p: Seq<char>) -> Comp {
    if p == dot_dot() {
        Comp::ParentDir
    } else {
        Comp::Normal(p)
    }
}

pub open spec fn has_root(s: Seq<char>) -> bool {
    s.len() > 0 && s[0] == '/'
}

/// A relative path that starts with the current directory: `.` or `./...`.
pub open spec fn starts_with_cur_dir(s: Seq<char>) -> bool {
    s.len() > 0 && s[0] == '.' && (s.len() == 1 || s[1] == '/')
}

/// The components of a path (`Path::components`).
pub open spec fn components(s: Seq<char>) -> Seq<Comp> {
    let head = if has_root(s) {
        seq![Comp::RootDir]
    } else if starts_with_cur_dir(s) {
        seq![Comp::CurDir]
    } else {
        Seq::<Comp>::empty()
    };
    head + keep_meaningful(split_on(s, '/')).map_values(|p: Seq<char>| comp_of_piece(p))
}

/// The last component when it is a normal one (`Path::file_name`).
pub open spec fn file_name(cs: Seq<Comp>) -> Option<Seq<char>> {
    if cs.len() > 0 {
        match cs.last() {
            Comp::Normal(n) => Some(n),
            _ => None,
        }
    } else {
        None
    }
}

/// What is left of `cs` after the components of `prefix`
/// (`Path::strip_prefix`).
pub open spec fn strip_components(cs: Seq<Comp>, prefix: Seq<Comp>) -> Option<Seq<Comp>> {
    if prefix.len() <= cs.len() && cs.take(prefix.len() as int) == prefix {
        Some(cs.skip(prefix.len() as int))
    } else {
        None
    }
}

/// `root` joined with `p` (`Path::join`): an absolute `p` replaces `root`.
pub open spec fn join_path(root: Seq<char>, p: Seq<char>) -> Seq<char> {
    if has_root(p) {
        p
    } else if root.len() == 0 || root.last() == '/' {
        root + p
    } else {
        root + seq!['/'] + p
    }
}

proof fn lemma_split_step(s: Seq<char>, i: int, sep: char)
    requires
        0 <= i < s.len(),
    ensures
        split_on(s.take(i + 1), sep) == ({
            let r = split_on(s.take(i), sep);
            if s[i] == sep {
                r.push(Seq::<char>::empty())
            } else {
                r.update(r.len() - 1, r.last().push(s[i]))
            }
        }),
{
    assert(s.take(i + 1).drop_last() =~= s.take(i));
}

fn is_dot_dot(v: &[char], start: usize, end: usize) -> (b: bool)
    requires
        start <= end <= v@.len(),
    ensures
        b == (v@.subrange(start as int, end as int) == dot_dot()),
{
    if end - start == 2 && v[start] == '.' && v[start + 1] == '.' {
        assert(v@.subrange(start as int, end as int) =~= dot_dot());
        true
    } else {
        proof {
            if end - start == 2 {
                assert(v@.subrange(start as int, end as int)[0] == v@[start as int]);
                assert(v@.subrange(start as int, end as int)[1] == v@[start + 1]);
            }
        }
        false
    }
}

fn is_meaningful_range(v: &[char], start: usize, end: usize) -> (b: bool)
    requires
        start <= end <= v@.len(),
    ensures
        b == is_meaningful(v@.subrange(start as int, end as int)),
{
    if end == start {
        false
    } else if end - start == 1 && v[start] == '.' {
        assert(v@.subrange(start as int, end as int) =~= dot());
        false
    } else {
        proof {
            if end - start == 1 {
                assert(v@.subrange(start as int, end as int)[0] == v@[start as int]);
                assert(dot()[0] == '.');
            }
            assert(dot().len() == 1);
            assert(v@.subrange(start as int, end as int) != dot());
        }
        true
    }
}

/// The components of a path.
pub fn path_components(path: &str) -> (r: Vec<PathComponent>)
    ensures
        r@.map_values(|c: PathComponent| c@) == components(path@),
{
    let v = chars_of(path);
    let n = v.len();
    let mut out: Vec<PathComponent> = Vec::new();
    let ghost head: Seq<Comp>;
    if n > 0 && v[0] == '/' {
        out.push(PathComponent::RootDir);
        proof {
            head = seq![Comp::RootDir];
        }
    } else if n > 0 && v[0] == '.' && (n == 1 || v[1] == '/') {
        out.push(PathComponent::CurDir);
        proof {
            head = seq![Comp::CurDir];
        }
    } else {
        proof {
            head = Seq::<Comp>::empty();
        }
    }
    assert(out@.map_values(|c: PathComponent| c@) =~= head);
    let ghost mut pieces: Seq<Seq<char>> = Seq::empty();
    let mut start: usize = 0;
    let mut i: usize = 0;
    assert(v@.take(0) =~= Seq::<char>::empty());
    assert(split_on(v@.take(0), '/') =~= pieces.push(v@.subrange(0, 0)));
    while i < n
        invariant
            n == v@.len(),
            v@ == path@,
            start <= i <= n,
            split_on(v@.take(i as int), '/') == pieces.push(v@.subrange(start as int, i as int)),
            out@.map_values(|c: PathComponent| c@) == head + keep_meaningful(pieces).map_values(
                |p: Seq<char>| comp_of_piece(p),
            ),
        decreases n - i,
    {
        proof {
            lemma_split_step(v@, i as int, '/');
        }
        if v[i] == '/' {
            let ghost piece = v@.subrange(start as int, i as int);
            push_piece(&mut out, v.as_slice(), start, i);
            proof {
                assert(pieces.push(piece).drop_last() =~= pieces);
                let k = keep_meaningful(pieces);
                let f = |p: Seq<char>| comp_of_piece(p);
                if is_meaningful(piece) {
                    assert(keep_meaningful(pieces.push(piece)) == k.push(piece));
                    assert(k.push(piece).map_values(f) =~= k.map_values(f).push(f(piece)));
                    assert((head + k.map_values(f)).push(f(piece)) =~= head + k.push(
                        piece,
                    ).map_values(f));
                } else {
                    assert(keep_meaningful(pieces.push(piece)) == k);
                }
                pieces = pieces.push(piece);
            }
            start = i + 1;
        } else {
        }
        i = i + 1;
        assert(v@.subrange(start as int, i as int) =~= if start == i {
            Seq::<char>::empty()
        } else {
            v@.subrange(start as int, i - 1).push(v@[i - 1])
        });
        assert(split_on(v@.take(i as int), '/') =~= pieces.push(
            v@.subrange(start as int, i as int),
        ));
    }
    let ghost last = v@.subrange(start as int, n as int);
    push_piece(&mut out, v.as_slice(), start, n);
    proof {
        assert(v@.take(n as int) =~= v@);
        assert(pieces.push(last).drop_last() =~= pieces);
        let k = keep_meaningful(pieces);
        let f = |p: Seq<char>| comp_of_piece(p);
        if is_meaningful(last) {
            assert(keep_meaningful(pieces.push(last)) == k.push(last));
            assert(k.push(last).map_values(f) =~= k.map_values(f).push(f(last)));
            assert((head + k.map_values(f)).push(f(last)) =~= head + k.push(last).map_values(f));
        } else {
            assert(keep_meaningful(pieces.push(last)) == k);
        }
        assert(head == if has_root(path@) {
            seq![Comp::RootDir]
        } else if starts_with_cur_dir(path@) {
            seq![Comp::CurDir]
        } else {
            Seq::<Comp>::empty()
        });
    }
    out
}

/// Appends the component named by `v[start..end]`, if it names one.
fn push_piece(out: &mut Vec<PathComponent>, v: &[char], start: usize, end: usize)
    requires
        start <= end <= v@.len(),
    ensures
        final(out)@.map_values(|c: PathComponent| c@) == if is_meaningful(
            v@.subrange(start as int, end as int),
        ) {
            old(out)@.map_values(|c: PathComponent| c@).push(
                comp_of_piece(v@.subrange(start as int, end as int)),
            )
        } else {
            old(out)@.map_values(|c: PathComponent| c@)
        },
{
    if is_meaningful_range(v, start, end) {
        if is_dot_dot(v, start, end) {
            out.push(PathComponent::ParentDir);
        } else {
            out.push(PathComponent::Normal(string_of_range(v, start, end)));
        }
        assert(out@.map_values(|c: PathComponent| c@) =~= old(out)@.map_values(
            |c: PathComponent| c@,
        ).push(comp_of_piece(v@.subrange(start as int, end as int))));
    }
}

/// `root` joined with `p`.
pub fn join(root: &str, p: &str) -> (r: String)
    ensures
        r@ == join_path(root@, p@),
{
    let pv = chars_of(p);
    let rv = chars_of(root);
    if pv.len() > 0 && pv[0] == '/' {
        return string_of(pv.as_slice());
    }
    let mut out = string_of(rv.as_slice());
    if !(rv.len() == 0 || rv[rv.len() - 1] == '/') {
        push_char(&mut out, '/');
    }
    push_range(&mut out, pv.as_slice(), 0, pv.len());
    assert(pv@.subrange(0, pv@.len() as int) =~= pv@);
    assert(root@.len() > 0 ==> root@.last() == rv@[rv@.len() - 1]);
    out
}

} // verus!
