//! `.env` files: reading `KEY=value` lines and writing one value back.
use crate::paths::join_path;
use crate::text::{
    chars_of, find_char, find_char_in, is_ascii_alnum, is_ascii_alnum_char, is_ascii_alpha,
    is_ascii_alpha_char, is_ascii_space, is_ascii_space_char, push_char, push_str,
    split_on, split_once, str_eq, string_of_range, trim, trim_end, trim_end_index, trim_start,
    trim_start_index,
};
use vstd::prelude::*;

verus! {

// ---------------------------------------------------------------------
// The format, as specification.
// ---------------------------------------------------------------------
/// A valid variable name: a letter or `_`, then letters, digits or `_`.
pub open spec fn valid_env_name(s: Seq<char>) -> bool {
    &&& s.len() > 0
    &&& (s[0] == '_' || is_ascii_alpha(s[0]))
    &&& forall|i: int| 1 <= i < s.len() ==> (#[trigger] s[i] == '_' || is_ascii_alnum(s[i]))
}

pub open spec fn export_prefix() -> Seq<char> {
    seq!['e', 'x', 'p', 'o', 'r', 't', ' ']
}

/// A line without a leading `export `.
pub open spec fn strip_export(s: Seq<char>) -> Seq<char> {
    if export_prefix().len() <= s.len() && s.take(7) == export_prefix() {
        s.skip(7)
    } else {
        s
    }
}

/// The key of an assignment line and the raw text after `=`; blank lines,
/// comments, lines without `=` and lines with an invalid key assign
/// nothing.
pub open spec fn line_assignment(line: Seq<char>) -> Option<(Seq<char>, Seq<char>)> {
    let t = trim_start(line);
    if t.len() == 0 || t[0] == '#' {
        None
    } else {
        match split_once(strip_export(t), '=') {
            None => None,
            Some((k, raw)) => if valid_env_name(trim(k)) {
                Some((trim(k), raw))
            } else {
                None
            },
        }
    }
}

/// The key a line assigns, if any.
pub open spec fn env_line_key_spec(line: Seq<char>) -> Option<Seq<char>> {
    match line_assignment(line) {
        Some((k, _)) => Some(k),
        None => None,
    }
}

/// Why a `.env` file or name is refused.
#[derive(Debug, PartialEq, Eq, Structural)]
pub enum EnvError {
    UnterminatedDoubleQuote,
    UnterminatedSingleQuote,
    EmptyName,
    InvalidName,
}

/// The character a backslash escape stands for inside double quotes; an
/// unknown escape keeps its backslash.
pub open spec fn unescape(c: char) -> Seq<char> {
    if c == 'n' {
        seq!['\n']
    } else if c == 'r' {
        seq!['\r']
    } else if c == 't' {
        seq!['\t']
    } else if c == '"' {
        seq!['"']
    } else if c == '\\' {
        seq!['\\']
    } else {
        seq!['\\', c]
    }
}

pub open spec fn prepend_ok(a: Seq<char>, r: Result<Seq<char>, EnvError>) -> Result<Seq<char>, EnvError> {
    match r {
        Ok(v) => Ok(a + v),
        Err(e) => Err(e),
    }
}

/// The value of a double-quoted text, up to its closing quote (the text
/// after the opening quote is given).
pub open spec fn double_quoted(s: Seq<char>) -> Result<Seq<char>, EnvError>
    decreases s.len(),
{
    if s.len() == 0 {
        Err(EnvError::UnterminatedDoubleQuote)
    } else if s[0] == '"' {
        Ok(Seq::<char>::empty())
    } else if s[0] == '\\' {
        if s.len() == 1 {
            Err(EnvError::UnterminatedDoubleQuote)
        } else {
            prepend_ok(unescape(s[1]), double_quoted(s.skip(2)))
        }
    } else {
        prepend_ok(seq![s[0]], double_quoted(s.drop_first()))
    }
}

/// The value of a single-quoted text, up to the next quote.
pub open spec fn single_quoted(s: Seq<char>) -> Result<Seq<char>, EnvError> {
    match split_once(s, '\'') {
        Some((v, _)) => Ok(v),
        None => Err(EnvError::UnterminatedSingleQuote),
    }
}

/// Where an unquoted value's comment starts: the first `#` after ASCII
/// whitespace, searching from `i`.
pub open spec fn comment_from(s: Seq<char>, i: int) -> int
    decreases s.len() - i,
{
    if i < 0 || i >= s.len() {
        s.len() as int
    } else if s[i] == '#' && i > 0 && is_ascii_space(s[i - 1]) {
        i
    } else {
        comment_from(s, i + 1)
    }
}

/// An unquoted value without its trailing comment.
pub open spec fn strip_comment(s: Seq<char>) -> Seq<char> {
    s.take(comment_from(s, 0))
}

/// The value written after `=` (leading whitespace already removed).
pub open spec fn env_value_spec(raw: Seq<char>) -> Result<Seq<char>, EnvError> {
    if raw.len() > 0 && raw[0] == '"' {
        double_quoted(raw.drop_first())
    } else if raw.len() > 0 && raw[0] == '\'' {
        single_quoted(raw.drop_first())
    } else {
        Ok(trim_end(strip_comment(raw)))
    }
}

/// What one line assigns.
pub open spec fn parse_line(line: Seq<char>) -> Result<Option<(Seq<char>, Seq<char>)>, EnvError> {
    match line_assignment(line) {
        None => Ok(None),
        Some((k, raw)) => match env_value_spec(trim_start(raw)) {
            Ok(v) => Ok(Some((k, v))),
            Err(e) => Err(e),
        },
    }
}

/// A line without one carriage return before its line feed.
pub open spec fn strip_cr(l: Seq<char>) -> Seq<char> {
    if l.len() > 0 && l.last() == '\r' {
        l.drop_last()
    } else {
        l
    }
}

/// The lines of a text (`str::lines`): split at `\n`, a `\r` before the
/// `\n` dropped, no empty line after a final `\n`.
pub open spec fn text_lines_spec(text: Seq<char>) -> Seq<Seq<char>> {
    let ps = split_on(text, '\n');
    let init = ps.drop_last().map_values(|l: Seq<char>| strip_cr(l));
    if ps.last().len() == 0 {
        init
    } else {
        init.push(ps.last())
    }
}

/// The assignments of the lines, in order, starting from `m`: a later line
/// overrides an earlier one; the first bad line is the error.
pub open spec fn fold_lines(m: Map<Seq<char>, Seq<char>>, ls: Seq<Seq<char>>) -> Result<
    Map<Seq<char>, Seq<char>>,
    EnvError,
>
    decreases ls.len(),
{
    if ls.len() == 0 {
        Ok(m)
    } else {
        match fold_lines(m, ls.drop_last()) {
            Err(e) => Err(e),
            Ok(acc) => match parse_line(ls.last()) {
                Err(e) => Err(e),
                Ok(None) => Ok(acc),
                Ok(Some((k, v))) => Ok(acc.insert(k, v)),
            },
        }
    }
}

/// What a `.env` text holds.
pub open spec fn parse_env_spec(text: Seq<char>) -> Result<Map<Seq<char>, Seq<char>>, EnvError> {
    fold_lines(Map::empty(), text_lines_spec(text))
}

// ---------------------------------------------------------------------
// The values.
// ---------------------------------------------------------------------
/// The variables of a `.env` file.
#[derive(Debug)]
pub struct EnvFile {
    entries: Vec<(String, String)>,
}

pub open spec fn distinct_keys(e: Seq<(String, String)>) -> bool {
    forall|i: int, j: int| 0 <= i < j < e.len() ==> (#[trigger] e[i]).0@ != (#[trigger] e[j]).0@
}

pub open spec fn entries_map(e: Seq<(String, String)>) -> Map<Seq<char>, Seq<char>> {
    Map::new(
        |k: Seq<char>| exists|i: int| 0 <= i < e.len() && (#[trigger] e[i]).0@ == k,
        |k: Seq<char>| e[choose|i: int| 0 <= i < e.len() && (#[trigger] e[i]).0@ == k].1@,
    )
}

proof fn lemma_entries_map_at(e: Seq<(String, String)>, i: int)
    requires
        distinct_keys(e),
        0 <= i < e.len(),
    ensures
        entries_map(e).contains_key(e[i].0@),
        entries_map(e)[e[i].0@] == e[i].1@,
{
    let k = e[i].0@;
    assert(exists|j: int| 0 <= j < e.len() && (#[trigger] e[j]).0@ == k);
    let j = choose|j: int| 0 <= j < e.len() && (#[trigger] e[j]).0@ == k;
    if j != i {
        if j < i {
            assert(e[j].0@ != e[i].0@);
        } else {
            assert(e[i].0@ != e[j].0@);
        }
    }
}

proof fn lemma_entries_map_set(e: Seq<(String, String)>, i: int, x: (String, String))
    requires
        distinct_keys(e),
        0 <= i < e.len(),
        e[i].0@ == x.0@,
    ensures
        distinct_keys(e.update(i, x)),
        entries_map(e.update(i, x)) == entries_map(e).insert(x.0@, x.1@),
{
    let e2 = e.update(i, x);
    assert forall|a: int, b: int| 0 <= a < b < e2.len() implies (#[trigger] e2[a]).0@ != (
    #[trigger] e2[b]).0@ by {
        assert(e[a].0@ != e[b].0@);
    }
    let m = entries_map(e).insert(x.0@, x.1@);
    assert forall|k: Seq<char>| #[trigger] entries_map(e2).contains_key(k) <==> m.contains_key(k) by {
        if entries_map(e2).contains_key(k) {
            let j = choose|j: int| 0 <= j < e2.len() && (#[trigger] e2[j]).0@ == k;
            if j != i {
                lemma_entries_map_at(e, j);
            }
        }
        if m.contains_key(k) && k != x.0@ {
            let j = choose|j: int| 0 <= j < e.len() && (#[trigger] e[j]).0@ == k;
            assert(e2[j].0@ == k);
        }
        if k == x.0@ {
            assert(e2[i].0@ == k);
        }
    }
    assert forall|k: Seq<char>| #[trigger] entries_map(e2).contains_key(k) implies entries_map(
        e2,
    )[k] == m[k] by {
        let j = choose|j: int| 0 <= j < e2.len() && (#[trigger] e2[j]).0@ == k;
        lemma_entries_map_at(e2, j);
        if j != i {
            lemma_entries_map_at(e, j);
        }
    }
    assert(entries_map(e2) =~= m);
}

proof fn lemma_entries_map_push(e: Seq<(String, String)>, x: (String, String))
    requires
        distinct_keys(e),
        !entries_map(e).contains_key(x.0@),
    ensures
        distinct_keys(e.push(x)),
        entries_map(e.push(x)) == entries_map(e).insert(x.0@, x.1@),
{
    let e2 = e.push(x);
    assert forall|a: int, b: int| 0 <= a < b < e2.len() implies (#[trigger] e2[a]).0@ != (
    #[trigger] e2[b]).0@ by {
        if b == e.len() {
            if e[a].0@ == x.0@ {
                assert(entries_map(e).contains_key(e[a].0@));
            }
        } else {
            assert(e[a].0@ != e[b].0@);
        }
    }
    let m = entries_map(e).insert(x.0@, x.1@);
    assert forall|k: Seq<char>| #[trigger] entries_map(e2).contains_key(k) <==> m.contains_key(k) by {
        if entries_map(e2).contains_key(k) {
            let j = choose|j: int| 0 <= j < e2.len() && (#[trigger] e2[j]).0@ == k;
            if j < e.len() {
                assert(e[j].0@ == k);
            }
        }
        if m.contains_key(k) && k != x.0@ {
            let j = choose|j: int| 0 <= j < e.len() && (#[trigger] e[j]).0@ == k;
            assert(e2[j].0@ == k);
        }
        if k == x.0@ {
            assert(e2[e.len() as int].0@ == k);
        }
    }
    assert forall|k: Seq<char>| #[trigger] entries_map(e2).contains_key(k) implies entries_map(
        e2,
    )[k] == m[k] by {
        let j = choose|j: int| 0 <= j < e2.len() && (#[trigger] e2[j]).0@ == k;
        lemma_entries_map_at(e2, j);
        if j < e.len() {
            assert(e2[j] == e[j]);
            lemma_entries_map_at(e, j);
        }
    }
    assert(entries_map(e2) =~= m);
}

impl EnvFile {
    #[verifier::type_invariant]
    spec fn keys_distinct(self) -> bool {
        distinct_keys(self.entries@)
    }

    /// The variables, by name.
    pub closed spec fn vars(self) -> Map<Seq<char>, Seq<char>> {
        entries_map(self.entries@)
    }

    /// A file without variables.
    pub fn new() -> (r: Self)
        ensures
            r.vars() == Map::<Seq<char>, Seq<char>>::empty(),
    {
        let r = EnvFile { entries: Vec::new() };
        assert(r.vars() =~= Map::<Seq<char>, Seq<char>>::empty());
        r
    }

    /// The value of a variable.
    pub fn get(&self, key: &str) -> (r: Option<&str>)
        ensures
            match r {
                Some(v) => self.vars().contains_key(key@) && self.vars()[key@] == v@,
                None => !self.vars().contains_key(key@),
            },
    {
        proof {
            use_type_invariant(self);
        }
        let mut i: usize = 0;
        while i < self.entries.len()
            invariant
                i <= self.entries@.len(),
                distinct_keys(self.entries@),
                forall|j: int| 0 <= j < i ==> (#[trigger] self.entries@[j]).0@ != key@,
            decreases self.entries@.len() - i,
        {
            if str_eq(self.entries[i].0.as_str(), key) {
                proof {
                    lemma_entries_map_at(self.entries@, i as int);
                }
                return Some(self.entries[i].1.as_str());
            }
            i = i + 1;
        }
        None
    }

    /// The file with `key` set to `value`.
    pub fn with_var(self, key: String, value: String) -> (r: Self)
        ensures
            r.vars() == self.vars().insert(key@, value@),
    {
        proof {
            use_type_invariant(&self);
        }
        let mut entries = self.entries;
        let mut i: usize = 0;
        while i < entries.len()
            invariant
                i <= entries@.len(),
                distinct_keys(entries@),
                entries@ == self.entries@,
                forall|j: int| 0 <= j < i ==> (#[trigger] entries@[j]).0@ != key@,
            decreases entries@.len() - i,
        {
            if str_eq(entries[i].0.as_str(), key.as_str()) {
                proof {
                    lemma_entries_map_set(entries@, i as int, (key, value));
                }
                entries.set(i, (key, value));
                return EnvFile { entries };
            }
            i = i + 1;
        }
        proof {
            if entries_map(entries@).contains_key(key@) {
                let j = choose|j: int| 0 <= j < entries@.len() && (#[trigger] entries@[j]).0@
                    == key@;
                assert(entries@[j].0@ != key@);
            }
            lemma_entries_map_push(entries@, (key, value));
        }
        entries.push((key, value));
        EnvFile { entries }
    }

    /// A file with the given variables; a later pair overrides an earlier
    /// one with the same name.
    pub fn from_pairs(pairs: &[(&str, &str)]) -> (r: Self)
        ensures
            r.vars() == pairs_map(pairs@),
    {
        let mut f = EnvFile::new();
        let mut i: usize = 0;
        while i < pairs.len()
            invariant
                i <= pairs@.len(),
                f.vars() == pairs_map(pairs@.take(i as int)),
            decreases pairs@.len() - i,
        {
            let (k, v) = pairs[i];
            assert(pairs@.take(i + 1).drop_last() =~= pairs@.take(i as int));
            f = f.with_var(k.to_owned(), v.to_owned());
            i = i + 1;
        }
        assert(pairs@.take(i as int) =~= pairs@);
        f
    }
}

/// The map of name-value pairs, a later pair overriding an earlier one.
pub open spec fn pairs_map(p: Seq<(&str, &str)>) -> Map<Seq<char>, Seq<char>>
    decreases p.len(),
{
    if p.len() == 0 {
        Map::empty()
    } else {
        pairs_map(p.drop_last()).insert(p.last().0@, p.last().1@)
    }
}

// ---------------------------------------------------------------------
// Reading.
// ---------------------------------------------------------------------
fn is_valid_name_range(v: &[char], s: usize, e: usize) -> (b: bool)
    requires
        s <= e <= v@.len(),
    ensures
        b == valid_env_name(v@.subrange(s as int, e as int)),
{
    let ghost n = v@.subrange(s as int, e as int);
    if s == e {
        return false;
    }
    if !(v[s] == '_' || is_ascii_alpha_char(v[s])) {
        return false;
    }
    let mut i = s + 1;
    while i < e
        invariant
            s < i <= e <= v@.len(),
            n == v@.subrange(s as int, e as int),
            forall|j: int| 1 <= j < i - s ==> (#[trigger] n[j] == '_' || is_ascii_alnum(n[j])),
        decreases e - i,
    {
        if !(v[i] == '_' || is_ascii_alnum_char(v[i])) {
            assert(n[i - s] == v@[i as int]);
            return false;
        }
        i = i + 1;
    }
    true
}

/// Checks a variable name.
pub fn validate_env_name(name: &str) -> (r: Result<(), EnvError>)
    ensures
        r is Ok <==> valid_env_name(name@),
        name@.len() == 0 ==> r == Err::<(), EnvError>(EnvError::EmptyName),
        name@.len() > 0 && !valid_env_name(name@) ==> r == Err::<(), EnvError>(
            EnvError::InvalidName,
        ),
{
    let v = chars_of(name);
    if v.len() == 0 {
        return Err(EnvError::EmptyName);
    }
    assert(v@.subrange(0, v@.len() as int) =~= v@);
    if is_valid_name_range(v.as_slice(), 0, v.len()) {
        Ok(())
    } else {
        Err(EnvError::InvalidName)
    }
}

fn starts_with_export(v: &[char], a: usize, e: usize) -> (b: bool)
    requires
        a <= e <= v@.len(),
    ensures
        b == (export_prefix().len() <= v@.subrange(a as int, e as int).len() && v@.subrange(
            a as int,
            e as int,
        ).take(7) == export_prefix()),
{
    let ghost t = v@.subrange(a as int, e as int);
    if e - a < 7 {
        return false;
    }
    let b = v[a] == 'e' && v[a + 1] == 'x' && v[a + 2] == 'p' && v[a + 3] == 'o' && v[a + 4]
        == 'r' && v[a + 5] == 't' && v[a + 6] == ' ';
    proof {
        if b {
            assert(t.take(7) =~= export_prefix());
        } else {
            if t.take(7) == export_prefix() {
                assert(t.take(7)[0] == 'e' && t.take(7)[1] == 'x' && t.take(7)[2] == 'p');
                assert(t.take(7)[3] == 'o' && t.take(7)[4] == 'r' && t.take(7)[5] == 't');
                assert(t.take(7)[6] == ' ');
            }
        }
    }
    b
}

/// Where the assignment of `v[0..n]` sits: the key's range and the start of
/// the raw value.
fn assignment_range(v: &[char]) -> (r: Option<(usize, usize, usize)>)
    ensures
        match r {
            None => line_assignment(v@) is None,
            Some((ks, ke, rs)) => ks <= ke <= rs <= v@.len() && line_assignment(v@) == Some(
                (v@.subrange(ks as int, ke as int), v@.subrange(rs as int, v@.len() as int)),
            ),
        },
{
    let n = v.len();
    assert(v@.subrange(0, n as int) =~= v@);
    let a = trim_start_index(v, 0, n);
    let ghost t = v@.subrange(a as int, n as int);
    if a == n || v[a] == '#' {
        return None;
    }
    let b = if starts_with_export(v, a, n) {
        a + 7
    } else {
        a
    };
    assert(strip_export(t) =~= v@.subrange(b as int, n as int));
    match find_char_in(v, b, n, '=') {
        None => None,
        Some(idx) => {
            let eq = b + idx;
            proof {
                crate::text::lemma_find_char(v@.subrange(b as int, n as int), '=');
            }
            assert(v@.subrange(b as int, n as int).take(idx as int) =~= v@.subrange(
                b as int,
                eq as int,
            ));
            assert(v@.subrange(b as int, n as int).skip(idx + 1) =~= v@.subrange(
                eq + 1,
                n as int,
            ));
            let ks = trim_start_index(v, b, eq);
            let ke = trim_end_index(v, ks, eq);
            if is_valid_name_range(v, ks, ke) {
                Some((ks, ke, eq + 1))
            } else {
                None
            }
        },
    }
}

/// The key a line assigns, if any.
pub fn env_line_key(line: &str) -> (r: Option<String>)
    ensures
        match r {
            Some(k) => env_line_key_spec(line@) == Some(k@),
            None => env_line_key_spec(line@) is None,
        },
{
    let v = chars_of(line);
    match assignment_range(v.as_slice()) {
        None => None,
        Some((ks, ke, _)) => Some(string_of_range(v.as_slice(), ks, ke)),
    }
}

/// The value of the double-quoted text `v[s..e]` (after its opening quote).
fn parse_double_quoted(v: &[char], s: usize, e: usize) -> (r: Result<String, EnvError>)
    requires
        s <= e <= v@.len(),
    ensures
        match r {
            Ok(x) => double_quoted(v@.subrange(s as int, e as int)) == Ok::<Seq<char>, EnvError>(x@),
            Err(err) => double_quoted(v@.subrange(s as int, e as int)) == Err::<Seq<char>, EnvError>(err),
        },
{
    let mut out = String::new();
    let mut i = s;
    while i < e
        invariant
            s <= i <= e <= v@.len(),
            double_quoted(v@.subrange(s as int, e as int)) == prepend_ok(
                out@,
                double_quoted(v@.subrange(i as int, e as int)),
            ),
        decreases e - i,
    {
        let ghost rest = v@.subrange(i as int, e as int);
        let c = v[i];
        if c == '"' {
            assert(rest[0] == '"');
            assert(out@ + Seq::<char>::empty() =~= out@);
            return Ok(out);
        } else if c == '\\' {
            if i + 1 == e {
                return Err(EnvError::UnterminatedDoubleQuote);
            }
            let d = v[i + 1];
            let ghost before = out@;
            if d == 'n' {
                push_char(&mut out, '\n');
            } else if d == 'r' {
                push_char(&mut out, '\r');
            } else if d == 't' {
                push_char(&mut out, '\t');
            } else if d == '"' {
                push_char(&mut out, '"');
            } else if d == '\\' {
                push_char(&mut out, '\\');
            } else {
                push_char(&mut out, '\\');
                push_char(&mut out, d);
            }
            assert(out@ =~= before + unescape(d));
            assert(rest.skip(2) =~= v@.subrange(i + 2, e as int));
            assert(rest[1] == d);
            proof {
                match double_quoted(rest.skip(2)) {
                    Ok(x) => {
                        assert(before + (unescape(d) + x) =~= out@ + x);
                    },
                    Err(_) => {},
                }
            }
            i = i + 2;
        } else {
            let ghost before = out@;
            push_char(&mut out, c);
            assert(rest.drop_first() =~= v@.subrange(i + 1, e as int));
            proof {
                match double_quoted(rest.drop_first()) {
                    Ok(x) => {
                        assert(before + (seq![c] + x) =~= out@ + x);
                    },
                    Err(_) => {},
                }
            }
            i = i + 1;
        }
    }
    assert(v@.subrange(i as int, e as int).len() == 0);
    Err(EnvError::UnterminatedDoubleQuote)
}

/// Where the comment of the unquoted value `v[s..e]` starts, counted from `s`.
fn comment_index(v: &[char], s: usize, e: usize) -> (r: usize)
    requires
        s <= e <= v@.len(),
    ensures
        r as int == comment_from(v@.subrange(s as int, e as int), 0),
        r <= e - s,
{
    let ghost raw = v@.subrange(s as int, e as int);
    let mut i = s;
    while i < e
        invariant
            s <= i <= e <= v@.len(),
            raw == v@.subrange(s as int, e as int),
            comment_from(raw, 0) == comment_from(raw, i - s),
        decreases e - i,
    {
        if v[i] == '#' && i > s && is_ascii_space_char(v[i - 1]) {
            assert(raw[i - s] == '#' && is_ascii_space(raw[i - s - 1]));
            return i - s;
        }
        assert(!(raw[i - s] == '#' && i - s > 0 && is_ascii_space(raw[i - s - 1])));
        i = i + 1;
    }
    i - s
}

/// The value written in `v[s..e]`, leading whitespace already removed.
fn parse_value(v: &[char], s: usize, e: usize) -> (r: Result<String, EnvError>)
    requires
        s <= e <= v@.len(),
    ensures
        match r {
            Ok(x) => env_value_spec(v@.subrange(s as int, e as int)) == Ok::<Seq<char>, EnvError>(x@),
            Err(err) => env_value_spec(v@.subrange(s as int, e as int)) == Err::<Seq<char>, EnvError>(err),
        },
{
    let ghost raw = v@.subrange(s as int, e as int);
    if s < e && v[s] == '"' {
        assert(raw.drop_first() =~= v@.subrange(s + 1, e as int));
        parse_double_quoted(v, s + 1, e)
    } else if s < e && v[s] == '\'' {
        assert(raw.drop_first() =~= v@.subrange(s + 1, e as int));
        match find_char_in(v, s + 1, e, '\'') {
            Some(idx) => {
                assert(raw.drop_first().take(idx as int) =~= v@.subrange(s + 1, s + 1 + idx));
                Ok(string_of_range(v, s + 1, s + 1 + idx))
            },
            None => Err(EnvError::UnterminatedSingleQuote),
        }
    } else {
        let c = comment_index(v, s, e);
        assert(strip_comment(raw) =~= v@.subrange(s as int, (s + c) as int));
        let end = trim_end_index(v, s, s + c);
        Ok(string_of_range(v, s, end))
    }
}

/// What one line assigns.
pub fn parse_env_line(line: &str) -> (r: Result<Option<(String, String)>, EnvError>)
    ensures
        match r {
            Ok(None) => parse_line(line@) == Ok::<Option<(Seq<char>, Seq<char>)>, EnvError>(None),
            Ok(Some((k, x))) => parse_line(line@) == Ok::<Option<(Seq<char>, Seq<char>)>, EnvError>(
                Some((k@, x@)),
            ),
            Err(err) => parse_line(line@) == Err::<Option<(Seq<char>, Seq<char>)>, EnvError>(err),
        },
{
    let v = chars_of(line);
    match assignment_range(v.as_slice()) {
        None => Ok(None),
        Some((ks, ke, rs)) => {
            let vs = trim_start_index(v.as_slice(), rs, v.len());
            let key = string_of_range(v.as_slice(), ks, ke);
            match parse_value(v.as_slice(), vs, v.len()) {
                Ok(x) => Ok(Some((key, x))),
                Err(err) => Err(err),
            }
        },
    }
}

proof fn lemma_lines_step(text: Seq<char>, i: int)
    requires
        0 <= i < text.len(),
    ensures
        split_on(text.take(i + 1), '\n') == ({
            let r = split_on(text.take(i), '\n');
            if text[i] == '\n' {
                r.push(Seq::<char>::empty())
            } else {
                r.update(r.len() - 1, r.last().push(text[i]))
            }
        }),
{
    assert(text.take(i + 1).drop_last() =~= text.take(i));
}

/// The lines of a text (`str::lines`).
pub fn text_lines(text: &str) -> (r: Vec<String>)
    ensures
        crate::provider::views(r@) == text_lines_spec(text@),
{
    let v = chars_of(text);
    let n = v.len();
    let mut out: Vec<String> = Vec::new();
    let ghost mut pieces: Seq<Seq<char>> = Seq::empty();
    let mut start: usize = 0;
    let mut i: usize = 0;
    assert(v@.take(0) =~= Seq::<char>::empty());
    assert(split_on(v@.take(0), '\n') =~= pieces.push(v@.subrange(0, 0)));
    while i < n
        invariant
            n == v@.len(),
            v@ == text@,
            start <= i <= n,
            split_on(v@.take(i as int), '\n') == pieces.push(v@.subrange(start as int, i as int)),
            crate::provider::views(out@) == pieces.map_values(|l: Seq<char>| strip_cr(l)),
        decreases n - i,
    {
        proof {
            lemma_lines_step(v@, i as int, );
        }
        if v[i] == '\n' {
            let ghost piece = v@.subrange(start as int, i as int);
            let end = if i > start && v[i - 1] == '\r' {
                i - 1
            } else {
                i
            };
            let line = string_of_range(v.as_slice(), start, end);
            assert(line@ == strip_cr(piece)) by {
                if i > start && v@[i - 1] == '\r' {
                    assert(piece.drop_last() =~= v@.subrange(start as int, i - 1));
                }
            }
            proof {
                crate::provider::lemma_views_push(out@, line);
                assert(pieces.push(piece).map_values(|l: Seq<char>| strip_cr(l)) =~= pieces.map_values(
                    |l: Seq<char>| strip_cr(l),
                ).push(strip_cr(piece)));
                pieces = pieces.push(piece);
            }
            out.push(line);
            start = i + 1;
        }
        i = i + 1;
        assert(v@.subrange(start as int, i as int) =~= if start == i {
            Seq::<char>::empty()
        } else {
            v@.subrange(start as int, i - 1).push(v@[i - 1])
        });
        assert(split_on(v@.take(i as int), '\n') =~= pieces.push(
            v@.subrange(start as int, i as int),
        ));
    }
    assert(v@.take(n as int) =~= v@);
    let ghost last = v@.subrange(start as int, n as int);
    assert(split_on(text@, '\n').drop_last() =~= pieces);
    if start < n {
        let line = string_of_range(v.as_slice(), start, n);
        proof {
            crate::provider::lemma_views_push(out@, line);
        }
        out.push(line);
    }
    out
}

/// What a `.env` text holds; the first bad line is the error.
pub fn parse_env_text(text: &str) -> (r: Result<EnvFile, EnvError>)
    ensures
        match r {
            Ok(f) => parse_env_spec(text@) == Ok::<Map<Seq<char>, Seq<char>>, EnvError>(f.vars()),
            Err(e) => parse_env_spec(text@) == Err::<Map<Seq<char>, Seq<char>>, EnvError>(e),
        },
{
    let lines = text_lines(text);
    let ghost ls = text_lines_spec(text@);
    let mut f = EnvFile::new();
    let mut i: usize = 0;
    while i < lines.len()
        invariant
            i <= lines@.len(),
            crate::provider::views(lines@) == ls,
            ls == text_lines_spec(text@),
            fold_lines(Map::empty(), ls.take(i as int)) == Ok::<Map<Seq<char>, Seq<char>>, EnvError>(
                f.vars(),
            ),
        decreases lines@.len() - i,
    {
        assert(ls.take(i + 1).drop_last() =~= ls.take(i as int));
        assert(ls[i as int] == lines@[i as int]@);
        assert(ls.take(i + 1).last() == ls[i as int]);
        match parse_env_line(lines[i].as_str()) {
            Err(e) => {
                proof {
                    assert(ls.take(i + 1).last() == ls[i as int]);
                    lemma_fold_error_persists(ls, i + 1, e);
                }
                return Err(e);
            },
            Ok(None) => {},
            Ok(Some((k, x))) => {
                f = f.with_var(k, x);
            },
        }
        i = i + 1;
    }
    assert(ls.take(i as int) =~= ls);
    Ok(f)
}

/// An error on a line is the error of every longer prefix.
proof fn lemma_fold_error_persists(ls: Seq<Seq<char>>, i: int, e: EnvError)
    requires
        0 <= i <= ls.len(),
        fold_lines(Map::empty(), ls.take(i)) == Err::<Map<Seq<char>, Seq<char>>, EnvError>(e),
    ensures
        fold_lines(Map::empty(), ls) == Err::<Map<Seq<char>, Seq<char>>, EnvError>(e),
    decreases ls.len() - i,
{
    if i < ls.len() {
        assert(ls.take(i + 1).drop_last() =~= ls.take(i));
        lemma_fold_error_persists(ls, i + 1, e);
    } else {
        assert(ls.take(i) =~= ls);
    }
}


// ---------------------------------------------------------------------
// Writing.
// ---------------------------------------------------------------------
/// How one character is written inside double quotes.
pub open spec fn escape_piece(c: char) -> Seq<char> {
    if c == '\\' {
        seq!['\\', '\\']
    } else if c == '"' {
        seq!['\\', '"']
    } else if c == '\n' {
        seq!['\\', 'n']
    } else if c == '\r' {
        seq!['\\', 'r']
    } else {
        seq![c]
    }
}

/// A value with backslashes, quotes and line breaks escaped.
pub open spec fn escape_env(v: Seq<char>) -> Seq<char>
    decreases v.len(),
{
    if v.len() == 0 {
        Seq::<char>::empty()
    } else {
        escape_piece(v[0]) + escape_env(v.drop_first())
    }
}

/// A value in double quotes.
pub open spec fn quote_env(v: Seq<char>) -> Seq<char> {
    seq!['"'] + escape_env(v) + seq!['"']
}

/// The line that assigns `value` to `key`.
pub open spec fn assignment_line(key: Seq<char>, value: Seq<char>) -> Seq<char> {
    key + seq!['='] + quote_env(value)
}

/// Lines, each followed by a line feed.
pub open spec fn concat_lines(ls: Seq<Seq<char>>) -> Seq<char>
    decreases ls.len(),
{
    if ls.len() == 0 {
        Seq::<char>::empty()
    } else {
        concat_lines(ls.drop_last()) + ls.last() + seq!['\n']
    }
}

/// The lines with the first line that assigns `key` replaced by `line`,
/// and whether there was one.
pub open spec fn rewritten_lines(ls: Seq<Seq<char>>, key: Seq<char>, line: Seq<char>) -> (
    Seq<Seq<char>>,
    bool,
)
    decreases ls.len(),
{
    if ls.len() == 0 {
        (Seq::<Seq<char>>::empty(), false)
    } else {
        let (o, r) = rewritten_lines(ls.drop_last(), key, line);
        if !r && env_line_key_spec(ls.last()) == Some(key) {
            (o.push(line), true)
        } else {
            (o.push(ls.last()), r)
        }
    }
}

/// The lines of the file after `key` is set to `value`: the first line
/// that assigns `key` is replaced; without one, the assignment is
/// appended. A file without lines gets an empty line first.
pub open spec fn updated_lines(existing: Option<Seq<char>>, key: Seq<char>, value: Seq<char>) -> Seq<
    Seq<char>,
> {
    let line = assignment_line(key, value);
    match existing {
        None => seq![line],
        Some(text) => {
            let ls = text_lines_spec(text);
            let (o, r) = rewritten_lines(ls, key, line);
            let pre = if ls.len() == 0 {
                seq![Seq::<char>::empty()]
            } else {
                Seq::<Seq<char>>::empty()
            };
            pre + o + if r {
                Seq::<Seq<char>>::empty()
            } else {
                seq![line]
            }
        },
    }
}

/// The text of the file after `key` is set to `value`.
pub open spec fn updated_env_spec(existing: Option<Seq<char>>, key: Seq<char>, value: Seq<char>) -> Seq<
    char,
> {
    concat_lines(updated_lines(existing, key, value))
}

proof fn lemma_escape_append(a: Seq<char>, b: Seq<char>)
    ensures
        escape_env(a + b) == escape_env(a) + escape_env(b),
    decreases a.len(),
{
    if a.len() == 0 {
        assert(a + b =~= b);
    } else {
        assert((a + b).drop_first() =~= a.drop_first() + b);
        lemma_escape_append(a.drop_first(), b);
        assert(escape_piece(a[0]) + (escape_env(a.drop_first()) + escape_env(b)) =~= escape_env(a)
            + escape_env(b));
    }
}

/// A value in double quotes, escaped so that reading it back gives the
/// value.
pub fn quote_env_value(value: &str) -> (r: String)
    ensures
        r@ == quote_env(value@),
{
    let v = chars_of(value);
    let mut r = String::new();
    push_char(&mut r, '"');
    let mut i: usize = 0;
    while i < v.len()
        invariant
            i <= v@.len(),
            v@ == value@,
            r@ == seq!['"'] + escape_env(v@.take(i as int)),
        decreases v@.len() - i,
    {
        let c = v[i];
        let ghost before = r@;
        if c == '\\' {
            push_char(&mut r, '\\');
            push_char(&mut r, '\\');
        } else if c == '"' {
            push_char(&mut r, '\\');
            push_char(&mut r, '"');
        } else if c == '\n' {
            push_char(&mut r, '\\');
            push_char(&mut r, 'n');
        } else if c == '\r' {
            push_char(&mut r, '\\');
            push_char(&mut r, 'r');
        } else {
            push_char(&mut r, c);
        }
        proof {
            assert(v@.take(i + 1) =~= v@.take(i as int) + seq![c]);
            lemma_escape_append(v@.take(i as int), seq![c]);
            assert(escape_env(seq![c]) =~= escape_piece(c)) by {
                assert(seq![c].drop_first() =~= Seq::<char>::empty());
                assert(escape_env(Seq::<char>::empty()) == Seq::<char>::empty());
                assert(escape_env(seq![c]) == escape_piece(c) + escape_env(seq![c].drop_first()));
            }
            assert(r@ =~= before + escape_piece(c));
        }
        i = i + 1;
    }
    push_char(&mut r, '"');
    assert(v@.take(i as int) =~= v@);
    r
}

/// The text of a `.env` file after `key` is set to `value`; `existing` is
/// the file's text, `None` when there is no file. Fails on an invalid name.
pub fn updated_env_text(existing: Option<&str>, key: &str, value: &str) -> (r: Result<
    String,
    EnvError,
>)
    ensures
        r is Ok <==> valid_env_name(key@),
        key@.len() == 0 ==> r == Err::<String, EnvError>(EnvError::EmptyName),
        key@.len() > 0 && !valid_env_name(key@) ==> r == Err::<String, EnvError>(
            EnvError::InvalidName,
        ),
        r matches Ok(t) ==> t@ == updated_env_spec(
            match existing {
                Some(e) => Some(e@),
                None => None,
            },
            key@,
            value@,
        ),
{
    match validate_env_name(key) {
        Ok(()) => {},
        Err(e) => return Err(e),
    }
    let mut line = key.to_owned();
    push_char(&mut line, '=');
    push_str(&mut line, quote_env_value(value).as_str());
    let ghost lv = line@;
    assert(lv == assignment_line(key@, value@));
    let mut output = String::new();
    match existing {
        None => {
            push_str(&mut output, line.as_str());
            push_char(&mut output, '\n');
            assert(concat_lines(seq![lv]) =~= lv + seq!['\n']) by {
                assert(seq![lv].drop_last() =~= Seq::<Seq<char>>::empty());
                assert(concat_lines(Seq::<Seq<char>>::empty()) == Seq::<char>::empty());
                assert(concat_lines(seq![lv]) == concat_lines(seq![lv].drop_last()) + lv + seq!['\n']);
            }
            assert(output@ =~= lv + seq!['\n']);
            Ok(output)
        },
        Some(text) => {
            let ls = text_lines(text);
            let ghost lss = text_lines_spec(text@);
            let mut replaced = false;
            let ghost mut outs: Seq<Seq<char>> = Seq::empty();
            if ls.len() == 0 {
                push_char(&mut output, '\n');
                proof {
                    outs = seq![Seq::<char>::empty()];
                    assert(concat_lines(outs) =~= seq!['\n']) by {
                        assert(outs.drop_last() =~= Seq::<Seq<char>>::empty());
                        assert(concat_lines(Seq::<Seq<char>>::empty()) == Seq::<char>::empty());
                        assert(concat_lines(outs) == concat_lines(outs.drop_last()) + outs.last() + seq!['\n']);
                    }
                }
            }
            let ghost pre = outs;
            let mut i: usize = 0;
            while i < ls.len()
                invariant
                    i <= ls@.len(),
                    crate::provider::views(ls@) == lss,
                    lss == text_lines_spec(text@),
                    pre == (if lss.len() == 0 {
                        seq![Seq::<char>::empty()]
                    } else {
                        Seq::<Seq<char>>::empty()
                    }),
                    line@ == lv,
                    rewritten_lines(lss.take(i as int), key@, lv) == (outs.skip(pre.len() as int), replaced),
                    outs.take(pre.len() as int) == pre,
                    pre.len() <= outs.len(),
                    output@ == concat_lines(outs),
                decreases ls@.len() - i,
            {
                let ghost prev = outs;
                assert(lss.take(i + 1).drop_last() =~= lss.take(i as int));
                assert(lss.take(i + 1).last() == ls@[i as int]@);
                let is_key = match env_line_key(ls[i].as_str()) {
                    Some(k) => str_eq(k.as_str(), key),
                    None => false,
                };
                if is_key && !replaced {
                    push_str(&mut output, line.as_str());
                    push_char(&mut output, '\n');
                    replaced = true;
                    proof {
                        outs = outs.push(lv);
                    }
                } else {
                    push_str(&mut output, ls[i].as_str());
                    push_char(&mut output, '\n');
                    proof {
                        outs = outs.push(ls@[i as int]@);
                    }
                }
                proof {
                    assert(outs.drop_last() =~= prev);
                    assert(outs.skip(pre.len() as int) =~= prev.skip(pre.len() as int).push(outs.last()));
                    assert(outs.take(pre.len() as int) =~= prev.take(pre.len() as int));
                }
                i = i + 1;
            }
            assert(lss.take(i as int) =~= lss);
            if !replaced {
                let ghost prev = outs;
                push_str(&mut output, line.as_str());
                push_char(&mut output, '\n');
                proof {
                    outs = outs.push(lv);
                    assert(outs.drop_last() =~= prev);
                }
            }
            proof {
                let (o, rr) = rewritten_lines(lss, key@, lv);
                assert(outs =~= pre + o + if rr {
                    Seq::<Seq<char>>::empty()
                } else {
                    seq![lv]
                });
            }
            Ok(output)
        },
    }
}

// ---------------------------------------------------------------------
// Reading back what was written.
// ---------------------------------------------------------------------
/// The line assigns `key`.
pub open spec fn assigns(l: Seq<char>, key: Seq<char>) -> bool {
    env_line_key_spec(l) == Some(key)
}

/// At most one line assigns `key`.
pub open spec fn single_assignment(ls: Seq<Seq<char>>, key: Seq<char>) -> bool {
    forall|i: int, j: int|
        0 <= i < j < ls.len() ==> !(assigns(#[trigger] ls[i], key) && assigns(#[trigger] ls[j], key))
}

/// Every line that does not assign `key` can be read.
pub open spec fn others_parse(ls: Seq<Seq<char>>, key: Seq<char>) -> bool {
    forall|i: int| 0 <= i < ls.len() && !assigns(#[trigger] ls[i], key) ==> parse_line(ls[i]) is Ok
}

pub open spec fn no_newline(l: Seq<char>) -> bool {
    forall|j: int| 0 <= j < l.len() ==> #[trigger] l[j] != '\n'
}

proof fn lemma_dq_roundtrip(v: Seq<char>, rest: Seq<char>)
    ensures
        double_quoted(escape_env(v) + seq!['"'] + rest) == Ok::<Seq<char>, EnvError>(v),
    decreases v.len(),
{
    let s = escape_env(v) + seq!['"'] + rest;
    if v.len() == 0 {
        assert(escape_env(v) == Seq::<char>::empty());
        assert(s[0] == '"');
        assert(v =~= Seq::<char>::empty());
    } else {
        let c = v[0];
        let t = escape_env(v.drop_first()) + seq!['"'] + rest;
        lemma_dq_roundtrip(v.drop_first(), rest);
        assert(s =~= escape_piece(c) + t);
        if c == '\\' || c == '"' || c == '\n' || c == '\r' {
            assert(s[0] == '\\');
            assert(s.skip(2) =~= t);
            assert(unescape(s[1]) == seq![c]);
            assert(seq![c] + v.drop_first() =~= v);
        } else {
            assert(s[0] == c);
            assert(s.drop_first() =~= t);
            assert(seq![c] + v.drop_first() =~= v);
        }
    }
}

proof fn lemma_no_space_trim(s: Seq<char>)
    requires
        s.len() > 0,
        !crate::text::is_space(s[0]),
        !crate::text::is_space(s.last()),
    ensures
        trim_start(s) == s,
        trim_end(s) == s,
        trim(s) == s,
{
}

/// The assignment line reads back as the key and the value.
proof fn lemma_assignment_line_parses(key: Seq<char>, value: Seq<char>)
    requires
        valid_env_name(key),
    ensures
        parse_line(assignment_line(key, value)) == Ok::<Option<(Seq<char>, Seq<char>)>, EnvError>(
            Some((key, value)),
        ),
        assigns(assignment_line(key, value), key),
{
    let line = assignment_line(key, value);
    let kl = key.len() as int;
    let q = quote_env(value);
    assert(line =~= key + seq!['='] + q);
    assert(line[0] == key[0]);
    assert(key.last() == '_' || is_ascii_alnum(key.last())) by {
        if kl > 1 {
            assert(key[kl - 1] == '_' || is_ascii_alnum(key[kl - 1]));
        }
    }
    assert(trim_start(line) == line);
    assert(line[kl] == '=');
    assert(strip_export(line) == line) by {
        if 7 <= line.len() && line.take(7) == export_prefix() {
            if kl >= 7 {
                assert(line.take(7)[6] == key[6]);
                assert(key[6] == '_' || is_ascii_alnum(key[6]));
            } else {
                assert(line.take(7)[kl] == '=');
            }
        }
    }
    assert forall|j: int| 0 <= j < kl implies line[j] != '=' by {
        assert(line[j] == key[j]);
        if j > 0 {
            assert(key[j] == '_' || is_ascii_alnum(key[j]));
        }
    }
    crate::text::lemma_find_char_at(line, '=', kl);
    assert(line.take(kl) =~= key);
    assert(line.skip(kl + 1) =~= q);
    lemma_no_space_trim(key);
    assert(q[0] == '"');
    assert(trim_start(q) == q);
    assert(q.drop_first() =~= escape_env(value) + seq!['"'] + Seq::<char>::empty());
    lemma_dq_roundtrip(value, Seq::<char>::empty());
}

proof fn lemma_split_no_sep(a: Seq<char>, l: Seq<char>, sep: char)
    requires
        forall|j: int| 0 <= j < l.len() ==> #[trigger] l[j] != sep,
    ensures
        split_on(a + l, sep) == split_on(a, sep).update(
            split_on(a, sep).len() - 1,
            split_on(a, sep).last() + l,
        ),
    decreases l.len(),
{
    crate::text::lemma_split_on_len(a, sep);
    let sa = split_on(a, sep);
    if l.len() == 0 {
        assert(a + l =~= a);
        assert(sa.last() + l =~= sa.last());
        assert(sa.update(sa.len() - 1, sa.last()) =~= sa);
    } else {
        let l2 = l.drop_last();
        assert forall|j: int| 0 <= j < l2.len() implies #[trigger] l2[j] != sep by {
            assert(l2[j] == l[j]);
        }
        lemma_split_no_sep(a, l2, sep);
        assert((a + l).drop_last() =~= a + l2);
        assert((a + l).last() == l.last());
        assert(l.last() != sep);
        let s2 = split_on(a + l2, sep);
        assert(s2.last() == sa.last() + l2);
        assert((sa.last() + l2).push(l.last()) =~= sa.last() + l);
        assert(s2.update(s2.len() - 1, s2.last().push(l.last())) =~= sa.update(
            sa.len() - 1,
            sa.last() + l,
        ));
    }
}

proof fn lemma_concat_lines_split(ls: Seq<Seq<char>>)
    requires
        forall|i: int| 0 <= i < ls.len() ==> no_newline(#[trigger] ls[i]),
    ensures
        split_on(concat_lines(ls), '\n') == ls.push(Seq::<char>::empty()),
        text_lines_spec(concat_lines(ls)) == ls.map_values(|l: Seq<char>| strip_cr(l)),
    decreases ls.len(),
{
    if ls.len() == 0 {
        assert(split_on(Seq::<char>::empty(), '\n') =~= ls.push(Seq::<char>::empty()));
    } else {
        let init = ls.drop_last();
        let l = ls.last();
        assert forall|i: int| 0 <= i < init.len() implies no_newline(#[trigger] init[i]) by {
            assert(init[i] == ls[i]);
        }
        lemma_concat_lines_split(init);
        let c = concat_lines(init);
        assert(no_newline(ls[ls.len() - 1]));
        lemma_split_no_sep(c, l, '\n');
        let x = c + l;
        assert(concat_lines(ls) == x + seq!['\n']);
        assert((x + seq!['\n']).drop_last() =~= x);
        assert(split_on(x, '\n') =~= init.push(l)) by {
            assert(init.push(Seq::<char>::empty()).update(init.len() as int, Seq::<char>::empty() + l)
                =~= init.push(l));
            assert(Seq::<char>::empty() + l =~= l);
        }
        assert(init.push(l) =~= ls);
    }
    let ps = split_on(concat_lines(ls), '\n');
    assert(ps.drop_last() =~= ls);
}

proof fn lemma_split_pieces_no_sep(s: Seq<char>, sep: char)
    ensures
        forall|i: int, j: int|
            0 <= i < split_on(s, sep).len() && 0 <= j < split_on(s, sep)[i].len() ==> #[trigger] split_on(
                s,
                sep,
            )[i][j] != sep,
    decreases s.len(),
{
    if s.len() > 0 {
        lemma_split_pieces_no_sep(s.drop_last(), sep);
        crate::text::lemma_split_on_len(s.drop_last(), sep);
        let r = split_on(s.drop_last(), sep);
        if s.last() != sep {
            let r2 = r.update(r.len() - 1, r.last().push(s.last()));
            assert forall|i: int, j: int| 0 <= i < r2.len() && 0 <= j < r2[i].len() implies #[trigger] r2[i][j]
                != sep by {
                if i == r.len() - 1 && j == r.last().len() {
                } else if i == r.len() - 1 {
                    assert(r2[i][j] == r[i][j]);
                } else {
                    assert(r2[i] == r[i]);
                }
            }
        } else {
            let r2 = r.push(Seq::<char>::empty());
            assert forall|i: int, j: int| 0 <= i < r2.len() && 0 <= j < r2[i].len() implies #[trigger] r2[i][j]
                != sep by {
                assert(r2[i] == r[i]);
            }
        }
    }
}

proof fn lemma_lines_no_newline(text: Seq<char>)
    ensures
        forall|i: int| 0 <= i < text_lines_spec(text).len() ==> no_newline(#[trigger] text_lines_spec(text)[i]),
{
    lemma_split_pieces_no_sep(text, '\n');
    crate::text::lemma_split_on_len(text, '\n');
    let ps = split_on(text, '\n');
    let ls = text_lines_spec(text);
    assert forall|i: int| 0 <= i < ls.len() implies no_newline(#[trigger] ls[i]) by {
        assert forall|j: int| 0 <= j < ls[i].len() implies #[trigger] ls[i][j] != '\n' by {
            if i < ps.len() - 1 {
                assert(ls[i] == strip_cr(ps[i]));
                assert(ls[i][j] == ps[i][j]);
            } else {
                assert(ls[i] == ps[i]);
            }
        }
    }
}

proof fn lemma_escape_no_newline(v: Seq<char>)
    ensures
        no_newline(escape_env(v)),
    decreases v.len(),
{
    if v.len() > 0 {
        lemma_escape_no_newline(v.drop_first());
        let e = escape_env(v);
        let p = escape_piece(v[0]);
        assert forall|j: int| 0 <= j < e.len() implies #[trigger] e[j] != '\n' by {
            if j < p.len() {
                assert(e[j] == p[j]);
            } else {
                assert(e[j] == escape_env(v.drop_first())[j - p.len()]);
            }
        }
    }
}

proof fn lemma_assignment_no_newline(key: Seq<char>, value: Seq<char>)
    requires
        valid_env_name(key),
    ensures
        no_newline(assignment_line(key, value)),
{
    lemma_escape_no_newline(value);
    let l = assignment_line(key, value);
    let e = escape_env(value);
    assert forall|j: int| 0 <= j < l.len() implies #[trigger] l[j] != '\n' by {
        let kl = key.len() as int;
        if j < kl {
            assert(l[j] == key[j]);
            if j > 0 {
                assert(key[j] == '_' || is_ascii_alnum(key[j]));
            }
        } else if j == kl {
        } else if j == kl + 1 {
        } else if j < kl + 2 + e.len() {
            assert(l[j] == e[j - kl - 2]);
        } else {
        }
    }
}

proof fn lemma_trim_start_push_space(s: Seq<char>, c: char)
    requires
        crate::text::is_space(c),
    ensures
        trim_start(s.push(c)) == if trim_start(s).len() == 0 {
            Seq::<char>::empty()
        } else {
            trim_start(s).push(c)
        },
    decreases s.len(),
{
    if s.len() == 0 {
        assert(s.push(c).drop_first() =~= Seq::<char>::empty());
        assert(trim_start(Seq::<char>::empty()) == Seq::<char>::empty());
    } else if crate::text::is_space(s[0]) {
        assert(s.push(c).drop_first() =~= s.drop_first().push(c));
        lemma_trim_start_push_space(s.drop_first(), c);
    } else {
    }
}

proof fn lemma_trim_end_push_space(s: Seq<char>, c: char)
    requires
        crate::text::is_space(c),
    ensures
        trim_end(s.push(c)) == trim_end(s),
{
    assert(s.push(c).drop_last() =~= s);
}

proof fn lemma_find_char_push(s: Seq<char>, c: char, x: char)
    requires
        c != x,
    ensures
        find_char(s.push(c), x) == find_char(s, x),
    decreases s.len(),
{
    if s.len() == 0 {
        assert(s.push(c).drop_first() =~= Seq::<char>::empty());
        assert(find_char(Seq::<char>::empty(), x) is None);
    } else if s[0] != x {
        assert(s.push(c).drop_first() =~= s.drop_first().push(c));
        lemma_find_char_push(s.drop_first(), c, x);
    }
}

proof fn lemma_split_once_push(s: Seq<char>, c: char, x: char)
    requires
        c != x,
    ensures
        split_once(s.push(c), x) == match split_once(s, x) {
            Some((a, b)) => Some((a, b.push(c))),
            None => None,
        },
{
    lemma_find_char_push(s, c, x);
    crate::text::lemma_find_char(s, x);
    match find_char(s, x) {
        Some(i) => {
            assert(s.push(c).take(i) =~= s.take(i));
            assert(s.push(c).skip(i + 1) =~= s.skip(i + 1).push(c));
        },
        None => {},
    }
}

proof fn lemma_dq_push_cr(s: Seq<char>)
    ensures
        double_quoted(s.push('\r')) == double_quoted(s),
    decreases s.len(),
{
    let t = s.push('\r');
    if s.len() == 0 {
        assert(t.drop_first() =~= Seq::<char>::empty());
        assert(double_quoted(Seq::<char>::empty()) is Err);
    } else if s[0] == '"' {
    } else if s[0] == '\\' {
        if s.len() == 1 {
            assert(t.skip(2) =~= Seq::<char>::empty());
            assert(double_quoted(Seq::<char>::empty()) is Err);
        } else {
            assert(t.skip(2) =~= s.skip(2).push('\r'));
            lemma_dq_push_cr(s.skip(2));
            assert(t[1] == s[1]);
        }
    } else {
        assert(t.drop_first() =~= s.drop_first().push('\r'));
        lemma_dq_push_cr(s.drop_first());
    }
}

proof fn lemma_comment_bounds(s: Seq<char>, i: int)
    requires
        0 <= i <= s.len(),
    ensures
        i <= comment_from(s, i) <= s.len(),
    decreases s.len() - i,
{
    if i < s.len() {
        lemma_comment_bounds(s, i + 1);
    }
}

proof fn lemma_comment_push(s: Seq<char>, c: char, i: int)
    requires
        0 <= i <= s.len(),
        c != '#',
    ensures
        comment_from(s.push(c), i) == if comment_from(s, i) < s.len() {
            comment_from(s, i)
        } else {
            s.len() + 1int
        },
    decreases s.len() - i,
{
    let t = s.push(c);
    if i == s.len() {
        assert(t[i] == c);
        assert(comment_from(t, i + 1) == t.len());
    } else {
        assert(t[i] == s[i]);
        if i > 0 {
            assert(t[i - 1] == s[i - 1]);
        }
        lemma_comment_push(s, c, i + 1);
    }
}

proof fn lemma_unquoted_push_cr(r: Seq<char>)
    ensures
        trim_end(strip_comment(r.push('\r'))) == trim_end(strip_comment(r)),
{
    lemma_comment_push(r, '\r', 0);
    lemma_comment_bounds(r, 0);
    let t = r.push('\r');
    if comment_from(r, 0) < r.len() {
        assert(t.take(comment_from(r, 0)) =~= r.take(comment_from(r, 0)));
    } else {
        assert(t.take(t.len() as int) =~= t);
        assert(r.take(r.len() as int) =~= r);
        lemma_trim_end_push_space(r, '\r');
    }
}

proof fn lemma_value_push_cr(raw: Seq<char>)
    ensures
        env_value_spec(trim_start(raw.push('\r'))) == env_value_spec(trim_start(raw)),
{
    lemma_trim_start_push_space(raw, '\r');
    let r = trim_start(raw);
    if r.len() == 0 {
        assert(trim_start(raw.push('\r')) == r);
    } else {
        let t = r.push('\r');
        assert(trim_start(raw.push('\r')) == t);
        assert(t[0] == r[0]);
        if r[0] == '"' {
            assert(t.drop_first() =~= r.drop_first().push('\r'));
            lemma_dq_push_cr(r.drop_first());
            assert(env_value_spec(t) == env_value_spec(r));
        } else if r[0] == '\'' {
            assert(t.drop_first() =~= r.drop_first().push('\r'));
            lemma_split_once_push(r.drop_first(), '\r', '\'');
            assert(env_value_spec(t) == env_value_spec(r));
        } else {
            lemma_unquoted_push_cr(r);
            assert(env_value_spec(t) == env_value_spec(r));
        }
    }
}

proof fn lemma_assignment_push_cr(s: Seq<char>)
    ensures
        line_assignment(s.push('\r')) == match line_assignment(s) {
            Some((k, raw)) => Some((k, raw.push('\r'))),
            None => None,
        },
{
    lemma_trim_start_push_space(s, '\r');
    let tt = trim_start(s);
    if tt.len() > 0 {
        let t2 = tt.push('\r');
        assert(t2[0] == tt[0]);
        assert(strip_export(t2) == strip_export(tt).push('\r')) by {
            if tt.len() >= 7 {
                assert(t2.take(7) =~= tt.take(7));
                assert(t2.skip(7) =~= tt.skip(7).push('\r'));
            } else if tt.len() == 6 {
                assert(t2.take(7)[6] == '\r');
                assert(export_prefix()[6] == ' ');
            }
        }
        lemma_split_once_push(strip_export(tt), '\r', '=');
    }
}

/// A carriage return at the end of a line does not change what it assigns.
proof fn lemma_parse_line_push_cr(s: Seq<char>)
    ensures
        parse_line(s.push('\r')) == parse_line(s),
        env_line_key_spec(s.push('\r')) == env_line_key_spec(s),
{
    lemma_assignment_push_cr(s);
    match line_assignment(s) {
        Some((k, raw)) => {
            lemma_value_push_cr(raw);
        },
        None => {},
    }
}

proof fn lemma_parse_line_strip_cr(l: Seq<char>)
    ensures
        parse_line(strip_cr(l)) == parse_line(l),
        env_line_key_spec(strip_cr(l)) == env_line_key_spec(l),
{
    if l.len() > 0 && l.last() == '\r' {
        assert(l.drop_last().push('\r') =~= l);
        lemma_parse_line_push_cr(l.drop_last());
    }
}

proof fn lemma_fold_congruent(m: Map<Seq<char>, Seq<char>>, a: Seq<Seq<char>>, b: Seq<Seq<char>>)
    requires
        a.len() == b.len(),
        forall|i: int| 0 <= i < a.len() ==> parse_line(#[trigger] a[i]) == parse_line(b[i]),
    ensures
        fold_lines(m, a) == fold_lines(m, b),
    decreases a.len(),
{
    if a.len() > 0 {
        assert forall|i: int| 0 <= i < a.len() - 1 implies parse_line(#[trigger] a.drop_last()[i])
            == parse_line(b.drop_last()[i]) by {
            assert(a.drop_last()[i] == a[i]);
            assert(b.drop_last()[i] == b[i]);
        }
        lemma_fold_congruent(m, a.drop_last(), b.drop_last());
        assert(parse_line(a[a.len() - 1]) == parse_line(b[b.len() - 1]));
    }
}

proof fn lemma_fold_append(m: Map<Seq<char>, Seq<char>>, a: Seq<Seq<char>>, b: Seq<Seq<char>>)
    ensures
        fold_lines(m, a + b) == match fold_lines(m, a) {
            Ok(m1) => fold_lines(m1, b),
            Err(e) => Err(e),
        },
    decreases b.len(),
{
    if b.len() == 0 {
        assert(a + b =~= a);
    } else {
        assert((a + b).drop_last() =~= a + b.drop_last());
        assert((a + b).last() == b.last());
        lemma_fold_append(m, a, b.drop_last());
    }
}

proof fn lemma_fold_ok(m: Map<Seq<char>, Seq<char>>, ls: Seq<Seq<char>>)
    requires
        forall|i: int| 0 <= i < ls.len() ==> parse_line(#[trigger] ls[i]) is Ok,
    ensures
        fold_lines(m, ls) is Ok,
    decreases ls.len(),
{
    if ls.len() > 0 {
        assert forall|i: int| 0 <= i < ls.len() - 1 implies parse_line(#[trigger] ls.drop_last()[i]) is Ok by {
            assert(ls.drop_last()[i] == ls[i]);
        }
        lemma_fold_ok(m, ls.drop_last());
        assert(parse_line(ls[ls.len() - 1]) is Ok);
    }
}

proof fn lemma_fold_insert_other(
    m: Map<Seq<char>, Seq<char>>,
    ls: Seq<Seq<char>>,
    key: Seq<char>,
    x: Seq<char>,
)
    requires
        forall|i: int| 0 <= i < ls.len() ==> !assigns(#[trigger] ls[i], key),
    ensures
        fold_lines(m.insert(key, x), ls) == match fold_lines(m, ls) {
            Ok(m2) => Ok::<Map<Seq<char>, Seq<char>>, EnvError>(m2.insert(key, x)),
            Err(e) => Err(e),
        },
    decreases ls.len(),
{
    if ls.len() > 0 {
        assert forall|i: int| 0 <= i < ls.len() - 1 implies !assigns(#[trigger] ls.drop_last()[i], key) by {
            assert(ls.drop_last()[i] == ls[i]);
        }
        lemma_fold_insert_other(m, ls.drop_last(), key, x);
        let l = ls.last();
        assert(!assigns(ls[ls.len() - 1], key));
        match fold_lines(m, ls.drop_last()) {
            Ok(acc) => {
                match parse_line(l) {
                    Ok(Some((k, v))) => {
                        assert(env_line_key_spec(l) == Some(k));
                        assert(k != key);
                        assert(acc.insert(key, x).insert(k, v) =~= acc.insert(k, v).insert(key, x));
                    },
                    _ => {},
                }
            },
            Err(_) => {},
        }
    }
}

proof fn lemma_rewritten(ls: Seq<Seq<char>>, key: Seq<char>, line: Seq<char>)
    ensures
        ({
            let (o, r) = rewritten_lines(ls, key, line);
            &&& !r ==> o == ls && forall|i: int| 0 <= i < ls.len() ==> !assigns(#[trigger] ls[i], key)
            &&& r ==> exists|i: int|
                0 <= i < ls.len() && assigns(ls[i], key) && (forall|j: int|
                    0 <= j < i ==> !assigns(#[trigger] ls[j], key)) && o == ls.update(i, line)
        }),
    decreases ls.len(),
{
    if ls.len() == 0 {
    } else {
        let p = ls.drop_last();
        let l = ls.last();
        lemma_rewritten(p, key, line);
        let (o, r) = rewritten_lines(p, key, line);
        if !r && assigns(l, key) {
            let i = p.len() as int;
            assert(o.push(line) =~= ls.update(i, line));
            assert forall|j: int| 0 <= j < i implies !assigns(#[trigger] ls[j], key) by {
                assert(ls[j] == p[j]);
            }
        } else if r {
            let i = choose|i: int|
                0 <= i < p.len() && assigns(p[i], key) && (forall|j: int|
                    0 <= j < i ==> !assigns(#[trigger] p[j], key)) && o == p.update(i, line);
            assert(o.push(l) =~= ls.update(i, line));
            assert(ls[i] == p[i]);
            assert forall|j: int| 0 <= j < i implies !assigns(#[trigger] ls[j], key) by {
                assert(ls[j] == p[j]);
            }
        } else {
            assert(o.push(l) =~= ls);
            assert forall|i: int| 0 <= i < ls.len() implies !assigns(#[trigger] ls[i], key) by {
                if i < p.len() {
                    assert(ls[i] == p[i]);
                }
            }
        }
    }
}

proof fn lemma_fold_single(m: Map<Seq<char>, Seq<char>>, l: Seq<char>)
    ensures
        fold_lines(m, seq![l]) == match parse_line(l) {
            Err(e) => Err(e),
            Ok(None) => Ok(m),
            Ok(Some((k, v))) => Ok::<Map<Seq<char>, Seq<char>>, EnvError>(m.insert(k, v)),
        },
{
    assert(seq![l].drop_last() =~= Seq::<Seq<char>>::empty());
    assert(fold_lines(m, Seq::<Seq<char>>::empty()) == Ok::<Map<Seq<char>, Seq<char>>, EnvError>(m));
    assert(seq![l].last() == l);
}

/// The lines that do not assign `key`, in order.
pub open spec fn other_lines(ls: Seq<Seq<char>>, key: Seq<char>) -> Seq<Seq<char>> {
    ls.filter(|l: Seq<char>| !assigns(l, key))
}

proof fn lemma_other_lines_one(l: Seq<char>, key: Seq<char>)
    ensures
        other_lines(seq![l], key) == if assigns(l, key) {
            Seq::<Seq<char>>::empty()
        } else {
            seq![l]
        },
{
    reveal(Seq::filter);
    let pred = |x: Seq<char>| !assigns(x, key);
    let e = Seq::<Seq<char>>::empty();
    assert(seq![l].drop_last() =~= e);
    assert(seq![l].last() == l);
    assert(e.filter(pred) == e);
    assert(e.push(l) =~= seq![l]);
    assert(other_lines(seq![l], key) == seq![l].filter(pred));
    if pred(l) {
        assert(seq![l].filter(pred) == e.filter(pred).push(l));
    } else {
        assert(seq![l].filter(pred) == e.filter(pred));
    }
}

/// Setting a variable keeps every line of the file that does not assign
/// it, in the same order; a file that had no lines gets one empty line
/// first. (The line for the variable replaces the first line that assigns
/// it, or is added at the end.)
pub proof fn lemma_env_write_keeps_other_lines(existing: Seq<char>, key: Seq<char>, value: Seq<char>)
    requires
        valid_env_name(key),
    ensures
        other_lines(updated_lines(Some(existing), key, value), key) == (if text_lines_spec(
            existing,
        ).len() == 0 {
            seq![Seq::<char>::empty()]
        } else {
            Seq::<Seq<char>>::empty()
        }) + other_lines(text_lines_spec(existing), key),
        updated_env_spec(Some(existing), key, value) == concat_lines(
            updated_lines(Some(existing), key, value),
        ),
{
    let line = assignment_line(key, value);
    lemma_assignment_line_parses(key, value);
    let ls = text_lines_spec(existing);
    lemma_rewritten(ls, key, line);
    let (o, r) = rewritten_lines(ls, key, line);
    let pre = if ls.len() == 0 {
        seq![Seq::<char>::empty()]
    } else {
        Seq::<Seq<char>>::empty()
    };
    let post = if r {
        Seq::<Seq<char>>::empty()
    } else {
        seq![line]
    };
    let pred = |l: Seq<char>| !assigns(l, key);
    let u = updated_lines(Some(existing), key, value);
    assert(u == pre + o + post);
    Seq::filter_distributes_over_add(pre + o, post, pred);
    Seq::filter_distributes_over_add(pre, o, pred);
    // the empty line assigns nothing
    assert(trim_start(Seq::<char>::empty()) =~= Seq::<char>::empty()) by {
        reveal_with_fuel(trim_start, 2);
    }
    assert(!assigns(Seq::<char>::empty(), key));
    if ls.len() == 0 {
        lemma_other_lines_one(Seq::<char>::empty(), key);
    } else {
        reveal(Seq::filter);
        assert(other_lines(pre, key) =~= pre);
    }
    if r {
        reveal(Seq::filter);
        assert(other_lines(post, key) =~= post);
        let i = choose|i: int|
            0 <= i < ls.len() && assigns(ls[i], key) && (forall|j: int|
                0 <= j < i ==> !assigns(#[trigger] ls[j], key)) && o == ls.update(i, line);
        let head = ls.take(i);
        let rest = ls.skip(i + 1);
        assert(o =~= head + seq![line] + rest);
        assert(ls =~= head + seq![ls[i]] + rest);
        Seq::filter_distributes_over_add(head + seq![line], rest, pred);
        Seq::filter_distributes_over_add(head, seq![line], pred);
        Seq::filter_distributes_over_add(head + seq![ls[i]], rest, pred);
        Seq::filter_distributes_over_add(head, seq![ls[i]], pred);
        lemma_other_lines_one(line, key);
        lemma_other_lines_one(ls[i], key);
        assert(other_lines(o, key) =~= other_lines(ls, key));
    } else {
        lemma_other_lines_one(line, key);
    }
    assert(other_lines(u, key) =~= other_lines(pre, key) + other_lines(ls, key));
}

proof fn lemma_fold_ok_lines(m: Map<Seq<char>, Seq<char>>, ls: Seq<Seq<char>>)
    requires
        fold_lines(m, ls) is Ok,
    ensures
        forall|i: int| 0 <= i < ls.len() ==> parse_line(#[trigger] ls[i]) is Ok,
    decreases ls.len(),
{
    if ls.len() > 0 {
        lemma_fold_ok_lines(m, ls.drop_last());
        assert forall|i: int| 0 <= i < ls.len() implies parse_line(#[trigger] ls[i]) is Ok by {
            if i < ls.len() - 1 {
                assert(ls.drop_last()[i] == ls[i]);
            }
        }
    }
}

/// A `.env` text that reads has every line readable.
pub proof fn lemma_readable_env_lines_parse(text: Seq<char>)
    requires
        parse_env_spec(text) is Ok,
    ensures
        forall|i: int|
            0 <= i < text_lines_spec(text).len() ==> parse_line(#[trigger] text_lines_spec(text)[i]) is Ok,
{
    lemma_fold_ok_lines(Map::<Seq<char>, Seq<char>>::empty(), text_lines_spec(text));
}

/// Setting a variable in a `.env` file that reads, and in which at most
/// one line assigns the name, or in a file that does not exist yet: the
/// file reads back as before with the variable set to the new value. A
/// new file holds that one variable and nothing else.
pub proof fn lemma_env_write_read_back(existing: Option<Seq<char>>, key: Seq<char>, value: Seq<char>)
    requires
        valid_env_name(key),
        existing matches Some(t) ==> parse_env_spec(t) is Ok && single_assignment(
            text_lines_spec(t),
            key,
        ),
    ensures
        parse_env_spec(updated_env_spec(existing, key, value)) == Ok::<
            Map<Seq<char>, Seq<char>>,
            EnvError,
        >(
            match existing {
                None => Map::<Seq<char>, Seq<char>>::empty().insert(key, value),
                Some(t) => parse_env_spec(t)->Ok_0.insert(key, value),
            },
        ),
{
    match existing {
        None => {},
        Some(t) => {
            lemma_readable_env_lines_parse(t);
        },
    }
    lemma_env_write_then_read(existing, key, value);
}

/// Setting a variable and reading the file back gives the value that was
/// set; when the file could be read before, every other variable keeps
/// its value. This holds when at most one line of the old file assigns
/// the name and every other line can be read (a later line for the same
/// name would override the new value; a bad line stops the reading).
pub proof fn lemma_env_write_then_read(existing: Option<Seq<char>>, key: Seq<char>, value: Seq<char>)
    requires
        valid_env_name(key),
        existing matches Some(t) ==> single_assignment(text_lines_spec(t), key) && others_parse(
            text_lines_spec(t),
            key,
        ),
    ensures
        parse_env_spec(updated_env_spec(existing, key, value)) matches Ok(m) && m.contains_key(key)
            && m[key] == value,
        existing matches Some(t) ==> (parse_env_spec(t) matches Ok(m0) ==> parse_env_spec(
            updated_env_spec(existing, key, value),
        ) == Ok::<Map<Seq<char>, Seq<char>>, EnvError>(m0.insert(key, value))),
        existing is None ==> parse_env_spec(updated_env_spec(existing, key, value)) == Ok::<
            Map<Seq<char>, Seq<char>>,
            EnvError,
        >(Map::<Seq<char>, Seq<char>>::empty().insert(key, value)),
{
    let line = assignment_line(key, value);
    let u = updated_lines(existing, key, value);
    lemma_assignment_line_parses(key, value);
    lemma_assignment_no_newline(key, value);
    let e = Map::<Seq<char>, Seq<char>>::empty();
    // the written text reads back as its lines, carriage returns dropped
    assert forall|i: int| 0 <= i < u.len() implies no_newline(#[trigger] u[i]) by {
        match existing {
            None => {},
            Some(t) => {
                lemma_lines_no_newline(t);
                let ls = text_lines_spec(t);
                lemma_rewritten(ls, key, line);
                let (o, r) = rewritten_lines(ls, key, line);
                let pre = if ls.len() == 0 {
                    seq![Seq::<char>::empty()]
                } else {
                    Seq::<Seq<char>>::empty()
                };
                let post = if r {
                    Seq::<Seq<char>>::empty()
                } else {
                    seq![line]
                };
                assert(u == pre + o + post);
                if i < pre.len() {
                    assert(u[i] == Seq::<char>::empty());
                } else if i < pre.len() + o.len() {
                    assert(u[i] == o[i - pre.len()]);
                    if r {
                        let k = choose|k: int|
                            0 <= k < ls.len() && assigns(ls[k], key) && (forall|j: int|
                                0 <= j < k ==> !assigns(#[trigger] ls[j], key)) && o == ls.update(
                                k,
                                line,
                            );
                        if i - pre.len() != k {
                            assert(o[i - pre.len()] == ls[i - pre.len()]);
                        }
                    } else {
                        assert(o[i - pre.len()] == ls[i - pre.len()]);
                    }
                } else {
                    assert(u[i] == line);
                }
            },
        }
    }
    lemma_concat_lines_split(u);
    let um = u.map_values(|l: Seq<char>| strip_cr(l));
    assert forall|i: int| 0 <= i < um.len() implies parse_line(#[trigger] um[i]) == parse_line(u[i]) by {
        lemma_parse_line_strip_cr(u[i]);
    }
    lemma_fold_congruent(e, um, u);
    assert(parse_env_spec(updated_env_spec(existing, key, value)) == fold_lines(e, u));
    match existing {
        None => {
            lemma_fold_single(e, line);
        },
        Some(t) => {
            let ls = text_lines_spec(t);
            lemma_rewritten(ls, key, line);
            let (o, r) = rewritten_lines(ls, key, line);
            if r {
                let i = choose|i: int|
                    0 <= i < ls.len() && assigns(ls[i], key) && (forall|j: int|
                        0 <= j < i ==> !assigns(#[trigger] ls[j], key)) && o == ls.update(i, line);
                let head = ls.take(i);
                let rest = ls.skip(i + 1);
                assert(u =~= head + (seq![line] + rest));
                assert(ls =~= head + (seq![ls[i]] + rest));
                assert forall|j: int| 0 <= j < head.len() implies parse_line(#[trigger] head[j]) is Ok by {
                    assert(head[j] == ls[j]);
                }
                lemma_fold_ok(e, head);
                let mi = fold_lines(e, head)->Ok_0;
                assert forall|j: int| 0 <= j < rest.len() implies !assigns(#[trigger] rest[j], key) by {
                    assert(rest[j] == ls[i + 1 + j]);
                    assert(!(assigns(ls[i], key) && assigns(ls[i + 1 + j], key)));
                }
                assert forall|j: int| 0 <= j < rest.len() implies parse_line(#[trigger] rest[j]) is Ok by {
                    assert(rest[j] == ls[i + 1 + j]);
                }
                lemma_fold_ok(mi, rest);
                let m2 = fold_lines(mi, rest)->Ok_0;
                lemma_fold_append(e, head, seq![line] + rest);
                lemma_fold_append(mi, seq![line], rest);
                lemma_fold_single(mi, line);
                lemma_fold_insert_other(mi, rest, key, value);
                assert(fold_lines(e, u) == Ok::<Map<Seq<char>, Seq<char>>, EnvError>(
                    m2.insert(key, value),
                ));
                if parse_env_spec(t) is Ok {
                    lemma_fold_append(e, head, seq![ls[i]] + rest);
                    lemma_fold_append(mi, seq![ls[i]], rest);
                    lemma_fold_single(mi, ls[i]);
                    match parse_line(ls[i]) {
                        Ok(Some((k, vold))) => {
                            assert(env_line_key_spec(ls[i]) == Some(k));
                            lemma_fold_insert_other(mi, rest, key, vold);
                            assert(m2.insert(key, vold).insert(key, value) =~= m2.insert(
                                key,
                                value,
                            ));
                        },
                        Ok(None) => {
                            assert(env_line_key_spec(ls[i]) is None);
                        },
                        Err(_) => {},
                    }
                }
            } else {
                let pre = if ls.len() == 0 {
                    seq![Seq::<char>::empty()]
                } else {
                    Seq::<Seq<char>>::empty()
                };
                assert(u =~= (pre + ls) + seq![line]);
                lemma_fold_ok(e, ls);
                let m = fold_lines(e, ls)->Ok_0;
                lemma_fold_append(e, pre + ls, seq![line]);
                assert(fold_lines(e, pre + ls) == fold_lines(e, ls)) by {
                    if ls.len() == 0 {
                        assert(pre + ls =~= seq![Seq::<char>::empty()]);
                        lemma_fold_single(e, Seq::<char>::empty());
                        assert(parse_line(Seq::<char>::empty()) == Ok::<
                            Option<(Seq<char>, Seq<char>)>,
                            EnvError,
                        >(None));
                    } else {
                        assert(pre + ls =~= ls);
                    }
                }
                lemma_fold_single(m, line);
            }
        },
    }
}

/// The `.env` file of a project directory.
pub fn local_env_path(root: &str) -> (r: String)
    ensures
        r@ == join_path(root@, ".env"@),
{
    crate::paths::join(root, ".env")
}

/// The value of a variable: the process environment's value when set and
/// not blank, else the file's; surrounding whitespace removed.
pub open spec fn resolved_env_value(process_value: Option<Seq<char>>, file_value: Option<Seq<char>>) -> Option<Seq<char>> {
    match process_value {
        Some(p) if trim(p).len() > 0 => Some(trim(p)),
        _ => match file_value {
            Some(f) if trim(f).len() > 0 => Some(trim(f)),
            _ => None,
        },
    }
}

/// What a `.env` file, if there is one, holds for `name`.
pub open spec fn file_value(env_file: Option<&EnvFile>, name: Seq<char>) -> Option<Seq<char>> {
    match env_file {
        Some(f) => if f.vars().contains_key(name) {
            Some(f.vars()[name])
        } else {
            None
        },
        None => None,
    }
}

/// The value of `name`, given what the process environment holds for it.
pub fn resolve_env_value(process_value: Option<&str>, name: &str, env_file: Option<&EnvFile>) -> (r: Option<String>)
    ensures
        crate::config::opt_view(r) == resolved_env_value(
            crate::config::opt_str_view(process_value),
            file_value(env_file, name@),
        ),
{
    if let Some(p) = process_value {
        let t = crate::text::trimmed(p);
        if !t.as_str().is_empty() {
            return Some(t);
        }
    }
    match env_file {
        Some(f) => match f.get(name) {
            Some(x) => {
                let t = crate::text::trimmed(x);
                if t.as_str().is_empty() {
                    None
                } else {
                    Some(t)
                }
            },
            None => None,
        },
        None => None,
    }
}


/// The message of a `.env` error; `name` is the variable concerned.
pub open spec fn env_error_text(e: EnvError, name: Seq<char>) -> Seq<char> {
    match e {
        EnvError::UnterminatedDoubleQuote => "unterminated double-quoted .env value"@,
        EnvError::UnterminatedSingleQuote => "unterminated single-quoted .env value"@,
        EnvError::EmptyName => "environment variable name cannot be empty"@,
        EnvError::InvalidName => "invalid environment variable name: "@ + name,
    }
}

impl EnvError {
    /// The message shown to the user; `name` is the variable concerned.
    pub fn message(&self, name: &str) -> (r: String)
        ensures
            r@ == env_error_text(*self, name@),
    {
        match self {
            EnvError::UnterminatedDoubleQuote => "unterminated double-quoted .env value".to_owned(),
            EnvError::UnterminatedSingleQuote => "unterminated single-quoted .env value".to_owned(),
            EnvError::EmptyName => "environment variable name cannot be empty".to_owned(),
            EnvError::InvalidName => {
                let mut m = "invalid environment variable name: ".to_owned();
                crate::text::push_str(&mut m, name);
                m
            },
        }
    }
}

} // verus!
