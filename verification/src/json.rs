//! JSON values as the configuration files hold them, and the operations
//! on dotted keys: lookup, assignment, removal, and the merge of one file
//! over another.
use crate::text::{chars_of, split_on, str_eq, string_of_range};
use vstd::prelude::*;

verus! {

/// A JSON value. A number keeps its JSON text; an object keeps its
/// members in order, and a member added to it goes in name order, as in a
/// JSON object map whose keys are sorted.
#[derive(Debug)]
pub enum JsonValue {
    Null,
    Bool(bool),
    Number(String),
    Str(String),
    Array(Vec<JsonValue>),
    Object(Vec<(String, JsonValue)>),
}

/// A JSON value, as a mathematical value.
pub ghost enum JsonView {
    Null,
    Bool(bool),
    Number(Seq<char>),
    Str(Seq<char>),
    Array(Seq<JsonView>),
    Object(Seq<(Seq<char>, JsonView)>),
}

pub open spec fn values_view(s: Seq<JsonValue>) -> Seq<JsonView>
    decreases s,
{
    if s.len() == 0 {
        Seq::<JsonView>::empty()
    } else {
        values_view(s.drop_last()).push(s.last().view())
    }
}

pub open spec fn members_view(s: Seq<(String, JsonValue)>) -> Seq<(Seq<char>, JsonView)>
    decreases s,
{
    if s.len() == 0 {
        Seq::<(Seq<char>, JsonView)>::empty()
    } else {
        members_view(s.drop_last()).push((s.last().0@, s.last().1.view()))
    }
}

impl JsonValue {
    pub open spec fn view(&self) -> JsonView
        decreases self,
    {
        match self {
            JsonValue::Null => JsonView::Null,
            JsonValue::Bool(b) => JsonView::Bool(*b),
            JsonValue::Number(n) => JsonView::Number(n@),
            JsonValue::Str(s) => JsonView::Str(s@),
            JsonValue::Array(v) => JsonView::Array(values_view(v@)),
            JsonValue::Object(m) => JsonView::Object(members_view(m@)),
        }
    }
}

pub proof fn lemma_members_view(s: Seq<(String, JsonValue)>)
    ensures
        members_view(s).len() == s.len(),
        forall|i: int|
            0 <= i < s.len() ==> #[trigger] members_view(s)[i] == (s[i].0@, s[i].1.view()),
    decreases s.len(),
{
    if s.len() > 0 {
        lemma_members_view(s.drop_last());
        assert forall|i: int| 0 <= i < s.len() implies #[trigger] members_view(s)[i] == (
            s[i].0@,
            s[i].1.view(),
        ) by {
            if i < s.len() - 1 {
                assert(s.drop_last()[i] == s[i]);
            }
        }
    }
}

pub proof fn lemma_members_view_ext(a: Seq<(String, JsonValue)>, b: Seq<(Seq<char>, JsonView)>)
    requires
        a.len() == b.len(),
        forall|i: int| 0 <= i < a.len() ==> (a[i].0@, a[i].1.view()) == #[trigger] b[i],
    ensures
        members_view(a) == b,
{
    lemma_members_view(a);
    assert(members_view(a) =~= b);
}

pub proof fn lemma_values_view(s: Seq<JsonValue>)
    ensures
        values_view(s).len() == s.len(),
        forall|i: int| 0 <= i < s.len() ==> #[trigger] values_view(s)[i] == s[i].view(),
    decreases s.len(),
{
    if s.len() > 0 {
        lemma_values_view(s.drop_last());
        assert forall|i: int| 0 <= i < s.len() implies #[trigger] values_view(s)[i] == s[i].view() by {
            if i < s.len() - 1 {
                assert(s.drop_last()[i] == s[i]);
            }
        }
    }
}

// ---------------------------------------------------------------------
// Members of objects.
// ---------------------------------------------------------------------
/// The members of an object; other values have none.
pub open spec fn members_of(v: JsonView) -> Seq<(Seq<char>, JsonView)> {
    match v {
        JsonView::Object(m) => m,
        _ => Seq::<(Seq<char>, JsonView)>::empty(),
    }
}

/// The first member named `k`.
pub open spec fn index_of(m: Seq<(Seq<char>, JsonView)>, k: Seq<char>) -> Option<int>
    decreases m.len(),
{
    if m.len() == 0 {
        None
    } else {
        match index_of(m.drop_last(), k) {
            Some(i) => Some(i),
            None => if m.last().0 == k {
                Some(m.len() - 1)
            } else {
                None
            },
        }
    }
}

/// The value of the member named `k`.
pub open spec fn lookup(m: Seq<(Seq<char>, JsonView)>, k: Seq<char>) -> Option<JsonView> {
    match index_of(m, k) {
        Some(i) => Some(m[i].1),
        None => None,
    }
}

/// Whether name `a` sorts before name `b`: character by character, a
/// proper prefix first. This is the order of `String`'s `Ord`, since UTF-8
/// bytes compare as the characters they encode.
pub open spec fn key_lt(a: Seq<char>, b: Seq<char>) -> bool
    decreases a.len(),
{
    if a.len() == 0 {
        b.len() > 0
    } else if b.len() == 0 {
        false
    } else if a[0] != b[0] {
        (a[0] as u32) < (b[0] as u32)
    } else {
        key_lt(a.drop_first(), b.drop_first())
    }
}

/// Where a new member named `k` goes: before the first member whose name
/// sorts after `k`, so that members in name order stay in name order.
pub open spec fn insert_pos(m: Seq<(Seq<char>, JsonView)>, k: Seq<char>) -> int
    decreases m.len(),
{
    if m.len() == 0 {
        0
    } else if key_lt(k, m[0].0) {
        0
    } else {
        1 + insert_pos(m.drop_first(), k)
    }
}

/// The members with `k` set to `v`: an existing member keeps its place, a
/// new one goes in name order.
pub open spec fn obj_set(m: Seq<(Seq<char>, JsonView)>, k: Seq<char>, v: JsonView) -> Seq<
    (Seq<char>, JsonView),
> {
    match index_of(m, k) {
        Some(i) => m.update(i, (k, v)),
        None => m.insert(insert_pos(m, k), (k, v)),
    }
}

pub proof fn lemma_insert_pos_bounds(m: Seq<(Seq<char>, JsonView)>, k: Seq<char>)
    ensures
        0 <= insert_pos(m, k) <= m.len(),
    decreases m.len(),
{
    if m.len() > 0 {
        lemma_insert_pos_bounds(m.drop_first(), k);
    }
}

/// The first index whose member sorts after `k` is where `k` goes.
pub proof fn lemma_insert_pos_at(m: Seq<(Seq<char>, JsonView)>, k: Seq<char>, i: int)
    requires
        0 <= i <= m.len(),
        forall|j: int| 0 <= j < i ==> !key_lt(k, (#[trigger] m[j]).0),
        i < m.len() ==> key_lt(k, m[i].0),
    ensures
        insert_pos(m, k) == i,
    decreases m.len(),
{
    if m.len() > 0 && i > 0 {
        assert(!key_lt(k, m[0].0));
        let t = m.drop_first();
        assert forall|j: int| 0 <= j < i - 1 implies !key_lt(k, (#[trigger] t[j]).0) by {
            assert(t[j] == m[j + 1]);
        }
        if i - 1 < t.len() {
            assert(t[i - 1] == m[i]);
        }
        lemma_insert_pos_at(t, k, i - 1);
    }
}

/// The members without any member named `k`.
pub open spec fn obj_remove(m: Seq<(Seq<char>, JsonView)>, k: Seq<char>) -> Seq<
    (Seq<char>, JsonView),
>
    decreases m.len(),
{
    if m.len() == 0 {
        m
    } else if m.last().0 == k {
        obj_remove(m.drop_last(), k)
    } else {
        obj_remove(m.drop_last(), k).push(m.last())
    }
}

pub proof fn lemma_index_of(m: Seq<(Seq<char>, JsonView)>, k: Seq<char>)
    ensures
        match index_of(m, k) {
            Some(i) => 0 <= i < m.len() && m[i].0 == k && forall|j: int|
                0 <= j < i ==> (#[trigger] m[j]).0 != k,
            None => forall|j: int| 0 <= j < m.len() ==> (#[trigger] m[j]).0 != k,
        },
    decreases m.len(),
{
    if m.len() > 0 {
        lemma_index_of(m.drop_last(), k);
        match index_of(m.drop_last(), k) {
            Some(i) => {
                assert(m[i] == m.drop_last()[i]);
                assert forall|j: int| 0 <= j < i implies (#[trigger] m[j]).0 != k by {
                    assert(m[j] == m.drop_last()[j]);
                }
            },
            None => {
                assert forall|j: int| 0 <= j < m.len() - 1 implies (#[trigger] m[j]).0 != k by {
                    assert(m[j] == m.drop_last()[j]);
                }
            },
        }
    }
}

/// The first index whose name is `k` is what `index_of` gives.
pub proof fn lemma_index_of_at(m: Seq<(Seq<char>, JsonView)>, k: Seq<char>, i: int)
    requires
        0 <= i < m.len(),
        m[i].0 == k,
        forall|j: int| 0 <= j < i ==> (#[trigger] m[j]).0 != k,
    ensures
        index_of(m, k) == Some(i),
{
    lemma_index_of(m, k);
    match index_of(m, k) {
        Some(x) => {
            if x < i {
            } else if x > i {
            }
        },
        None => {},
    }
}

pub proof fn lemma_index_of_none(m: Seq<(Seq<char>, JsonView)>, k: Seq<char>)
    requires
        forall|j: int| 0 <= j < m.len() ==> (#[trigger] m[j]).0 != k,
    ensures
        index_of(m, k) is None,
{
    lemma_index_of(m, k);
    match index_of(m, k) {
        Some(x) => {
            assert(m[x].0 == k);
        },
        None => {},
    }
}

/// Setting a member changes the lookup of that name only.
pub proof fn lemma_lookup_obj_set(
    m: Seq<(Seq<char>, JsonView)>,
    k: Seq<char>,
    v: JsonView,
    k2: Seq<char>,
)
    ensures
        lookup(obj_set(m, k, v), k2) == if k2 == k {
            Some(v)
        } else {
            lookup(m, k2)
        },
        index_of(obj_set(m, k, v), k2) is Some <==> (k2 == k || index_of(m, k2) is Some),
{
    lemma_index_of(m, k);
    lemma_index_of(m, k2);
    let m2 = obj_set(m, k, v);
    match index_of(m, k) {
        Some(i) => {
            if k2 == k {
                lemma_index_of_at(m2, k2, i);
            } else {
                match index_of(m, k2) {
                    Some(j) => {
                        assert forall|x: int| 0 <= x < j implies (#[trigger] m2[x]).0 != k2 by {
                            if x != i {
                                assert(m2[x] == m[x]);
                            }
                        }
                        lemma_index_of_at(m2, k2, j);
                    },
                    None => {
                        assert forall|x: int| 0 <= x < m2.len() implies (#[trigger] m2[x]).0 != k2 by {
                            if x != i {
                                assert(m2[x] == m[x]);
                            }
                        }
                        lemma_index_of_none(m2, k2);
                    },
                }
            }
        },
        None => {
            let p = insert_pos(m, k);
            lemma_insert_pos_bounds(m, k);
            m.insert_ensures(p, (k, v));
            if k2 == k {
                assert forall|x: int| 0 <= x < p implies (#[trigger] m2[x]).0 != k2 by {
                    assert(m2[x] == m[x]);
                }
                lemma_index_of_at(m2, k2, p);
            } else {
                match index_of(m, k2) {
                    Some(j) => {
                        if j < p {
                            assert forall|x: int| 0 <= x < j implies (#[trigger] m2[x]).0 != k2 by {
                                assert(m2[x] == m[x]);
                            }
                            assert(m2[j] == m[j]);
                            lemma_index_of_at(m2, k2, j);
                        } else {
                            assert forall|x: int| 0 <= x < j + 1 implies (#[trigger] m2[x]).0 != k2 by {
                                if x < p {
                                    assert(m2[x] == m[x]);
                                } else if x > p {
                                    assert(m2[(x - 1) + 1] == m[x - 1]);
                                }
                            }
                            assert(m2[j + 1] == m[j]);
                            lemma_index_of_at(m2, k2, j + 1);
                        }
                    },
                    None => {
                        assert forall|x: int| 0 <= x < m2.len() implies (#[trigger] m2[x]).0 != k2 by {
                            if x < p {
                                assert(m2[x] == m[x]);
                            } else if x > p {
                                assert(m2[(x - 1) + 1] == m[x - 1]);
                            }
                        }
                        lemma_index_of_none(m2, k2);
                    },
                }
            }
        },
    }
}

pub proof fn lemma_obj_remove(m: Seq<(Seq<char>, JsonView)>, k: Seq<char>)
    ensures
        forall|j: int| 0 <= j < obj_remove(m, k).len() ==> (#[trigger] obj_remove(m, k)[j]).0 != k,
    decreases m.len(),
{
    if m.len() > 0 {
        lemma_obj_remove(m.drop_last(), k);
        let r = obj_remove(m.drop_last(), k);
        if m.last().0 != k {
            assert forall|j: int| 0 <= j < r.push(m.last()).len() implies (#[trigger] r.push(
                m.last(),
            )[j]).0 != k by {
                if j < r.len() {
                    assert(r.push(m.last())[j] == r[j]);
                }
            }
        }
    }
}

/// Removing a member makes its name absent.
pub proof fn lemma_lookup_obj_remove(m: Seq<(Seq<char>, JsonView)>, k: Seq<char>)
    ensures
        lookup(obj_remove(m, k), k) is None,
{
    lemma_obj_remove(m, k);
    lemma_index_of_none(obj_remove(m, k), k);
}

// ---------------------------------------------------------------------
// Dotted keys.
// ---------------------------------------------------------------------
/// The value at a path of member names.
pub open spec fn get_path(v: JsonView, p: Seq<Seq<char>>) -> Option<JsonView>
    decreases p.len(),
{
    if p.len() == 0 {
        Some(v)
    } else {
        match v {
            JsonView::Object(m) => match lookup(m, p[0]) {
                Some(c) => get_path(c, p.drop_first()),
                None => None,
            },
            _ => None,
        }
    }
}

/// The names of a dotted key: `a.b.c` is `a`, `b`, `c`.
pub open spec fn key_path(dotted: Seq<char>) -> Seq<Seq<char>> {
    split_on(dotted, '.')
}

/// `v` with the value at path `p` set to `new`: missing members are
/// created, and a member on the way that is not an object is replaced by
/// an object.
pub open spec fn set_path(v: JsonView, p: Seq<Seq<char>>, new: JsonView) -> JsonView
    decreases p.len(),
{
    let m = members_of(v);
    if p.len() == 0 {
        new
    } else if p.len() == 1 {
        JsonView::Object(obj_set(m, p[0], new))
    } else {
        let child = match lookup(m, p[0]) {
            Some(c) => c,
            None => JsonView::Object(Seq::<(Seq<char>, JsonView)>::empty()),
        };
        JsonView::Object(obj_set(m, p[0], set_path(child, p.drop_first(), new)))
    }
}

/// `v` made an object, with an object at each step of path `p`: missing
/// members are created as empty objects and a member on the way that is
/// not an object is replaced by an empty one; objects keep their members.
pub open spec fn touch_path(v: JsonView, p: Seq<Seq<char>>) -> JsonView
    decreases p.len(),
{
    let m = members_of(v);
    if p.len() == 0 {
        JsonView::Object(m)
    } else {
        let child = match lookup(m, p[0]) {
            Some(c) => c,
            None => JsonView::Object(Seq::<(Seq<char>, JsonView)>::empty()),
        };
        JsonView::Object(obj_set(m, p[0], touch_path(child, p.drop_first())))
    }
}

/// `v` without the value at path `p`; nothing changes when the path does
/// not lead through objects.
pub open spec fn remove_path(v: JsonView, p: Seq<Seq<char>>) -> JsonView
    decreases p.len(),
{
    match v {
        JsonView::Object(m) => if p.len() == 0 {
            v
        } else if p.len() == 1 {
            JsonView::Object(obj_remove(m, p[0]))
        } else {
            match index_of(m, p[0]) {
                Some(i) => match m[i].1 {
                    JsonView::Object(_) => JsonView::Object(
                        m.update(i, (p[0], remove_path(m[i].1, p.drop_first()))),
                    ),
                    _ => v,
                },
                None => v,
            }
        },
        _ => v,
    }
}

/// After the value at a path is removed, reading that path finds nothing.
pub proof fn lemma_get_after_remove(v: JsonView, p: Seq<Seq<char>>)
    requires
        p.len() >= 1,
    ensures
        get_path(remove_path(v, p), p) is None,
    decreases p.len(),
{
    match v {
        JsonView::Object(m) => {
            if p.len() == 1 {
                lemma_lookup_obj_remove(m, p[0]);
            } else {
                match index_of(m, p[0]) {
                    Some(i) => {
                        lemma_index_of(m, p[0]);
                        match m[i].1 {
                            JsonView::Object(_) => {
                                let x = remove_path(m[i].1, p.drop_first());
                                lemma_get_after_remove(m[i].1, p.drop_first());
                                assert(m.update(i, (p[0], x)) == obj_set(m, p[0], x));
                                lemma_lookup_obj_set(m, p[0], x, p[0]);
                            },
                            _ => {},
                        }
                    },
                    None => {},
                }
            }
        },
        _ => {},
    }
}

/// Whether the member at index `i` is the first with its name.
pub open spec fn first_of_name(m: Seq<(Seq<char>, JsonView)>, i: int) -> bool {
    forall|j: int| 0 <= j < i ==> (#[trigger] m[j]).0 != m[i].0
}

/// `overlay` merged over `base`: objects merge member by member, anything
/// else in `overlay` replaces what `base` holds.
pub open spec fn merge_spec(base: JsonView, overlay: JsonView) -> JsonView
    decreases overlay,
{
    match (base, overlay) {
        (JsonView::Object(b), JsonView::Object(o)) => JsonView::Object(merge_members(b, o)),
        _ => overlay,
    }
}

/// The members of `o` merged, in order, into `acc`; a repeated name in `o`
/// after the first is passed over.
pub open spec fn merge_members(acc: Seq<(Seq<char>, JsonView)>, o: Seq<(Seq<char>, JsonView)>) -> Seq<
    (Seq<char>, JsonView),
>
    decreases o,
{
    if o.len() == 0 {
        acc
    } else {
        let a = merge_members(acc, o.drop_last());
        let (k, ov) = o.last();
        if index_of(o.drop_last(), k) is Some {
            a
        } else {
            let bv = match lookup(a, k) {
                Some(x) => x,
                None => JsonView::Null,
            };
            obj_set(a, k, merge_spec(bv, ov))
        }
    }
}

// ---------------------------------------------------------------------
// Code.
// ---------------------------------------------------------------------
/// Index of the first member named `k`.
pub fn find_member(m: &Vec<(String, JsonValue)>, k: &str) -> (r: Option<usize>)
    ensures
        match r {
            Some(i) => i < m@.len() && index_of(members_view(m@), k@) == Some(i as int),
            None => index_of(members_view(m@), k@) is None,
        },
{
    proof {
        lemma_members_view(m@);
    }
    let ghost mv = members_view(m@);
    let mut i: usize = 0;
    while i < m.len()
        invariant
            i <= m@.len(),
            mv == members_view(m@),
            mv.len() == m@.len(),
            forall|j: int|
                0 <= j < m@.len() ==> #[trigger] mv[j] == (m@[j].0@, m@[j].1.view()),
            forall|j: int| 0 <= j < i ==> (#[trigger] mv[j]).0 != k@,
        decreases m@.len() - i,
    {
        assert(mv[i as int] == (m@[i as int].0@, m@[i as int].1.view()));
        if str_eq(m[i].0.as_str(), k) {
            proof {
                lemma_index_of_at(mv, k@, i as int);
            }
            return Some(i);
        }
        i = i + 1;
    }
    proof {
        lemma_index_of_none(mv, k@);
    }
    None
}

/// The pieces of a string between separators (`str::split`).
pub fn split_str(s: &str, sep: char) -> (r: Vec<String>)
    ensures
        crate::provider::views(r@) == split_on(s@, sep),
{
    let v = chars_of(s);
    let n = v.len();
    let mut out: Vec<String> = Vec::new();
    let mut start: usize = 0;
    let mut i: usize = 0;
    assert(v@.take(0) =~= Seq::<char>::empty());
    assert(split_on(v@.take(0), sep) =~= crate::provider::views(out@).push(v@.subrange(0, 0)));
    while i < n
        invariant
            n == v@.len(),
            v@ == s@,
            start <= i <= n,
            split_on(v@.take(i as int), sep) == crate::provider::views(out@).push(
                v@.subrange(start as int, i as int),
            ),
        decreases n - i,
    {
        assert(v@.take(i + 1).drop_last() =~= v@.take(i as int));
        if v[i] == sep {
            let piece = string_of_range(v.as_slice(), start, i);
            proof {
                crate::provider::lemma_views_push(out@, piece);
            }
            out.push(piece);
            start = i + 1;
        }
        i = i + 1;
        assert(v@.subrange(start as int, i as int) =~= if start == i {
            Seq::<char>::empty()
        } else {
            v@.subrange(start as int, i - 1).push(v@[i - 1])
        });
        assert(split_on(v@.take(i as int), sep) =~= crate::provider::views(out@).push(
            v@.subrange(start as int, i as int),
        ));
    }
    assert(v@.take(n as int) =~= v@);
    let last = string_of_range(v.as_slice(), start, n);
    proof {
        crate::provider::lemma_views_push(out@, last);
    }
    out.push(last);
    out
}


pub proof fn lemma_members_view_update(m: Seq<(String, JsonValue)>, j: int, x: (String, JsonValue))
    requires
        0 <= j < m.len(),
    ensures
        members_view(m.update(j, x)) == members_view(m).update(j, (x.0@, x.1.view())),
{
    lemma_members_view(m);
    let m2 = m.update(j, x);
    let t = members_view(m).update(j, (x.0@, x.1.view()));
    assert forall|i: int| 0 <= i < m2.len() implies (m2[i].0@, m2[i].1.view()) == #[trigger] t[i] by {
        if i != j {
            assert(m2[i] == m[i]);
        }
    }
    lemma_members_view_ext(m2, t);
}

pub proof fn lemma_members_view_push(m: Seq<(String, JsonValue)>, x: (String, JsonValue))
    ensures
        members_view(m.push(x)) == members_view(m).push((x.0@, x.1.view())),
{
    assert(m.push(x).drop_last() =~= m);
}

/// Whether name `a` sorts before name `b`.
pub fn key_less(a: &str, b: &str) -> (r: bool)
    ensures
        r == key_lt(a@, b@),
{
    let va = chars_of(a);
    let vb = chars_of(b);
    let mut i: usize = 0;
    assert(va@.skip(0) =~= va@);
    assert(vb@.skip(0) =~= vb@);
    while i < va.len() && i < vb.len() && va[i] == vb[i]
        invariant
            i <= va@.len(),
            i <= vb@.len(),
            va@ == a@,
            vb@ == b@,
            key_lt(a@, b@) == key_lt(va@.skip(i as int), vb@.skip(i as int)),
        decreases va@.len() - i,
    {
        assert(va@.skip(i as int).drop_first() =~= va@.skip(i + 1));
        assert(vb@.skip(i as int).drop_first() =~= vb@.skip(i + 1));
        i = i + 1;
    }
    if i == va.len() {
        i < vb.len()
    } else if i == vb.len() {
        false
    } else {
        assert(va@.skip(i as int)[0] == va@[i as int]);
        assert(vb@.skip(i as int)[0] == vb@[i as int]);
        (va[i] as u32) < (vb[i] as u32)
    }
}

pub proof fn lemma_members_view_insert(m: Seq<(String, JsonValue)>, j: int, x: (String, JsonValue))
    requires
        0 <= j <= m.len(),
    ensures
        members_view(m.insert(j, x)) == members_view(m).insert(j, (x.0@, x.1.view())),
{
    lemma_members_view(m);
    let m2 = m.insert(j, x);
    m.insert_ensures(j, x);
    let t = members_view(m).insert(j, (x.0@, x.1.view()));
    members_view(m).insert_ensures(j, (x.0@, x.1.view()));
    assert forall|i: int| 0 <= i < m2.len() implies (m2[i].0@, m2[i].1.view()) == #[trigger] t[i] by {
        if i < j {
            assert(m2[i] == m[i]);
        } else if i > j {
            assert(m2[(i - 1) + 1] == m[i - 1]);
            assert(t[(i - 1) + 1] == members_view(m)[i - 1]);
        }
    }
    lemma_members_view_ext(m2, t);
}

/// The members with a new member `k` added in name order.
fn insert_member(m: Vec<(String, JsonValue)>, k: String, val: JsonValue) -> (r: Vec<
    (String, JsonValue),
>)
    requires
        index_of(members_view(m@), k@) is None,
    ensures
        members_view(r@) == obj_set(members_view(m@), k@, val@),
{
    proof {
        lemma_members_view(m@);
    }
    let ghost mv = members_view(m@);
    let mut m = m;
    let mut i: usize = 0;
    while i < m.len() && !key_less(k.as_str(), m[i].0.as_str())
        invariant
            i <= m@.len(),
            mv == members_view(m@),
            mv.len() == m@.len(),
            forall|j: int|
                0 <= j < m@.len() ==> #[trigger] mv[j] == (m@[j].0@, m@[j].1.view()),
            forall|j: int| 0 <= j < i ==> !key_lt(k@, (#[trigger] mv[j]).0),
        decreases m@.len() - i,
    {
        assert(mv[i as int] == (m@[i as int].0@, m@[i as int].1.view()));
        i = i + 1;
    }
    proof {
        if i < m@.len() {
            assert(mv[i as int] == (m@[i as int].0@, m@[i as int].1.view()));
        }
        lemma_insert_pos_at(mv, k@, i as int);
        lemma_members_view_insert(m@, i as int, (k, val));
    }
    m.insert(i, (k, val));
    m
}

/// The members with `k` set to `val`, where `pos` is the index of the
/// first member named `k`.
fn member_set(m: Vec<(String, JsonValue)>, pos: Option<usize>, k: String, val: JsonValue) -> (r: Vec<
    (String, JsonValue),
>)
    requires
        match pos {
            Some(j) => j < m@.len() && index_of(members_view(m@), k@) == Some(j as int),
            None => index_of(members_view(m@), k@) is None,
        },
    ensures
        members_view(r@) == obj_set(members_view(m@), k@, val@),
{
    let mut m = m;
    match pos {
        Some(j) => {
            proof {
                lemma_members_view_update(m@, j as int, (k, val));
            }
            m.set(j, (k, val));
        },
        None => {
            m = insert_member(m, k, val);
        },
    }
    m
}

/// `v` with the value at `parts[i..]` set to `new`.
fn set_at(v: JsonValue, parts: &Vec<String>, i: usize, new: JsonValue) -> (r: JsonValue)
    requires
        i < parts@.len(),
    ensures
        r@ == set_path(v@, crate::provider::views(parts@).skip(i as int), new@),
    decreases parts@.len() - i,
{
    let ghost p = crate::provider::views(parts@).skip(i as int);
    let ghost vm = members_of(v@);
    let mut m = match v {
        JsonValue::Object(m) => m,
        _ => Vec::new(),
    };
    assert(members_view(m@) == vm);
    assert(p[0] == parts@[i as int]@);
    let pos = find_member(&m, parts[i].as_str());
    if i == parts.len() - 1 {
        let r = member_set(m, pos, parts[i].clone(), new);
        return JsonValue::Object(r);
    }
    assert(p.drop_first() =~= crate::provider::views(parts@).skip(i + 1));
    proof {
        lemma_members_view(m@);
    }
    match pos {
        Some(j) => {
            let ghost m0 = m@;
            let (kk, c) = m.remove(j);
            assert(c@ == members_view(m0)[j as int].1);
            let nc = set_at(c, parts, i + 1, new);
            m.insert(j, (kk, JsonValue::Null));
            assert(m@ =~= m0.update(j as int, (kk, JsonValue::Null)));
            proof {
                lemma_members_view_update(m0, j as int, (kk, JsonValue::Null));
                lemma_members_view(m@);
                lemma_members_view(m0);
                lemma_index_of(members_view(m0), parts@[i as int]@);
                let mv = members_view(m@);
                assert(mv[j as int].0 == kk@);
                assert(kk == m0[j as int].0);
                assert forall|x: int| 0 <= x < j implies (#[trigger] mv[x]).0 != parts@[i as int]@ by {
                    assert(mv[x] == members_view(m0)[x]);
                    lemma_index_of(members_view(m0), parts@[i as int]@);
                }
                lemma_index_of_at(mv, parts@[i as int]@, j as int);
                assert(obj_set(mv, p[0], nc@) =~= obj_set(members_view(m0), p[0], nc@));
            }
            let r = member_set(m, Some(j), parts[i].clone(), nc);
            JsonValue::Object(r)
        },
        None => {
            let empty = JsonValue::Object(Vec::new());
            assert(empty@ =~= JsonView::Object(Seq::<(Seq<char>, JsonView)>::empty()));
            let nc = set_at(empty, parts, i + 1, new);
            let r = member_set(m, None, parts[i].clone(), nc);
            JsonValue::Object(r)
        },
    }
}

/// `v` with the value at dotted path `parts` set to `new`.
pub fn set_path_exec(v: JsonValue, parts: &Vec<String>, new: JsonValue) -> (r: JsonValue)
    requires
        parts@.len() > 0,
    ensures
        r@ == set_path(v@, crate::provider::views(parts@), new@),
{
    assert(crate::provider::views(parts@).skip(0) =~= crate::provider::views(parts@));
    set_at(v, parts, 0, new)
}

/// `v` with objects along `parts[i..]`.
fn touch_at(v: JsonValue, parts: &Vec<String>, i: usize) -> (r: JsonValue)
    requires
        i <= parts@.len(),
    ensures
        r@ == touch_path(v@, crate::provider::views(parts@).skip(i as int)),
    decreases parts@.len() - i,
{
    let ghost p = crate::provider::views(parts@).skip(i as int);
    let ghost vm = members_of(v@);
    let mut m = match v {
        JsonValue::Object(m) => m,
        _ => Vec::new(),
    };
    assert(members_view(m@) == vm);
    if i == parts.len() {
        assert(p.len() == 0);
        return JsonValue::Object(m);
    }
    assert(p[0] == parts@[i as int]@);
    assert(p.drop_first() =~= crate::provider::views(parts@).skip(i + 1));
    let pos = find_member(&m, parts[i].as_str());
    proof {
        lemma_members_view(m@);
    }
    match pos {
        Some(j) => {
            let ghost m0 = m@;
            let (kk, c) = m.remove(j);
            assert(c@ == members_view(m0)[j as int].1);
            let nc = touch_at(c, parts, i + 1);
            m.insert(j, (kk, JsonValue::Null));
            assert(m@ =~= m0.update(j as int, (kk, JsonValue::Null)));
            proof {
                lemma_members_view_update(m0, j as int, (kk, JsonValue::Null));
                lemma_members_view(m@);
                lemma_members_view(m0);
                lemma_index_of(members_view(m0), parts@[i as int]@);
                let mv = members_view(m@);
                assert(mv[j as int].0 == kk@);
                assert(kk == m0[j as int].0);
                assert forall|x: int| 0 <= x < j implies (#[trigger] mv[x]).0 != parts@[i as int]@ by {
                    assert(mv[x] == members_view(m0)[x]);
                }
                lemma_index_of_at(mv, parts@[i as int]@, j as int);
                assert(obj_set(mv, p[0], nc@) =~= obj_set(members_view(m0), p[0], nc@));
            }
            let r = member_set(m, Some(j), parts[i].clone(), nc);
            JsonValue::Object(r)
        },
        None => {
            let empty = JsonValue::Object(Vec::new());
            assert(empty@ =~= JsonView::Object(Seq::<(Seq<char>, JsonView)>::empty()));
            let nc = touch_at(empty, parts, i + 1);
            let r = member_set(m, None, parts[i].clone(), nc);
            JsonValue::Object(r)
        },
    }
}

/// `v` with objects along the first `n` names of `parts`.
pub fn touch_path_exec(v: JsonValue, parts: &Vec<String>, n: usize) -> (r: JsonValue)
    requires
        n <= parts@.len(),
    ensures
        r@ == touch_path(v@, crate::provider::views(parts@).take(n as int)),
{
    let mut prefix: Vec<String> = Vec::new();
    let mut j: usize = 0;
    while j < n
        invariant
            j <= n <= parts@.len(),
            crate::provider::views(prefix@) == crate::provider::views(parts@).take(j as int),
        decreases n - j,
    {
        let x = parts[j].clone();
        proof {
            crate::provider::lemma_views_push(prefix@, x);
            assert(crate::provider::views(parts@).take(j + 1) =~= crate::provider::views(parts@).take(
                j as int,
            ).push(parts@[j as int]@));
        }
        prefix.push(x);
        j = j + 1;
    }
    assert(crate::provider::views(prefix@).skip(0) =~= crate::provider::views(prefix@));
    touch_at(v, &prefix, 0)
}

/// The members without any member named `k`.
fn remove_members(m: Vec<(String, JsonValue)>, k: &str) -> (r: Vec<(String, JsonValue)>)
    ensures
        members_view(r@) == obj_remove(members_view(m@), k@),
{
    let ghost m0 = m@;
    let mut m = m;
    let mut kept: Vec<(String, JsonValue)> = Vec::new();
    let mut i: usize = 0;
    let n = m.len();
    let mut rev: Vec<(String, JsonValue)> = Vec::new();
    // take the members out from the back, then put back those kept
    while m.len() > 0
        invariant
            m@ == m0.take(m@.len() as int),
            m@.len() <= m0.len(),
            obj_remove(members_view(m0), k@) == obj_remove(members_view(m@), k@) + members_view(
                rev@,
            ),
        decreases m@.len(),
    {
        let ghost before = m@;
        let x = m.pop().unwrap();
        assert(before.drop_last() =~= m@);
        assert(x == before.last());
        proof {
            assert(members_view(before).drop_last() == members_view(m@));
            assert(members_view(before).last() == (x.0@, x.1.view()));
        }
        if !str_eq(x.0.as_str(), k) {
            let ghost rv = rev@;
            rev.insert(0, x);
            proof {
                assert(rev@ =~= seq![x] + rv);
                lemma_members_view(rev@);
                lemma_members_view(rv);
                assert(members_view(rev@) =~= seq![(x.0@, x.1.view())] + members_view(rv));
                assert(obj_remove(members_view(before), k@) == obj_remove(members_view(m@), k@).push(
                    (x.0@, x.1.view()),
                ));
            }
        } else {
            assert(obj_remove(members_view(before), k@) == obj_remove(members_view(m@), k@));
        }
        assert(m@ =~= m0.take(m@.len() as int));
    }
    assert(obj_remove(members_view(m@), k@) == Seq::<(Seq<char>, JsonView)>::empty());
    assert(obj_remove(members_view(m0), k@) =~= members_view(rev@));
    rev
}

/// `v` without the value at `parts[i..]`.
fn remove_at(v: JsonValue, parts: &Vec<String>, i: usize) -> (r: JsonValue)
    requires
        i < parts@.len(),
    ensures
        r@ == remove_path(v@, crate::provider::views(parts@).skip(i as int)),
    decreases parts@.len() - i,
{
    let ghost p = crate::provider::views(parts@).skip(i as int);
    assert(p[0] == parts@[i as int]@);
    match v {
        JsonValue::Object(m) => {
            if i == parts.len() - 1 {
                let r = remove_members(m, parts[i].as_str());
                return JsonValue::Object(r);
            }
            assert(p.drop_first() =~= crate::provider::views(parts@).skip(i + 1));
            let mut m = m;
            proof {
                lemma_members_view(m@);
            }
            match find_member(&m, parts[i].as_str()) {
                Some(j) => {
                    let ghost m0 = m@;
                    let (kk, c) = m.remove(j);
                    assert(c@ == members_view(m0)[j as int].1);
                    proof {
                        lemma_index_of(members_view(m0), p[0]);
                    }
                    let nc = match c {
                        JsonValue::Object(cm) => remove_at(JsonValue::Object(cm), parts, i + 1),
                        other => other,
                    };
                    m.insert(j, (kk, nc));
                    assert(m@ =~= m0.update(j as int, (kk, nc)));
                    proof {
                        lemma_members_view_update(m0, j as int, (kk, nc));
                        match members_view(m0)[j as int].1 {
                            JsonView::Object(_) => {},
                            _ => {
                                assert(members_view(m0).update(j as int, (kk@, nc@)) =~= members_view(m0));
                            },
                        }
                    }
                    JsonValue::Object(m)
                },
                None => JsonValue::Object(m),
            }
        },
        other => other,
    }
}

/// `value` without the value at a dotted key.
pub fn remove_key(value: &mut JsonValue, dotted_key: &str)
    ensures
        final(value)@ == remove_path(old(value)@, key_path(dotted_key@)),
{
    let parts = split_str(dotted_key, '.');
    proof {
        crate::text::lemma_split_on_len(dotted_key@, '.');
    }
    let mut v = JsonValue::Null;
    std::mem::swap(value, &mut v);
    assert(crate::provider::views(parts@).skip(0) =~= crate::provider::views(parts@));
    *value = remove_at(v, &parts, 0);
}


fn contains_string(seen: &Vec<String>, k: &str) -> (r: bool)
    ensures
        r == exists|j: int| 0 <= j < seen@.len() && (#[trigger] seen@[j])@ == k@,
{
    let mut i: usize = 0;
    while i < seen.len()
        invariant
            i <= seen@.len(),
            forall|j: int| 0 <= j < i ==> (#[trigger] seen@[j])@ != k@,
        decreases seen@.len() - i,
    {
        if str_eq(seen[i].as_str(), k) {
            return true;
        }
        i = i + 1;
    }
    false
}

/// `overlay` merged over `base`.
pub fn merge(base: JsonValue, overlay: JsonValue) -> (r: JsonValue)
    ensures
        r@ == merge_spec(base@, overlay@),
    decreases overlay@,
{
    match overlay {
        JsonValue::Object(o) => match base {
            JsonValue::Object(b) => {
                let ghost ov = members_view(o@);
                let ghost bv = members_view(b@);
                proof {
                    lemma_members_view(o@);
                }
                let ghost o0 = o@;
                let mut o = o;
                let mut acc = b;
                let mut seen: Vec<String> = Vec::new();
                let mut i: usize = 0;
                let n = o.len();
                assert(ov.take(0) =~= Seq::<(Seq<char>, JsonView)>::empty());
                while i < n
                    invariant
                        n == o0.len(),
                        i <= n,
                        ov == members_view(o0),
                        ov.len() == o0.len(),
                        forall|j: int| 0 <= j < o0.len() ==> #[trigger] ov[j] == (o0[j].0@, o0[j].1.view()),
                        o@ == o0.skip(i as int),
                        overlay@ == JsonView::Object(ov),
                        seen@.len() == i,
                        forall|j: int| 0 <= j < i ==> (#[trigger] seen@[j])@ == ov[j].0,
                        members_view(acc@) == merge_members(bv, ov.take(i as int)),
                    decreases n - i,
                {
                    let ghost before = o@;
                    let (k, val) = o.remove(0);
                    assert(o@ =~= o0.skip(i + 1));
                    assert((k, val) == o0[i as int]);
                    assert(ov.take(i + 1).drop_last() =~= ov.take(i as int));
                    assert(ov.take(i + 1).last() == ov[i as int]);
                    let dup = contains_string(&seen, k.as_str());
                    proof {
                        if dup {
                            let j = choose|j: int| 0 <= j < seen@.len() && (#[trigger] seen@[j])@ == k@;
                            lemma_index_of(ov.take(i as int), k@);
                            assert(ov.take(i as int)[j].0 == k@);
                        } else {
                            assert forall|j: int| 0 <= j < i implies (#[trigger] ov.take(i as int)[j]).0
                                != k@ by {
                                assert(seen@[j]@ == ov[j].0);
                            }
                            lemma_index_of_none(ov.take(i as int), k@);
                        }
                    }
                    if !dup {
                        let ghost whole = JsonView::Object(ov);
                        assert(whole->Object_0 == ov);
                        assert(decreases_to!(whole => ov));
                        assert(decreases_to!(ov => ov[i as int]));
                        assert(decreases_to!(ov[i as int] => ov[i as int].1));
                        assert(ov[i as int].1 == val@);
                        seen.push(k.clone());
                        let pos = find_member(&acc, k.as_str());
                        proof {
                            lemma_members_view(acc@);
                        }
                        match pos {
                            Some(j) => {
                                let ghost a0 = acc@;
                                let (kk, bvv) = acc.remove(j);
                                assert(bvv@ == members_view(a0)[j as int].1);
                                let nv = merge(bvv, val);
                                acc.insert(j, (kk, nv));
                                assert(acc@ =~= a0.update(j as int, (kk, nv)));
                                proof {
                                    lemma_members_view_update(a0, j as int, (kk, nv));
                                    lemma_index_of(members_view(a0), k@);
                                    assert(kk == a0[j as int].0);
                                }
                            },
                            None => {
                                let nv = merge(JsonValue::Null, val);
                                acc = insert_member(acc, k, nv);
                            },
                        }
                    } else {
                        seen.push(k);
                    }
                    i = i + 1;
                }
                assert(ov.take(n as int) =~= ov);
                JsonValue::Object(acc)
            },
            _ => JsonValue::Object(o),
        },
        other => other,
    }
}

/// `overlay` merged into `base`.
pub fn merge_values(base: &mut JsonValue, overlay: JsonValue)
    ensures
        final(base)@ == merge_spec(old(base)@, overlay@),
{
    let mut b = JsonValue::Null;
    std::mem::swap(base, &mut b);
    *base = merge(b, overlay);
}

/// A member of the merge comes from `overlay` when `overlay` has it,
/// merged over what `base` had under that name; otherwise it is `base`'s.
pub proof fn lemma_merge_members_lookup(
    b: Seq<(Seq<char>, JsonView)>,
    o: Seq<(Seq<char>, JsonView)>,
    k: Seq<char>,
)
    ensures
        lookup(merge_members(b, o), k) == match lookup(o, k) {
            None => lookup(b, k),
            Some(ov) => Some(
                merge_spec(
                    match lookup(b, k) {
                        Some(x) => x,
                        None => JsonView::Null,
                    },
                    ov,
                ),
            ),
        },
    decreases o.len(),
{
    if o.len() > 0 {
        let p = o.drop_last();
        let (k1, ov1) = o.last();
        lemma_merge_members_lookup(b, p, k);
        lemma_merge_members_lookup(b, p, k1);
        lemma_index_of(p, k);
        lemma_index_of(p, k1);
        let a = merge_members(b, p);
        if index_of(p, k1) is Some {
            lemma_index_of(o, k);
            match index_of(p, k) {
                Some(x) => {
                    assert forall|j: int| 0 <= j < x implies (#[trigger] o[j]).0 != k by {
                        assert(o[j] == p[j]);
                    }
                    assert(o[x] == p[x]);
                    lemma_index_of_at(o, k, x);
                },
                None => {
                    let y = index_of(p, k1)->Some_0;
                    assert(p[y].0 == k1);
                    assert forall|j: int| 0 <= j < o.len() implies (#[trigger] o[j]).0 != k by {
                        if j < p.len() {
                            assert(o[j] == p[j]);
                        } else {
                            assert(o[j].0 == k1);
                            assert(p[y].0 != k);
                        }
                    }
                    lemma_index_of_none(o, k);
                },
            }
        } else {
            let bv = match lookup(a, k1) {
                Some(x) => x,
                None => JsonView::Null,
            };
            lemma_lookup_obj_set(a, k1, merge_spec(bv, ov1), k);
            if k == k1 {
                assert forall|j: int| 0 <= j < o.len() - 1 implies (#[trigger] o[j]).0 != k by {
                    assert(o[j] == p[j]);
                }
                lemma_index_of_at(o, k, o.len() - 1);
            } else {
                match index_of(p, k) {
                    Some(x) => {
                        assert forall|j: int| 0 <= j < x implies (#[trigger] o[j]).0 != k by {
                            assert(o[j] == p[j]);
                        }
                        assert(o[x] == p[x]);
                        lemma_index_of_at(o, k, x);
                    },
                    None => {
                        assert forall|j: int| 0 <= j < o.len() implies (#[trigger] o[j]).0 != k by {
                            if j < p.len() {
                                assert(o[j] == p[j]);
                            }
                        }
                        lemma_index_of_none(o, k);
                    },
                }
            }
        }
    }
}

/// Merging one configuration over another: for two objects, a member
/// that the overlay has is the overlay's value merged over the base's;
/// a member only the base has keeps the base's value. Anything other than
/// two objects gives the overlay.
pub proof fn lemma_merge_overlay_priority(base: JsonView, overlay: JsonView, k: Seq<char>)
    ensures
        !(base is Object && overlay is Object) ==> merge_spec(base, overlay) == overlay,
        base is Object && overlay is Object ==> lookup(members_of(merge_spec(base, overlay)), k)
            == match lookup(members_of(overlay), k) {
            None => lookup(members_of(base), k),
            Some(ov) => Some(
                merge_spec(
                    match lookup(members_of(base), k) {
                        Some(x) => x,
                        None => JsonView::Null,
                    },
                    ov,
                ),
            ),
        },
{
    if base is Object && overlay is Object {
        lemma_merge_members_lookup(members_of(base), members_of(overlay), k);
    }
}

/// The value at a dotted key.
pub fn get_key<'a>(value: &'a JsonValue, dotted_key: &str) -> (r: Option<&'a JsonValue>)
    ensures
        match r {
            Some(x) => get_path(value@, key_path(dotted_key@)) == Some(x@),
            None => get_path(value@, key_path(dotted_key@)) is None,
        },
{
    let parts = split_str(dotted_key, '.');
    let ghost p = key_path(dotted_key@);
    let mut current = value;
    let mut i: usize = 0;
    assert(p.skip(0) =~= p);
    while i < parts.len()
        invariant
            i <= parts@.len(),
            crate::provider::views(parts@) == p,
            p == key_path(dotted_key@),
            get_path(value@, p) == get_path(current@, p.skip(i as int)),
        decreases parts@.len() - i,
    {
        let ghost q = p.skip(i as int);
        assert(q[0] == parts@[i as int]@);
        assert(q.drop_first() =~= p.skip(i + 1));
        match current {
            JsonValue::Object(m) => {
                proof {
                    lemma_members_view(m@);
                }
                match find_member(m, parts[i].as_str()) {
                    Some(j) => {
                        assert(current@ == JsonView::Object(members_view(m@)));
                        current = &m[j].1;
                    },
                    None => {
                        return None;
                    },
                }
            },
            _ => {
                return None;
            },
        }
        i = i + 1;
    }
    assert(p.skip(i as int) =~= Seq::<Seq<char>>::empty());
    Some(current)
}


impl JsonValue {
    /// A copy of the value.
    pub fn clone_value(&self) -> (r: JsonValue)
        ensures
            r@ == self@,
        decreases self@,
    {
        match self {
            JsonValue::Null => JsonValue::Null,
            JsonValue::Bool(b) => JsonValue::Bool(*b),
            JsonValue::Number(n) => JsonValue::Number(n.clone()),
            JsonValue::Str(t) => JsonValue::Str(t.clone()),
            JsonValue::Array(items) => {
                proof {
                    lemma_values_view(items@);
                }
                let ghost iv = values_view(items@);
                let mut out: Vec<JsonValue> = Vec::new();
                let mut i: usize = 0;
                while i < items.len()
                    invariant
                        i <= items@.len(),
                        iv == values_view(items@),
                        iv.len() == items@.len(),
                        forall|j: int| 0 <= j < items@.len() ==> #[trigger] iv[j] == items@[j]@,
                        self@ == JsonView::Array(iv),
                        out@.len() == i,
                        forall|j: int| 0 <= j < i ==> (#[trigger] out@[j])@ == iv[j],
                    decreases items@.len() - i,
                {
                    let ghost whole = JsonView::Array(iv);
                    assert(whole->Array_0 == iv);
                    assert(decreases_to!(whole => iv));
                    assert(decreases_to!(iv => iv[i as int]));
                    let c = items[i].clone_value();
                    out.push(c);
                    i = i + 1;
                }
                proof {
                    lemma_values_view(out@);
                }
                assert(values_view(out@) =~= iv);
                JsonValue::Array(out)
            },
            JsonValue::Object(m) => {
                proof {
                    lemma_members_view(m@);
                }
                let ghost mv = members_view(m@);
                let mut out: Vec<(String, JsonValue)> = Vec::new();
                let mut i: usize = 0;
                while i < m.len()
                    invariant
                        i <= m@.len(),
                        mv == members_view(m@),
                        mv.len() == m@.len(),
                        forall|j: int| 0 <= j < m@.len() ==> #[trigger] mv[j] == (m@[j].0@, m@[j].1@),
                        self@ == JsonView::Object(mv),
                        out@.len() == i,
                        forall|j: int|
                            0 <= j < i ==> ((#[trigger] out@[j]).0@, out@[j].1@) == mv[j],
                    decreases m@.len() - i,
                {
                    let ghost whole = JsonView::Object(mv);
                    assert(whole->Object_0 == mv);
                    assert(decreases_to!(whole => mv));
                    assert(decreases_to!(mv => mv[i as int]));
                    assert(decreases_to!(mv[i as int] => mv[i as int].1));
                    let c = m[i].1.clone_value();
                    out.push((m[i].0.clone(), c));
                    i = i + 1;
                }
                proof {
                    lemma_members_view_ext(out@, mv);
                }
                JsonValue::Object(out)
            },
        }
    }
}

} // verus!
