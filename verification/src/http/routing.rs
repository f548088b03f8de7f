//! Routes, and the key under which the rate-limit state of a route is
//! pooled.

use crate::text::all_digits;
use crate::text::chars_of;
use crate::text::is_digit;
use crate::text::spells;
use crate::text::string_of;
use crate::text::texts_of;
use vstd::prelude::*;
use vstd::string::StringExecFns;

verus! {

/// The method of an HTTP request: one of the nine that the standard
/// names, or any other, by its name.
#[derive(Debug, Clone, PartialEq, Eq, Hash)]
pub enum Method {
    Options,
    Get,
    Post,
    Put,
    Delete,
    Head,
    Trace,
    Connect,
    Patch,
    /// A method that the standard does not name.
    Extension(String),
}

impl Method {
    /// The name of the method: in capitals for the nine that the
    /// standard names, as it was given for any other.
    pub open spec fn name(self) -> Seq<char> {
        match self {
            Method::Options => "OPTIONS"@,
            Method::Get => "GET"@,
            Method::Post => "POST"@,
            Method::Put => "PUT"@,
            Method::Delete => "DELETE"@,
            Method::Head => "HEAD"@,
            Method::Trace => "TRACE"@,
            Method::Connect => "CONNECT"@,
            Method::Patch => "PATCH"@,
            Method::Extension(name) => name@,
        }
    }

    /// The name of the method: in capitals for the nine that the
    /// standard names, as it was given for any other.
    pub fn as_str(&self) -> (s: &str)
        ensures
            s@ == self.name(),
    {
        match self {
            Method::Options => "OPTIONS",
            Method::Get => "GET",
            Method::Post => "POST",
            Method::Put => "PUT",
            Method::Delete => "DELETE",
            Method::Head => "HEAD",
            Method::Trace => "TRACE",
            Method::Connect => "CONNECT",
            Method::Patch => "PATCH",
            Method::Extension(name) => name.as_str(),
        }
    }
}

// ---------------------------------------------------------------------------
// The key of a route
// ---------------------------------------------------------------------------

/// The pieces of `s` between the separators `sep`, in order. There is one
/// piece more than there are separators.
pub open spec fn split(s: Seq<char>, sep: char) -> Seq<Seq<char>>
    decreases s.len(),
{
    if s.len() == 0 {
        seq![Seq::empty()]
    } else {
        let before = split(s.drop_last(), sep);
        if s.last() == sep {
            before.push(Seq::empty())
        } else {
            before.update(before.len() - 1, before.last().push(s.last()))
        }
    }
}

/// The pieces, with `sep` between each two.
pub open spec fn join(parts: Seq<Seq<char>>, sep: char) -> Seq<char>
    decreases parts.len(),
{
    if parts.len() == 0 {
        Seq::empty()
    } else if parts.len() == 1 {
        parts[0]
    } else {
        join(parts.drop_last(), sep) + seq![sep] + parts.last()
    }
}

/// Whether the identifier after `part` tells buckets apart: the major
/// parameters are those of channels, guilds and webhooks.
pub open spec fn is_major(part: Seq<char>) -> bool {
    part == "channels"@ || part == "guilds"@ || part == "webhooks"@
}

/// What stands in a key for an identifier that does not tell buckets
/// apart.
pub open spec fn placeholder() -> Seq<char> {
    ":id"@
}

/// Where the walk goes after the segment at `i`: past the identifier of a
/// major parameter, else to the next segment.
pub open spec fn next_segment(parts: Seq<Seq<char>>, i: int) -> int {
    if parts[i].len() > 0 && is_major(parts[i]) && i + 1 < parts.len() {
        i + 2
    } else {
        i + 1
    }
}

/// The parts of the key for the segments from `i` on. Empty segments are
/// left out. A major parameter is kept together with the segment after
/// it, whatever that holds. Any other segment made of digits alone gives
/// way to the placeholder.
pub open spec fn key_parts(parts: Seq<Seq<char>>, i: int) -> Seq<Seq<char>>
    decreases parts.len() - i,
{
    if i < 0 || i >= parts.len() {
        Seq::empty()
    } else if parts[i].len() == 0 {
        key_parts(parts, i + 1)
    } else if is_major(parts[i]) {
        if i + 1 < parts.len() {
            seq![parts[i], parts[i + 1]] + key_parts(parts, i + 2)
        } else {
            seq![parts[i]]
        }
    } else if all_digits(parts[i]) {
        seq![placeholder()] + key_parts(parts, i + 1)
    } else {
        seq![parts[i]] + key_parts(parts, i + 1)
    }
}

/// The key of the bucket of a request: the method, a colon, and the parts
/// of the key of the path with slashes between them.
pub open spec fn route_key(method: Method, path: Seq<char>) -> Seq<char> {
    method.name() + seq![':'] + join(key_parts(split(path, '/'), 0), '/')
}

/// Whether the walk from segment `j` comes by segment `i` as a segment of
/// its own, not as the identifier of a major parameter.
pub open spec fn reaches(parts: Seq<Seq<char>>, j: int, i: int) -> bool
    decreases i - j,
{
    if j > i || j < 0 {
        false
    } else if j == i {
        true
    } else if next_segment(parts, j) > i {
        false
    } else {
        reaches(parts, next_segment(parts, j), i)
    }
}

/// Whether the segment at `i` is one whose digits do not tell buckets
/// apart: it is made of digits and is not the identifier of a major
/// parameter.
pub open spec fn is_minor_id(parts: Seq<Seq<char>>, i: int) -> bool {
    0 <= i < parts.len() && parts[i].len() > 0 && all_digits(parts[i]) && reaches(parts, 0, i)
}

proof fn lemma_digits_are_not_major(part: Seq<char>)
    requires
        part.len() > 0,
        all_digits(part),
    ensures
        !is_major(part),
{
    reveal_strlit("channels");
    reveal_strlit("guilds");
    reveal_strlit("webhooks");
    assert(is_digit(part[0]));
}

proof fn lemma_key_parts_agree(a: Seq<Seq<char>>, b: Seq<Seq<char>>, from: int)
    requires
        a.len() == b.len(),
        forall|k: int| from <= k < a.len() ==> a[k] == b[k],
        0 <= from,
    ensures
        key_parts(a, from) == key_parts(b, from),
    decreases a.len() - from,
{
    if from < a.len() {
        lemma_key_parts_agree(a, b, from + 1);
        if from + 1 < a.len() {
            lemma_key_parts_agree(a, b, from + 2);
        }
    }
}

proof fn lemma_key_parts_minor(parts: Seq<Seq<char>>, j: int, i: int, other: Seq<char>)
    requires
        0 <= j <= i < parts.len(),
        reaches(parts, j, i),
        parts[i].len() > 0,
        all_digits(parts[i]),
        other.len() > 0,
        all_digits(other),
    ensures
        key_parts(parts.update(i, other), j) == key_parts(parts, j),
    decreases i - j,
{
    let changed = parts.update(i, other);
    if j == i {
        lemma_digits_are_not_major(parts[i]);
        lemma_digits_are_not_major(other);
        lemma_key_parts_agree(changed, parts, i + 1);
    } else {
        let next = next_segment(parts, j);
        assert(changed[j] == parts[j]);
        assert(reaches(parts, next, i));
        assert(next <= i);
        lemma_key_parts_minor(parts, next, i, other);
        if next == j + 2 {
            assert(changed[j + 1] == parts[j + 1]);
        }
    }
}

/// The key of a route does not depend on the digits of a minor
/// identifier: two paths that differ in one such segment alone, digits
/// for digits, have the same key.
pub proof fn law_route_key_ignores_minor_ids(
    method: Method,
    path: Seq<char>,
    other_path: Seq<char>,
    i: int,
    digits: Seq<char>,
)
    requires
        is_minor_id(split(path, '/'), i),
        digits.len() > 0,
        all_digits(digits),
        split(other_path, '/') == split(path, '/').update(i, digits),
    ensures
        route_key(method, other_path) == route_key(method, path),
{
    lemma_key_parts_minor(split(path, '/'), 0, i, digits);
}

// ---------------------------------------------------------------------------
// Routes
// ---------------------------------------------------------------------------

/// A request as the rate limiter sees it: a method and a path.
#[derive(Debug)]
pub struct Route {
    pub path: String,
    pub method: Method,
}

/// The bounds of the pieces of `v` between slashes.
fn split_segments(v: &Vec<char>) -> (segs: Vec<(usize, usize)>)
    ensures
        segs@.len() == split(v@, '/').len(),
        forall|k: int|
            0 <= k < segs@.len() ==> (#[trigger] segs@[k]).0 <= segs@[k].1 <= v@.len()
                && v@.subrange(segs@[k].0 as int, segs@[k].1 as int) == split(v@, '/')[k],
{
    let mut segs: Vec<(usize, usize)> = Vec::new();
    let mut start: usize = 0;
    let mut i: usize = 0;
    assert(v@.subrange(0, 0) =~= Seq::<char>::empty());
    while i < v.len()
        invariant
            start <= i <= v.len(),
            segs@.len() + 1 == split(v@.subrange(0, i as int), '/').len(),
            forall|k: int|
                0 <= k < segs@.len() ==> (#[trigger] segs@[k]).0 <= segs@[k].1 <= i && v@.subrange(
                    segs@[k].0 as int,
                    segs@[k].1 as int,
                ) == split(v@.subrange(0, i as int), '/')[k],
            v@.subrange(start as int, i as int) == split(v@.subrange(0, i as int), '/').last(),
        decreases v.len() - i,
    {
        let ghost prefix = v@.subrange(0, i as int);
        let ghost longer = v@.subrange(0, i + 1);
        assert(longer.drop_last() =~= prefix);
        assert(longer.last() == v@[i as int]);
        if v[i] == '/' {
            segs.push((start, i));
            start = i + 1;
            assert(v@.subrange(start as int, start as int) =~= Seq::<char>::empty());
        } else {
            assert(v@.subrange(start as int, i + 1) =~= v@.subrange(start as int, i as int).push(
                v@[i as int],
            ));
        }
        i += 1;
    }
    assert(v@.subrange(0, v.len() as int) =~= v@);
    segs.push((start, i));
    segs
}

fn is_major_segment(v: &Vec<char>, a: usize, b: usize) -> (r: bool)
    requires
        a <= b <= v.len(),
    ensures
        r == is_major(v@.subrange(a as int, b as int)),
{
    spells(v, a, b, "channels") || spells(v, a, b, "guilds") || spells(v, a, b, "webhooks")
}

fn is_digits_segment(v: &Vec<char>, a: usize, b: usize) -> (r: bool)
    requires
        a <= b <= v.len(),
    ensures
        r == all_digits(v@.subrange(a as int, b as int)),
{
    let mut i = a;
    while i < b
        invariant
            a <= i <= b <= v.len(),
            forall|k: int| a <= k < i ==> is_digit(v@[k]),
        decreases b - i,
    {
        let u = v[i] as u32;
        if u < 48 || u > 57 {
            assert(!is_digit(v@.subrange(a as int, b as int)[i - a]));
            return false;
        }
        i += 1;
    }
    assert forall|k: int| 0 <= k < b - a implies is_digit(
        #[trigger] v@.subrange(a as int, b as int)[k],
    ) by {
        assert(is_digit(v@[a + k]));
    }
    true
}

/// The parts of the key of a path whose segments have the bounds `segs`.
fn key_parts_of(v: &Vec<char>, segs: &Vec<(usize, usize)>) -> (keys: Vec<String>)
    requires
        segs@.len() == split(v@, '/').len(),
        forall|k: int|
            0 <= k < segs@.len() ==> (#[trigger] segs@[k]).0 <= segs@[k].1 <= v@.len()
                && v@.subrange(segs@[k].0 as int, segs@[k].1 as int) == split(v@, '/')[k],
    ensures
        texts_of(keys@) == key_parts(split(v@, '/'), 0),
{
    let ghost parts = split(v@, '/');
    let mut keys: Vec<String> = Vec::new();
    let mut i: usize = 0;
    assert(texts_of(keys@) + key_parts(parts, 0) =~= key_parts(parts, 0));
    while i < segs.len()
        invariant
            i <= segs.len(),
            parts == split(v@, '/'),
            segs@.len() == parts.len(),
            forall|k: int|
                0 <= k < segs@.len() ==> (#[trigger] segs@[k]).0 <= segs@[k].1 <= v@.len()
                    && v@.subrange(segs@[k].0 as int, segs@[k].1 as int) == parts[k],
            key_parts(parts, 0) == texts_of(keys@) + key_parts(parts, i as int),
        decreases segs.len() - i,
    {
        let ghost done = texts_of(keys@);
        let a = segs[i].0;
        let b = segs[i].1;
        assert(v@.subrange(a as int, b as int) == parts[i as int]);
        if a == b {
            i += 1;
        } else if is_major_segment(v, a, b) {
            keys.push(string_of(v, a, b));
            if i + 1 < segs.len() {
                let c = segs[i + 1].0;
                let d = segs[i + 1].1;
                assert(v@.subrange(c as int, d as int) == parts[i + 1]);
                keys.push(string_of(v, c, d));
                assert(texts_of(keys@) =~= done + seq![parts[i as int], parts[i + 1]]);
                assert((done + seq![parts[i as int], parts[i + 1]]) + key_parts(parts, i + 2)
                    =~= done + (seq![parts[i as int], parts[i + 1]] + key_parts(parts, i + 2)));
                i += 2;
            } else {
                assert(texts_of(keys@) =~= done + seq![parts[i as int]]);
                assert(key_parts(parts, i + 1) =~= Seq::<Seq<char>>::empty());
                i += 1;
            }
        } else if is_digits_segment(v, a, b) {
            keys.push(String::from_str(":id"));
            assert(texts_of(keys@) =~= done + seq![placeholder()]);
            assert((done + seq![placeholder()]) + key_parts(parts, i + 1) =~= done + (
            seq![placeholder()] + key_parts(parts, i + 1)));
            i += 1;
        } else {
            keys.push(string_of(v, a, b));
            assert(texts_of(keys@) =~= done + seq![parts[i as int]]);
            assert((done + seq![parts[i as int]]) + key_parts(parts, i + 1) =~= done + (
            seq![parts[i as int]] + key_parts(parts, i + 1)));
            i += 1;
        }
    }
    assert(texts_of(keys@) + Seq::<Seq<char>>::empty() =~= texts_of(keys@));
    keys
}

/// The texts, with `sep` between each two.
pub fn join_texts(parts: &Vec<String>, sep: char) -> (s: String)
    ensures
        s@ == join(texts_of(parts@), sep),
{
    let ghost all = texts_of(parts@);
    let mut s = String::new();
    let mut k: usize = 0;
    assert(all.subrange(0, 0) =~= Seq::<Seq<char>>::empty());
    while k < parts.len()
        invariant
            k <= parts.len(),
            all == texts_of(parts@),
            s@ == join(all.subrange(0, k as int), sep),
        decreases parts.len() - k,
    {
        let ghost before = all.subrange(0, k as int);
        let ghost longer = all.subrange(0, k + 1);
        assert(longer.drop_last() =~= before);
        assert(longer.last() == parts@[k as int]@);
        if k > 0 {
            s.push(sep);
            assert(s@ =~= join(before, sep) + seq![sep]);
        } else {
            assert(s@ =~= Seq::<char>::empty());
            assert(Seq::<char>::empty() + parts@[k as int]@ =~= parts@[k as int]@);
        }
        s.append(parts[k].as_str());
        k += 1;
    }
    assert(all.subrange(0, parts.len() as int) =~= all);
    s
}

impl Route {
    /// The route of a request with the given method and path.
    pub fn new(method: Method, path: &str) -> (r: Self)
        ensures
            r.method == method,
            r.path@ == path@,
    {
        Self { path: String::from_str(path), method }
    }

    /// The key of the bucket of the route: see `route_key`.
    pub fn bucket_key(&self) -> (key: String)
        ensures
            key@ == route_key(self.method, self.path@),
    {
        let v = chars_of(self.path.as_str());
        let segs = split_segments(&v);
        let keys = key_parts_of(&v, &segs);
        let tail = join_texts(&keys, '/');
        let mut key = String::from_str(self.method.as_str());
        key.push(':');
        key.append(tail.as_str());
        assert(key@ =~= route_key(self.method, self.path@));
        key
    }

    /// The path of the route, which is how a route is shown.
    pub fn to_text(&self) -> (s: String)
        ensures
            s@ == self.path@,
    {
        self.path.clone()
    }
}

} // verus!
