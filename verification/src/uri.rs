//! URI patterns: a literal path, or a path with captures such as
//! `/user/{id}`, each of which stands for one segment that is not empty.

use vstd::prelude::*;
use vstd::string::StringSliceAdditionalSpecFns;
use vstd::utf8::encode_utf8;
use crate::request::{pairs_view, strings_view, PairsView};
use crate::text::bytes_eq;

verus! {

/// The most captures that one pattern may hold.
pub const MAX_CAPTURES: usize = 16;

/// The most bytes that a pattern with captures may have. The router makes a
/// regular expression of such a pattern and panics where that grows too
/// large; a literal pattern has no such limit.
pub const MAX_PATTERN_LEN: usize = 4096;

/// The most bytes of a request path that is matched against patterns.
pub const MAX_PATH_LEN: usize = 65535;

/// Whether a capture's name may begin with `b`: an ASCII letter or `_`.
pub open spec fn is_name_start(b: u8) -> bool {
    (65 <= b <= 90) || (97 <= b <= 122) || b == 95
}

/// Whether `b` may stand in a capture's name: an ASCII letter, a digit or `_`.
pub open spec fn is_name_byte(b: u8) -> bool {
    is_name_start(b) || (48 <= b <= 57)
}

/// The index of the first byte at or after `j` that cannot stand in a name.
pub open spec fn name_end(p: Seq<u8>, j: int) -> int
    decreases p.len() - j,
{
    if 0 <= j < p.len() && is_name_byte(p[j]) {
        name_end(p, j + 1)
    } else {
        j
    }
}

/// The names of the captures of the pattern from index `i` on, in order;
/// `None` where a `{` is not followed by a name and a `}`.
pub open spec fn capture_names(p: Seq<u8>, i: int) -> Option<Seq<Seq<u8>>>
    decreases p.len() - i,
{
    if i < 0 || i >= p.len() {
        Some(Seq::empty())
    } else if p[i] != 123u8 {
        capture_names(p, i + 1)
    } else {
        let end = name_end(p, i + 1);
        if end > i + 1 && end < p.len() && p[end] == 125u8 && is_name_start(p[i + 1]) {
            match capture_names(p, end + 1) {
                Some(rest) => Some(seq![p.subrange(i + 1, end)] + rest),
                None => None,
            }
        } else {
            None
        }
    }
}

/// Whether no name stands twice in the list.
pub open spec fn all_distinct(names: Seq<Seq<u8>>) -> bool {
    forall|i: int, j: int| 0 <= i < j < names.len() ==> names[i] != names[j]
}

/// Whether the pattern is one that this library matches: it does not end in
/// `*`, every `{` opens a capture with a name and a closing `}`, and where
/// there are captures they are at most [`MAX_CAPTURES`], their names differ,
/// and the pattern has at most [`MAX_PATTERN_LEN`] bytes.
pub open spec fn pattern_supported(p: Seq<u8>) -> bool {
    &&& p.len() == 0 || p.last() != 42u8
    &&& capture_names(p, 0) matches Some(names) && (names.len() == 0 || (names.len()
        <= MAX_CAPTURES && p.len() <= MAX_PATTERN_LEN && all_distinct(names)))
}

fn name_start(b: u8) -> (r: bool)
    ensures
        r == is_name_start(b),
{
    (65 <= b && b <= 90) || (97 <= b && b <= 122) || b == 95
}

fn name_byte(b: u8) -> (r: bool)
    ensures
        r == is_name_byte(b),
{
    name_start(b) || (48 <= b && b <= 57)
}

/// The names that the ranges cut out of the pattern.
pub open spec fn ranges_view(p: Seq<u8>, ranges: Seq<(usize, usize)>) -> Seq<Seq<u8>> {
    ranges.map_values(|r: (usize, usize)| p.subrange(r.0 as int, r.1 as int))
}

/// `names` before what the rest of the pattern gives.
pub open spec fn prepend(names: Seq<Seq<u8>>, rest: Option<Seq<Seq<u8>>>) -> Option<Seq<Seq<u8>>> {
    match rest {
        Some(r) => Some(names + r),
        None => None,
    }
}

fn scan_names(p: &[u8]) -> (r: Option<Vec<(usize, usize)>>)
    ensures
        match r {
            Some(ranges) => capture_names(p@, 0) == Some(ranges_view(p@, ranges@)) && forall|
                k: int,
            |
                0 <= k < ranges@.len() ==> (#[trigger] ranges@[k]).0 <= ranges@[k].1 <= p@.len(),
            None => capture_names(p@, 0) is None,
        },
{
    let mut ranges: Vec<(usize, usize)> = Vec::new();
    let mut i: usize = 0;
    assert(ranges_view(p@, ranges@) + Seq::<Seq<u8>>::empty() =~= Seq::<Seq<u8>>::empty());
    assert(prepend(ranges_view(p@, ranges@), capture_names(p@, 0)) =~= capture_names(p@, 0)) by {
        if capture_names(p@, 0) is Some {
            assert(ranges_view(p@, ranges@) + capture_names(p@, 0)->0 =~= capture_names(p@, 0)->0);
        }
    }
    while i < p.len()
        invariant
            i <= p.len(),
            capture_names(p@, 0) == prepend(ranges_view(p@, ranges@), capture_names(p@, i as int)),
            forall|k: int|
                0 <= k < ranges@.len() ==> (#[trigger] ranges@[k]).0 <= ranges@[k].1 <= p@.len(),
        decreases p.len() - i,
    {
        if p[i] != 123u8 {
            i += 1;
        } else {
            let start: usize = i + 1;
            let mut j: usize = start;
            while j < p.len() && name_byte(p[j])
                invariant
                    start <= j <= p.len(),
                    name_end(p@, start as int) == name_end(p@, j as int),
                decreases p.len() - j,
            {
                j += 1;
            }
            if j > start && j < p.len() && p[j] == 125u8 && name_start(p[start]) {
                let ghost before = ranges_view(p@, ranges@);
                ranges.push((start, j));
                proof {
                    let name = p@.subrange(start as int, j as int);
                    assert(ranges_view(p@, ranges@) =~= before.push(name));
                    let rest = capture_names(p@, j + 1);
                    if rest is Some {
                        assert(before + (seq![name] + rest->0) =~= before.push(name) + rest->0);
                    }
                }
                i = j + 1;
            } else {
                return None;
            }
        }
    }
    proof {
        assert(ranges_view(p@, ranges@) + Seq::<Seq<u8>>::empty() =~= ranges_view(p@, ranges@));
    }
    Some(ranges)
}

fn names_distinct(p: &[u8], ranges: &Vec<(usize, usize)>) -> (r: bool)
    requires
        forall|k: int|
            0 <= k < ranges@.len() ==> (#[trigger] ranges@[k]).0 <= ranges@[k].1 <= p@.len(),
    ensures
        r == all_distinct(ranges_view(p@, ranges@)),
{
    let ghost names = ranges_view(p@, ranges@);
    let mut b: usize = 0;
    while b < ranges.len()
        invariant
            b <= ranges.len(),
            names == ranges_view(p@, ranges@),
            forall|k: int|
                0 <= k < ranges@.len() ==> (#[trigger] ranges@[k]).0 <= ranges@[k].1 <= p@.len(),
            forall|i: int, j: int| 0 <= i < j < b ==> names[i] != names[j],
        decreases ranges.len() - b,
    {
        let mut a: usize = 0;
        while a < b
            invariant
                a <= b < ranges.len(),
                names == ranges_view(p@, ranges@),
                forall|k: int|
                    0 <= k < ranges@.len() ==> (#[trigger] ranges@[k]).0 <= ranges@[k].1
                        <= p@.len(),
                forall|i: int| 0 <= i < a ==> names[i] != names[b as int],
            decreases b - a,
        {
            let (s1, e1) = ranges[a];
            let (s2, e2) = ranges[b];
            let x = vstd::slice::slice_subrange(p, s1, e1);
            let y = vstd::slice::slice_subrange(p, s2, e2);
            if bytes_eq(x, y) {
                assert(names[a as int] == names[b as int]);
                return false;
            }
            a += 1;
        }
        b += 1;
    }
    true
}

/// Whether the pattern is one that this library matches.
pub fn is_supported_pattern(pattern: &str) -> (r: bool)
    ensures
        r == pattern_supported(pattern.spec_bytes()),
{
    let p = pattern.as_bytes();
    if p.len() > 0 && p[p.len() - 1] == 42u8 {
        return false;
    }
    match scan_names(p) {
        None => false,
        Some(ranges) => {
            if ranges.len() == 0 {
                return true;
            }
            if ranges.len() > MAX_CAPTURES || p.len() > MAX_PATTERN_LEN {
                return false;
            }
            names_distinct(p, &ranges)
        },
    }
}

/// Whether every pattern of the list is one that this library matches.
pub open spec fn all_supported(uris: Seq<Seq<char>>) -> bool {
    forall|i: int| 0 <= i < uris.len() ==> pattern_supported(encode_utf8(#[trigger] uris[i]))
}

/// Whether every pattern of the list is one that this library matches.
pub fn are_supported_patterns(uris: &Vec<String>) -> (r: bool)
    ensures
        r == all_supported(strings_view(uris@)),
{
    let ghost all = strings_view(uris@);
    let mut i: usize = 0;
    while i < uris.len()
        invariant
            i <= uris.len(),
            all == strings_view(uris@),
            forall|k: int| 0 <= k < i ==> pattern_supported(encode_utf8(#[trigger] all[k])),
        decreases uris.len() - i,
    {
        assert(all[i as int] == uris@[i as int]@);
        if !is_supported_pattern(uris[i].as_str()) {
            return false;
        }
        i += 1;
    }
    true
}

/// A name for what `actix_router` captures when it matches a path against
/// one pattern, name and value of each capture in the pattern's order; `None`
/// where the pattern does not match the whole path.
pub uninterp spec fn pattern_captures(pattern: Seq<char>, path: Seq<char>) -> Option<PairsView>;

/// Whether the pattern is a literal path: it holds no `{`.
pub open spec fn is_literal(p: Seq<u8>) -> bool {
    forall|i: int| 0 <= i < p.len() ==> #[trigger] p[i] != 123u8
}

/// A literal pattern has no captures.
pub proof fn lemma_literal_has_no_captures(p: Seq<u8>, i: int)
    requires
        is_literal(p),
    ensures
        capture_names(p, i) == Some(Seq::<Seq<u8>>::empty()),
    decreases p.len() - i,
{
    if 0 <= i < p.len() {
        lemma_literal_has_no_captures(p, i + 1);
    }
}

/// Builds the pattern with `ResourceDef::new`, matches the path with
/// `ResourceDef::capture_match_info` and hands out what `Path::iter` gives.
/// A literal pattern matches exactly the path that is equal to it, and
/// captures nothing; for the rest the contract only names the result. It
/// asks for a supported pattern, since `ResourceDef::new` panics on a
/// malformed one, and for a path whose offsets fit the 16 bits in which
/// `Path` keeps them.
#[verifier::external_body]
fn capture_path(pattern: &str, path: &str) -> (r: Option<Vec<(String, String)>>)
    requires
        pattern_supported(pattern.spec_bytes()),
        path.spec_bytes().len() <= MAX_PATH_LEN,
    ensures
        r is Some <==> pattern_captures(pattern@, path@) is Some,
        r is Some ==> pairs_view(r->0@) == pattern_captures(pattern@, path@)->0,
        is_literal(pattern.spec_bytes()) ==> (r is Some <==> path@ == pattern@),
        is_literal(pattern.spec_bytes()) && r is Some ==> r->0@.len() == 0,
{
    let resource = actix_router::ResourceDef::new(pattern);
    let mut matched = actix_router::Path::new(path);
    if resource.capture_match_info(&mut matched) {
        Some(matched.iter().map(|(k, v)| (k.to_string(), v.to_string())).collect())
    } else {
        None
    }
}

/// What matching `path` against one pattern gives: the captures, or `None`
/// where the pattern does not match, is not supported, or the path is longer
/// than [`MAX_PATH_LEN`] bytes. A literal pattern matches exactly the path
/// that is equal to it and captures nothing; what a pattern with captures
/// matches and captures is the router's.
pub open spec fn pattern_applies(pattern: Seq<char>, path: Seq<char>) -> Option<PairsView> {
    if pattern_supported(encode_utf8(pattern)) && encode_utf8(path).len() <= MAX_PATH_LEN {
        if is_literal(encode_utf8(pattern)) {
            if path == pattern {
                Some(Seq::empty())
            } else {
                None
            }
        } else {
            pattern_captures(pattern, path)
        }
    } else {
        None
    }
}

/// What matching `path` against the patterns from index `from` on gives: the
/// captures of the first pattern that applies.
pub open spec fn first_match(uris: Seq<Seq<char>>, path: Seq<char>, from: int) -> Option<PairsView>
    decreases uris.len() - from,
{
    if from < 0 || from >= uris.len() {
        None
    } else {
        match pattern_applies(uris[from], path) {
            Some(captures) => Some(captures),
            None => first_match(uris, path, from + 1),
        }
    }
}

/// What matching `path` against a rule's patterns gives.
pub open spec fn uris_match(uris: Seq<Seq<char>>, path: Seq<char>) -> Option<PairsView> {
    first_match(uris, path, 0)
}

/// Matches `path` against one pattern.
pub fn match_pattern(pattern: &str, path: &str) -> (r: Option<Vec<(String, String)>>)
    ensures
        r is Some <==> pattern_applies(pattern@, path@) is Some,
        r is Some ==> pairs_view(r->0@) == pattern_applies(pattern@, path@)->0,
{
    if path.as_bytes().len() > MAX_PATH_LEN || !is_supported_pattern(pattern) {
        return None;
    }
    let r = capture_path(pattern, path);
    proof {
        if is_literal(pattern.spec_bytes()) && r is Some {
            assert(pairs_view(r->0@) =~= Seq::empty());
        }
    }
    r
}

/// Matches `path` against the patterns in order; the first that applies
/// counts.
pub fn match_uris(uris: &Vec<String>, path: &str) -> (r: Option<Vec<(String, String)>>)
    ensures
        r is Some <==> uris_match(strings_view(uris@), path@) is Some,
        r is Some ==> pairs_view(r->0@) == uris_match(strings_view(uris@), path@)->0,
{
    let ghost all = strings_view(uris@);
    let mut i: usize = 0;
    while i < uris.len()
        invariant
            i <= uris.len(),
            all == strings_view(uris@),
            first_match(all, path@, 0) == first_match(all, path@, i as int),
        decreases uris.len() - i,
    {
        assert(all[i as int] == uris@[i as int]@);
        match match_pattern(uris[i].as_str(), path) {
            Some(captures) => {
                return Some(captures);
            },
            None => {},
        }
        i += 1;
    }
    None
}

} // verus!
