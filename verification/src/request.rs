//! The snapshot of one HTTP request that matchers, scripts and templates read.

use vstd::prelude::*;
use vstd::string::StringSliceAdditionalSpecFns;
use crate::text::{eq_ignore_ascii_case, same_ignoring_ascii_case, str_eq};

verus! {

/// A list of name and value pairs as texts.
pub type PairsView = Seq<(Seq<char>, Seq<char>)>;

/// The texts held by a list of string pairs.
pub open spec fn pairs_view(pairs: Seq<(String, String)>) -> PairsView {
    pairs.map_values(|p: (String, String)| (p.0@, p.1@))
}

/// The texts held by a list of strings.
pub open spec fn strings_view(items: Seq<String>) -> Seq<Seq<char>> {
    items.map_values(|s: String| s@)
}

/// The value that a list of pairs gives to `key`: that of the last pair with
/// that name, as in a map filled pair by pair.
pub open spec fn lookup(pairs: PairsView, key: Seq<char>) -> Option<Seq<char>>
    decreases pairs.len(),
{
    if pairs.len() == 0 {
        None
    } else if pairs.last().0 == key {
        Some(pairs.last().1)
    } else {
        lookup(pairs.drop_last(), key)
    }
}

/// The pairs as a map from name to value, in which a later pair replaces an
/// earlier one of the same name.
pub open spec fn pairs_map(pairs: PairsView) -> Map<Seq<char>, Seq<char>>
    decreases pairs.len(),
{
    if pairs.len() == 0 {
        Map::empty()
    } else {
        pairs_map(pairs.drop_last()).insert(pairs.last().0, pairs.last().1)
    }
}

/// Whether two header names are the same: ASCII letters compare without
/// regard to case.
pub open spec fn same_header_name(a: Seq<char>, b: Seq<char>) -> bool {
    same_ignoring_ascii_case(vstd::utf8::encode_utf8(a), vstd::utf8::encode_utf8(b))
}

/// The value of the last header whose name is `key`, letter case aside.
pub open spec fn header_lookup(pairs: PairsView, key: Seq<char>) -> Option<Seq<char>>
    decreases pairs.len(),
{
    if pairs.len() == 0 {
        None
    } else if same_header_name(pairs.last().0, key) {
        Some(pairs.last().1)
    } else {
        header_lookup(pairs.drop_last(), key)
    }
}

/// What a request snapshot holds, as mathematical values.
pub struct RequestView {
    pub method: Seq<char>,
    pub request_path: Seq<char>,
    pub path: Seq<char>,
    pub headers: PairsView,
    pub query_args: PairsView,
    pub path_args: PairsView,
    pub body: Seq<u8>,
}

/// One HTTP request as the rules see it. `request_path` is the path as it
/// came; `path` and `path_args` are set when a rule's URI pattern has matched.
#[derive(Debug)]
pub struct RequestContext {
    pub body: Vec<u8>,
    pub method: String,
    pub request_path: String,
    pub headers: Vec<(String, String)>,
    pub path: String,
    pub query_args: Vec<(String, String)>,
    pub path_args: Vec<(String, String)>,
}

/// A copy of the pairs, with the same texts in the same order.
pub fn clone_pairs(pairs: &Vec<(String, String)>) -> (r: Vec<(String, String)>)
    ensures
        pairs_view(r@) == pairs_view(pairs@),
{
    let mut out: Vec<(String, String)> = Vec::new();
    let mut i: usize = 0;
    while i < pairs.len()
        invariant
            i <= pairs.len(),
            out@.len() == i,
            forall|k: int|
                0 <= k < i ==> (#[trigger] out@[k]).0@ == pairs@[k].0@ && out@[k].1@
                    == pairs@[k].1@,
        decreases pairs.len() - i,
    {
        out.push((pairs[i].0.clone(), pairs[i].1.clone()));
        i += 1;
    }
    assert(pairs_view(out@) =~= pairs_view(pairs@));
    out
}

impl Clone for RequestContext {
    /// A copy that holds the same request.
    fn clone(&self) -> (r: Self)
        ensures
            r@ == self@,
    {
        RequestContext {
            body: self.body.clone(),
            method: self.method.clone(),
            request_path: self.request_path.clone(),
            headers: clone_pairs(&self.headers),
            path: self.path.clone(),
            query_args: clone_pairs(&self.query_args),
            path_args: clone_pairs(&self.path_args),
        }
    }
}

impl View for RequestContext {
    type V = RequestView;

    open spec fn view(&self) -> RequestView {
        RequestView {
            method: self.method@,
            request_path: self.request_path@,
            path: self.path@,
            headers: pairs_view(self.headers@),
            query_args: pairs_view(self.query_args@),
            path_args: pairs_view(self.path_args@),
            body: self.body@,
        }
    }
}

/// `c` with an upper-case ASCII letter replaced by its lower-case form.
pub open spec fn lower_char(c: char) -> char {
    if 'A' <= c <= 'Z' {
        ((c as u32) + 32) as char
    } else {
        c
    }
}

/// The text with its ASCII letters in lower case.
pub open spec fn lowered(text: Seq<char>) -> Seq<char> {
    text.map_values(|c: char| lower_char(c))
}

/// The pairs with the ASCII letters of each name in lower case.
pub open spec fn lowered_names(pairs: PairsView) -> PairsView {
    pairs.map_values(|p: (Seq<char>, Seq<char>)| (lowered(p.0), p.1))
}

/// Calls `str::to_ascii_lowercase` of the standard library, which maps the
/// letters `A` to `Z` to `a` to `z` and leaves every other character.
#[verifier::external_body]
fn to_ascii_lowercase(text: &str) -> (r: String)
    ensures
        r@ == lowered(text@),
{
    text.to_ascii_lowercase()
}

/// The headers with their names in lower case.
pub fn lowercase_names(headers: Vec<(String, String)>) -> (r: Vec<(String, String)>)
    ensures
        pairs_view(r@) == lowered_names(pairs_view(headers@)),
{
    let mut out: Vec<(String, String)> = Vec::new();
    let mut i: usize = 0;
    while i < headers.len()
        invariant
            i <= headers.len(),
            out@.len() == i,
            forall|k: int|
                0 <= k < i ==> (#[trigger] out@[k]).0@ == lowered(headers@[k].0@) && out@[k].1@
                    == headers@[k].1@,
        decreases headers.len() - i,
    {
        out.push((to_ascii_lowercase(headers[i].0.as_str()), headers[i].1.clone()));
        i += 1;
    }
    assert(pairs_view(out@) =~= lowered_names(pairs_view(headers@)));
    out
}

/// A name for the pairs that `serde_urlencoded` reads from a query string, in
/// the order in which they stand in it; `None` where it reports an error.
pub uninterp spec fn query_pairs(query: Seq<char>) -> Option<PairsView>;

/// Calls `serde_urlencoded::from_str` for a list of pairs. The contract only
/// names the result: the same query text always gives the same pairs.
#[verifier::external_body]
fn parse_query(query: &str) -> (r: Option<Vec<(String, String)>>)
    ensures
        r is Some <==> query_pairs(query@) is Some,
        r is Some ==> pairs_view(r->0@) == query_pairs(query@)->0,
{
    serde_urlencoded::from_str::<Vec<(String, String)>>(query).ok()
}

/// The query arguments of a request whose query string reads as `pairs`: the
/// pairs in order, or none where the string could not be read.
pub open spec fn query_args_of(pairs: Option<PairsView>) -> PairsView {
    match pairs {
        Some(p) => p,
        None => Seq::empty(),
    }
}

/// Finds the value that `pairs` gives to `key`.
pub fn find_value<'a>(pairs: &'a Vec<(String, String)>, key: &str) -> (r: Option<&'a String>)
    ensures
        match r {
            Some(v) => lookup(pairs_view(pairs@), key@) == Some(v@),
            None => lookup(pairs_view(pairs@), key@) is None,
        },
{
    let ghost all = pairs_view(pairs@);
    let mut i: usize = pairs.len();
    assert(all.subrange(0, i as int) =~= all);
    while i > 0
        invariant
            i <= pairs.len(),
            all == pairs_view(pairs@),
            lookup(all, key@) == lookup(all.subrange(0, i as int), key@),
        decreases i,
    {
        i -= 1;
        proof {
            let head = all.subrange(0, i + 1);
            assert(head.last() == all[i as int]);
            assert(head.drop_last() =~= all.subrange(0, i as int));
            assert(all[i as int] == (pairs@[i as int].0@, pairs@[i as int].1@));
        }
        if str_eq(pairs[i].0.as_str(), key) {
            return Some(&pairs[i].1);
        }
    }
    assert(all.subrange(0, 0).len() == 0);
    None
}

/// Finds the value of the header named `key`, letter case aside.
pub fn find_header<'a>(pairs: &'a Vec<(String, String)>, key: &str) -> (r: Option<&'a String>)
    ensures
        match r {
            Some(v) => header_lookup(pairs_view(pairs@), key@) == Some(v@),
            None => header_lookup(pairs_view(pairs@), key@) is None,
        },
{
    let ghost all = pairs_view(pairs@);
    let mut i: usize = pairs.len();
    assert(all.subrange(0, i as int) =~= all);
    while i > 0
        invariant
            i <= pairs.len(),
            all == pairs_view(pairs@),
            header_lookup(all, key@) == header_lookup(all.subrange(0, i as int), key@),
        decreases i,
    {
        i -= 1;
        proof {
            let head = all.subrange(0, i + 1);
            assert(head.last() == all[i as int]);
            assert(head.drop_last() =~= all.subrange(0, i as int));
            assert(all[i as int] == (pairs@[i as int].0@, pairs@[i as int].1@));
        }
        if eq_ignore_ascii_case(pairs[i].0.as_str(), key) {
            return Some(&pairs[i].1);
        }
    }
    assert(all.subrange(0, 0).len() == 0);
    None
}

impl RequestContext {
    /// The snapshot of a request that has not met a rule yet: `path` is `/` and
    /// there are no path arguments. The header names are put in lower case.
    /// The query arguments are the pairs read from `query`, none where it
    /// cannot be read.
    pub fn new(
        method: String,
        request_path: String,
        headers: Vec<(String, String)>,
        query: &str,
        body: Vec<u8>,
    ) -> (r: Self)
        ensures
            r@.method == method@,
            r@.request_path == request_path@,
            r@.path == seq!['/'],
            r@.headers == lowered_names(pairs_view(headers@)),
            r@.query_args == query_args_of(query_pairs(query@)),
            r@.path_args == Seq::<(Seq<char>, Seq<char>)>::empty(),
            r@.body == body@,
    {
        let query_args = match parse_query(query) {
            Some(pairs) => pairs,
            None => Vec::new(),
        };
        proof {
            reveal_strlit("/");
        }
        let path = "/".to_owned();
        let path_args: Vec<(String, String)> = Vec::new();
        let headers = lowercase_names(headers);
        let r = RequestContext { body, method, request_path, headers, path, query_args, path_args };
        assert(r@.path =~= seq!['/']);
        assert(r@.path_args =~= Seq::<(Seq<char>, Seq<char>)>::empty());
        assert(r@.query_args =~= query_args_of(query_pairs(query@)));
        r
    }

    /// Records the outcome of a URI pattern match: the matched path and the
    /// arguments captured from it.
    pub fn update_paths(&mut self, path: String, args_path: Vec<(String, String)>)
        ensures
            final(self)@ == (RequestView {
                path: path@,
                path_args: pairs_view(args_path@),
                ..old(self)@
            }),
    {
        self.path = path;
        self.path_args = args_path;
    }
}

} // verus!
