//! The request and response envelopes exchanged at the boundary.
use vstd::prelude::*;

verus! {

/// A flat string-to-string mapping, as (key, value) pairs.
pub type Pairs = Vec<(String, String)>;

/// The model of a `Pairs`.
pub open spec fn pairs_view(p: Seq<(String, String)>) -> Seq<(Seq<char>, Seq<char>)> {
    p.map_values(|e: (String, String)| (e.0@, e.1@))
}

/// The value of the first pair whose key is `key`.
pub open spec fn lookup(p: Seq<(Seq<char>, Seq<char>)>, key: Seq<char>) -> Option<Seq<char>>
    decreases p.len(),
{
    if p.len() == 0 {
        None
    } else if p[0].0 == key {
        Some(p[0].1)
    } else {
        lookup(p.drop_first(), key)
    }
}

/// An inbound request.
pub struct Request {
    pub method: String,
    pub path: String,
    pub body: String,
    pub query: Option<Pairs>,
    pub headers: Option<Pairs>,
}

/// An outbound response.
pub struct Response {
    pub status: u16,
    pub body: String,
    pub headers: Pairs,
}

/// The model of a `Response`.
pub struct ResponseView {
    pub status: u16,
    pub body: Seq<char>,
    pub headers: Seq<(Seq<char>, Seq<char>)>,
}

impl View for Response {
    type V = ResponseView;

    open spec fn view(&self) -> ResponseView {
        ResponseView { status: self.status, body: self.body@, headers: pairs_view(self.headers@) }
    }
}

/// The headers that every response carries.
pub open spec fn json_headers() -> Seq<(Seq<char>, Seq<char>)> {
    seq![("Content-Type"@, "application/json"@)]
}

/// A response with the given status and body and the JSON content type.
pub open spec fn json_response(status: u16, body: Seq<char>) -> ResponseView {
    ResponseView { status, body, headers: json_headers() }
}

/// The value under `key` in the request's query, if it has a query and the key.
pub open spec fn query_param(req: &Request, key: Seq<char>) -> Option<Seq<char>> {
    match req.query {
        Some(q) => lookup(pairs_view(q@), key),
        None => None,
    }
}

/// Whether two strings hold the same characters.
pub fn same_text(a: &str, b: &str) -> (r: bool)
    ensures
        r == (a@ == b@),
{
    let x = a.to_owned();
    let y = b.to_owned();
    x == y
}

/// Builds a response with the given status and body and the JSON content type.
pub fn respond(status: u16, body: String) -> (r: Response)
    ensures
        r@ == json_response(status, body@),
{
    let mut headers: Pairs = Vec::new();
    headers.push(("Content-Type".to_owned(), "application/json".to_owned()));
    proof {
        reveal_strlit("Content-Type");
        reveal_strlit("application/json");
        assert(pairs_view(headers@) =~= json_headers());
    }
    Response { status, body, headers }
}

/// The value of the first pair of `pairs` whose key is `key`.
pub fn find_value(pairs: &Pairs, key: &str) -> (r: Option<String>)
    ensures
        match r {
            Some(v) => lookup(pairs_view(pairs@), key@) == Some(v@),
            None => lookup(pairs_view(pairs@), key@) is None,
        },
{
    let mut i: usize = 0;
    assert(pairs_view(pairs@).skip(0) =~= pairs_view(pairs@));
    while i < pairs.len()
        invariant
            i <= pairs.len(),
            lookup(pairs_view(pairs@), key@) == lookup(pairs_view(pairs@).skip(i as int), key@),
        decreases pairs.len() - i,
    {
        let ghost rest = pairs_view(pairs@).skip(i as int);
        assert(rest[0] == (pairs@[i as int].0@, pairs@[i as int].1@));
        if same_text(pairs[i].0.as_str(), key) {
            return Some(pairs[i].1.clone());
        }
        assert(rest.drop_first() =~= pairs_view(pairs@).skip(i + 1));
        i = i + 1;
    }
    None
}

/// The value under `key` in the request's query.
pub fn query_value(req: &Request, key: &str) -> (r: Option<String>)
    ensures
        match r {
            Some(v) => query_param(req, key@) == Some(v@),
            None => query_param(req, key@) is None,
        },
{
    match &req.query {
        Some(q) => find_value(q, key),
        None => None,
    }
}

} // verus!
