//! Requests as plain values: what is to be sent, before anything is sent.

use vstd::prelude::*;

verus! {

/// The HTTP verb that an endpoint declaration fixes.
#[derive(Clone, Copy, Debug, PartialEq, Eq, Structural)]
pub enum Method {
    Get,
    Post,
    Delete,
}

impl Method {
    /// The wire name of the verb.
    pub open spec fn name(&self) -> Seq<char> {
        match self {
            Method::Get => "GET"@,
            Method::Post => "POST"@,
            Method::Delete => "DELETE"@,
        }
    }

    /// The verb as it is written on the wire.
    pub fn as_str(&self) -> (name: &'static str)
        ensures
            name@ == self.name(),
    {
        match self {
            Method::Get => "GET",
            Method::Post => "POST",
            Method::Delete => "DELETE",
        }
    }
}

/// A list of name and value pairs, each pair taken by the text it holds.
pub open spec fn pairs_view(pairs: Seq<(String, String)>) -> Seq<(Seq<char>, Seq<char>)> {
    pairs.map_values(|pair: (String, String)| pair@)
}

/// Appending a pair to a list appends its text to the list's text.
pub proof fn lemma_pairs_view_push(pairs: Seq<(String, String)>, pair: (String, String))
    ensures
        pairs_view(pairs.push(pair)) == pairs_view(pairs).push(pair@),
{
    assert(pairs_view(pairs.push(pair)) =~= pairs_view(pairs).push(pair@));
}

/// A copy of a list of pairs, pair by pair.
pub fn copy_pairs(pairs: &Vec<(String, String)>) -> (copy: Vec<(String, String)>)
    ensures
        pairs_view(copy@) == pairs_view(pairs@),
{
    let mut copy: Vec<(String, String)> = Vec::new();
    let mut i: usize = 0;
    while i < pairs.len()
        invariant
            i <= pairs.len(),
            pairs_view(copy@) == pairs_view(pairs@.take(i as int)),
        decreases pairs.len() - i,
    {
        let pair = (pairs[i].0.clone(), pairs[i].1.clone());
        proof {
            lemma_pairs_view_push(copy@, pair);
            assert(pairs@.take(i + 1) =~= pairs@.take(i as int).push(pairs@[i as int]));
            lemma_pairs_view_push(pairs@.take(i as int), pairs@[i as int]);
        }
        copy.push(pair);
        i += 1;
    }
    proof {
        assert(pairs@.take(i as int) =~= pairs@);
    }
    copy
}

/// A request that has not been sent: the verb, the resolved URL, and what was
/// attached to it since.
#[derive(Debug, PartialEq, Eq)]
pub struct Request {
    pub method: Method,
    pub url: String,
    pub headers: Vec<(String, String)>,
    pub query: Vec<(String, String)>,
    pub body: Option<String>,
}

/// What a [`Request`] holds.
pub struct RequestView {
    pub method: Method,
    pub url: Seq<char>,
    pub headers: Seq<(Seq<char>, Seq<char>)>,
    pub query: Seq<(Seq<char>, Seq<char>)>,
    pub body: Option<Seq<char>>,
}

impl View for Request {
    type V = RequestView;

    open spec fn view(&self) -> RequestView {
        RequestView {
            method: self.method,
            url: self.url@,
            headers: pairs_view(self.headers@),
            query: pairs_view(self.query@),
            body: match self.body {
                Some(text) => Some(text@),
                None => None,
            },
        }
    }
}

impl RequestView {
    /// A request with nothing attached but its headers.
    pub open spec fn bare(
        method: Method,
        url: Seq<char>,
        headers: Seq<(Seq<char>, Seq<char>)>,
    ) -> RequestView {
        RequestView { method, url, headers, query: Seq::empty(), body: None }
    }

    /// The request with one more query parameter, after those it had.
    pub open spec fn with_query(self, name: Seq<char>, value: Seq<char>) -> RequestView {
        RequestView { query: self.query.push((name, value)), ..self }
    }

    /// The request with `payload` as its body, in place of any it had.
    pub open spec fn with_body(self, payload: Seq<char>) -> RequestView {
        RequestView { body: Some(payload), ..self }
    }
}

impl Request {
    /// A request for `url` with the given verb and headers, no query
    /// parameter and no body.
    pub fn new(method: Method, url: String, headers: Vec<(String, String)>) -> (request: Request)
        ensures
            request@ == RequestView::bare(method, url@, pairs_view(headers@)),
    {
        let request = Request { method, url, headers, query: Vec::new(), body: None };
        proof {
            assert(pairs_view(request.query@) =~= Seq::empty());
        }
        request
    }

    /// Attaches the query parameter `name=value`. The value is kept as it
    /// was given: nothing is escaped here.
    pub fn query(self, name: &str, value: &str) -> (request: Request)
        ensures
            request@ == self@.with_query(name@, value@),
    {
        let mut request = self;
        let pair = (String::from_str(name), String::from_str(value));
        proof {
            lemma_pairs_view_push(request.query@, pair);
        }
        request.query.push(pair);
        request
    }

    /// Attaches `payload` as the body of the request.
    pub fn body(self, payload: String) -> (request: Request)
        ensures
            request@ == self@.with_body(payload@),
    {
        let mut request = self;
        request.body = Some(payload);
        request
    }
}

} // verus!
