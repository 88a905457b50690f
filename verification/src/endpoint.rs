use std::collections::HashMap;
use vstd::prelude::*;

use crate::results::Results;

verus! {

/// HTTP method of an endpoint.
#[derive(Clone, Copy, Debug, PartialEq, Eq, Structural)]
pub enum Method {
    GET,
    POST,
    PUT,
    DELETE,
}

impl Method {
    pub open spec fn label_text(self) -> Seq<char> {
        match self {
            Method::GET => "GET"@,
            Method::POST => "POST"@,
            Method::PUT => "PUT"@,
            Method::DELETE => "DELETE"@,
        }
    }

    pub fn label(&self) -> (s: String)
        ensures
            s@ == self.label_text(),
    {
        match self {
            Method::GET => String::from_str("GET"),
            Method::POST => String::from_str("POST"),
            Method::PUT => String::from_str("PUT"),
            Method::DELETE => String::from_str("DELETE"),
        }
    }
}

/// The same optional header map: both absent, or both present with the
/// same entries.
pub open spec fn same_headers(a: Option<HashMap<String, String>>, b: Option<HashMap<String, String>>) -> bool {
    match (a, b) {
        (Some(x), Some(y)) => x@ == y@,
        (None, None) => true,
        _ => false,
    }
}

/// A copy of an optional header map, with the same entries.
pub fn clone_headers(h: &Option<HashMap<String, String>>) -> (c: Option<HashMap<String, String>>)
    ensures
        same_headers(c, *h),
{
    match h {
        Some(m) => Some(m.clone()),
        None => None,
    }
}

/// A copy of a list of pairs of strings.
pub fn clone_pairs(pairs: &Vec<(String, String)>) -> (c: Vec<(String, String)>)
    ensures
        c@ == pairs@,
{
    let mut c: Vec<(String, String)> = Vec::new();
    for i in 0..pairs.len()
        invariant
            c@ == pairs@.take(i as int),
    {
        c.push((pairs[i].0.clone(), pairs[i].1.clone()));
        proof {
            assert(c@ =~= pairs@.take(i as int + 1));
        }
    }
    proof {
        assert(pairs@.take(pairs@.len() as int) =~= pairs@);
    }
    c
}

/// A request that users of a test send, with the results gathered for it.
#[derive(Debug)]
pub struct EndPoint {
    pub method: Method,
    /// Path appended to the test's host.
    pub url: String,
    pub headers: Option<HashMap<String, String>>,
    /// Query parameters, sent with GET requests.
    pub params: Option<Vec<(String, String)>>,
    /// Body, sent with POST and PUT requests.
    pub body: Option<String>,
    pub results: Results,
}

impl Clone for EndPoint {
    fn clone(&self) -> (c: Self)
        ensures
            c.copy_of(self),
    {
        let params = match &self.params {
            Some(p) => Some(clone_pairs(p)),
            None => None,
        };
        let body = match &self.body {
            Some(b) => Some(b.clone()),
            None => None,
        };
        EndPoint {
            method: self.method,
            url: self.url.clone(),
            headers: clone_headers(&self.headers),
            params,
            body,
            results: self.results,
        }
    }
}

impl EndPoint {
    /// `self` is a copy of `other`: the same method, url, body and results,
    /// headers with the same entries and the same query parameters.
    pub open spec fn copy_of(&self, other: &EndPoint) -> bool {
        &&& self.method == other.method
        &&& self.url == other.url
        &&& same_headers(self.headers, other.headers)
        &&& match (self.params, other.params) {
            (Some(a), Some(b)) => a@ == b@,
            (None, None) => true,
            _ => false,
        }
        &&& self.body == other.body
        &&& self.results == other.results
    }

    fn new(
        method: Method,
        url: String,
        headers: Option<HashMap<String, String>>,
        params: Option<Vec<(String, String)>>,
        body: Option<String>,
    ) -> (e: EndPoint)
        ensures
            e.method == method,
            e.url == url,
            e.headers == headers,
            e.params == params,
            e.body == body,
            e.results == Results::empty(),
    {
        EndPoint { method, url, headers, params, body, results: Results::new() }
    }

    pub fn new_get(
        url: String,
        headers: Option<HashMap<String, String>>,
        params: Option<Vec<(String, String)>>,
    ) -> (e: EndPoint)
        ensures
            e.method == Method::GET,
            e.url == url,
            e.headers == headers,
            e.params == params,
            e.body is None,
            e.results == Results::empty(),
    {
        EndPoint::new(Method::GET, url, headers, params, None)
    }

    pub fn new_post(url: String, headers: Option<HashMap<String, String>>, body: Option<String>) -> (e:
        EndPoint)
        ensures
            e.method == Method::POST,
            e.url == url,
            e.headers == headers,
            e.params is None,
            e.body == body,
            e.results == Results::empty(),
    {
        EndPoint::new(Method::POST, url, headers, None, body)
    }

    pub fn new_put(url: String, headers: Option<HashMap<String, String>>, body: Option<String>) -> (e:
        EndPoint)
        ensures
            e.method == Method::PUT,
            e.url == url,
            e.headers == headers,
            e.params is None,
            e.body == body,
            e.results == Results::empty(),
    {
        EndPoint::new(Method::PUT, url, headers, None, body)
    }

    pub fn new_delete(url: String, headers: Option<HashMap<String, String>>) -> (e: EndPoint)
        ensures
            e.method == Method::DELETE,
            e.url == url,
            e.headers == headers,
            e.params is None,
            e.body is None,
            e.results == Results::empty(),
    {
        EndPoint::new(Method::DELETE, url, headers, None, None)
    }

    pub fn get_method(&self) -> (m: &Method)
        ensures
            *m == self.method,
    {
        &self.method
    }

    pub fn get_url(&self) -> (u: &String)
        ensures
            *u == self.url,
    {
        &self.url
    }

    pub fn get_results(&self) -> (r: &Results)
        ensures
            *r == self.results,
    {
        &self.results
    }

    pub fn get_params(&self) -> (p: &Option<Vec<(String, String)>>)
        ensures
            *p == self.params,
    {
        &self.params
    }

    pub fn get_body(&self) -> (b: &Option<String>)
        ensures
            *b == self.body,
    {
        &self.body
    }

    /// A copy of the results gathered for this endpoint.
    pub fn clone_results(&self) -> (r: Results)
        ensures
            r == self.results,
    {
        self.results
    }

    pub fn add_response_time(&mut self, response_time: u32)
        requires
            old(self).results.can_record_time(response_time),
        ensures
            *final(self) == (EndPoint { results: old(self).results.with_time(response_time), ..*old(self) }),
    {
        self.results.add_response_time(response_time);
    }

    pub fn add_failed(&mut self)
        requires
            old(self).results.can_record_failure(),
        ensures
            *final(self) == (EndPoint { results: old(self).results.with_failure(), ..*old(self) }),
    {
        self.results.add_failed();
    }

    pub fn add_connection_error(&mut self)
        requires
            old(self).results.can_record_connection_error(),
        ensures
            *final(self) == (EndPoint { results: old(self).results.with_connection_error(), ..*old(self) }),
    {
        self.results.add_connection_error();
    }
}

} // verus!
