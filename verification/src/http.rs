//! Plain-value model of the HTTP exchange: the request a client intends
//! to send and the response the transport handed back. The transport
//! itself lives outside the library; it receives a [`RequestPlan`] and
//! returns an [`HttpResponse`].

use vstd::prelude::*;
use crate::text::ci_eq;

verus! {

/// The request methods this library issues.
#[derive(Clone, Copy, Debug, PartialEq, Eq, Structural)]
pub enum Method {
    Get,
    Post,
    Patch,
    Delete,
}

impl Method {
    /// The method's name on the wire.
    pub fn as_str(&self) -> (r: &'static str)
        ensures
            self is Get ==> r@ == "GET"@,
            self is Post ==> r@ == "POST"@,
            self is Patch ==> r@ == "PATCH"@,
            self is Delete ==> r@ == "DELETE"@,
    {
        match self {
            Method::Get => "GET",
            Method::Post => "POST",
            Method::Patch => "PATCH",
            Method::Delete => "DELETE",
        }
    }
}

/// Everything the transport needs to issue one HTTP request: method and
/// full URL, headers and query pairs in order, and an optional JSON body.
#[derive(Debug)]
pub struct RequestPlan {
    pub method: Method,
    pub url: String,
    pub headers: Vec<(String, String)>,
    pub query: Vec<(String, String)>,
    pub body: Option<String>,
}

/// What the transport got back: the status code, the response headers,
/// and the body read as text.
#[derive(Debug)]
pub struct HttpResponse {
    pub status: u16,
    pub headers: Vec<(String, String)>,
    pub body: String,
}

/// The views of a sequence of string pairs, for stating header and
/// query lists in contracts.
pub open spec fn pair_views(hs: Seq<(String, String)>) -> Seq<(Seq<char>, Seq<char>)> {
    Seq::new(hs.len(), |i: int| (hs[i].0@, hs[i].1@))
}

pub proof fn lemma_pair_views_concat(a: Seq<(String, String)>, b: Seq<(String, String)>)
    ensures
        pair_views(a + b) =~= pair_views(a) + pair_views(b),
{
    assert forall|i: int| 0 <= i < a.len() + b.len() implies pair_views(a + b)[i] == (pair_views(a)
        + pair_views(b))[i] by {
        if i < a.len() {
            assert((a + b)[i] == a[i]);
        } else {
            assert((a + b)[i] == b[i - a.len()]);
        }
    }
}

/// A status in the 2xx success range.
pub open spec fn is_success_status(status: u16) -> bool {
    200 <= status < 300
}

/// The value of the first header whose name matches ignoring ASCII
/// case, as HTTP requires.
pub open spec fn spec_header_value(hs: Seq<(String, String)>, name: Seq<char>) -> Option<Seq<char>>
    decreases hs.len(),
{
    if hs.len() == 0 {
        None
    } else if ci_eq(hs[0].0@, name) {
        Some(hs[0].1@)
    } else {
        spec_header_value(hs.drop_first(), name)
    }
}

proof fn lemma_header_value_skip(hs: Seq<(String, String)>, name: Seq<char>, i: int)
    requires
        0 <= i <= hs.len(),
        forall|j: int| 0 <= j < i ==> !ci_eq(#[trigger] hs[j].0@, name),
    ensures
        spec_header_value(hs, name) == spec_header_value(hs.skip(i), name),
    decreases i,
{
    if i == 0 {
        assert(hs.skip(0) =~= hs);
    } else {
        assert(!ci_eq(hs[0].0@, name));
        lemma_header_value_skip(hs.drop_first(), name, i - 1);
        assert(hs.drop_first().skip(i - 1) =~= hs.skip(i));
    }
}

/// Finds a response header by name, ignoring ASCII case.
pub fn header_value(headers: &Vec<(String, String)>, name: &str) -> (r: Option<String>)
    ensures
        r is Some <==> spec_header_value(headers@, name@) is Some,
        r is Some ==> r->0@ == spec_header_value(headers@, name@)->0,
{
    let n: usize = headers.len();
    let mut i: usize = 0;
    while i < n
        invariant
            n == headers@.len(),
            0 <= i <= n,
            forall|j: int| 0 <= j < i ==> !ci_eq(#[trigger] headers@[j].0@, name@),
        decreases n - i,
    {
        if crate::text::str_eq_ignore_ascii_case(headers[i].0.as_str(), name) {
            proof {
                lemma_header_value_skip(headers@, name@, i as int);
                assert(headers@.skip(i as int)[0] == headers@[i as int]);
            }
            return Some(headers[i].1.clone());
        }
        i = i + 1;
    }
    proof {
        lemma_header_value_skip(headers@, name@, n as int);
        assert(headers@.skip(n as int) =~= Seq::<(String, String)>::empty());
    }
    None
}

} // verus!
