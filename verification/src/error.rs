//! The errors a request can end in, and the response each one gets.
use vstd::prelude::*;
use crate::decimal::{decimal, format_u64};
use crate::resend::ResendError;
use crate::unsplash::UnsplashError;

verus! {

/// Why a request failed. The payload of `Template` and `Database` is the
/// description of the underlying failure, kept for the logs.
#[derive(Debug)]
pub enum WebError {
    Template(String),
    Database(String),
    NotFound,
    External(String),
    TooManyRequests { retry_after_secs: u64 },
}

/// The status, body and headers of an error response. Each header is a
/// name, in lower case as `http::HeaderName` keeps it, and a value.
#[derive(Debug, PartialEq, Eq)]
pub struct ErrorResponse {
    pub status: u16,
    pub body: String,
    pub headers: Vec<(String, String)>,
}

/// The text of a list of headers.
pub open spec fn pairs_view(v: Seq<(String, String)>) -> Seq<(Seq<char>, Seq<char>)> {
    v.map_values(|p: (String, String)| (p.0@, p.1@))
}

impl View for ErrorResponse {
    type V = (u16, Seq<char>, Seq<(Seq<char>, Seq<char>)>);

    open spec fn view(&self) -> (u16, Seq<char>, Seq<(Seq<char>, Seq<char>)>) {
        (self.status, self.body@, pairs_view(self.headers@))
    }
}

/// The value a response carries for header `name`: that of the last entry
/// with that name, if any.
pub open spec fn header_value(headers: Seq<(Seq<char>, Seq<char>)>, name: Seq<char>) -> Option<Seq<char>>
    decreases headers.len(),
{
    if headers.len() == 0 {
        None
    } else if headers.last().0 == name {
        Some(headers.last().1)
    } else {
        header_value(headers.drop_last(), name)
    }
}

/// `headers` without any entry named `name`, the others kept in order.
pub open spec fn without_header(headers: Seq<(Seq<char>, Seq<char>)>, name: Seq<char>) -> Seq<(Seq<char>, Seq<char>)>
    decreases headers.len(),
{
    if headers.len() == 0 {
        headers
    } else if headers.last().0 == name {
        without_header(headers.drop_last(), name)
    } else {
        without_header(headers.drop_last(), name).push(headers.last())
    }
}

/// `base` with each header of `extra` inserted in turn: an inserted header
/// replaces every entry of the same name.
pub open spec fn merge_headers(base: Seq<(Seq<char>, Seq<char>)>, extra: Seq<(Seq<char>, Seq<char>)>) -> Seq<(Seq<char>, Seq<char>)>
    decreases extra.len(),
{
    if extra.len() == 0 {
        base
    } else {
        without_header(merge_headers(base, extra.drop_last()), extra.last().0).push(extra.last())
    }
}

proof fn lemma_without_header_lookup(headers: Seq<(Seq<char>, Seq<char>)>, name: Seq<char>, n: Seq<char>)
    ensures
        header_value(without_header(headers, name), n) == (if n == name {
            None
        } else {
            header_value(headers, n)
        }),
    decreases headers.len(),
{
    if headers.len() > 0 {
        lemma_without_header_lookup(headers.drop_last(), name, n);
        if headers.last().0 != name {
            let w = without_header(headers.drop_last(), name).push(headers.last());
            assert(w.drop_last() =~= without_header(headers.drop_last(), name));
        }
    }
}

/// After inserting `extra` into `base`, a header named in `extra` has the
/// value `extra` last gives it, and every other header keeps its value in
/// `base`.
pub proof fn lemma_merge_headers_lookup(base: Seq<(Seq<char>, Seq<char>)>, extra: Seq<(Seq<char>, Seq<char>)>, n: Seq<char>)
    ensures
        header_value(merge_headers(base, extra), n) == (match header_value(extra, n) {
            Some(v) => Some(v),
            None => header_value(base, n),
        }),
    decreases extra.len(),
{
    if extra.len() > 0 {
        lemma_merge_headers_lookup(base, extra.drop_last(), n);
        let m = merge_headers(base, extra.drop_last());
        lemma_without_header_lookup(m, extra.last().0, n);
        let w = without_header(m, extra.last().0).push(extra.last());
        assert(w.drop_last() =~= without_header(m, extra.last().0));
    }
}

/// `headers` without any entry named `name`.
fn remove_header(headers: &Vec<(String, String)>, name: &String) -> (r: Vec<(String, String)>)
    ensures
        pairs_view(r@) == without_header(pairs_view(headers@), name@),
{
    let mut r: Vec<(String, String)> = Vec::new();
    let mut i: usize = 0;
    assert(pairs_view(headers@.take(0)) =~= Seq::<(Seq<char>, Seq<char>)>::empty());
    assert(pairs_view(r@) =~= Seq::<(Seq<char>, Seq<char>)>::empty());
    while i < headers.len()
        invariant
            i <= headers@.len(),
            pairs_view(r@) == without_header(pairs_view(headers@.take(i as int)), name@),
        decreases headers@.len() - i,
    {
        let ghost before = r@;
        proof {
            assert(pairs_view(headers@.take(i + 1)).drop_last() =~= pairs_view(headers@.take(i as int)));
            assert(pairs_view(headers@.take(i + 1)).last() == (headers@[i as int].0@, headers@[i as int].1@));
        }
        if headers[i].0 == *name {
        } else {
            r.push((headers[i].0.clone(), headers[i].1.clone()));
            proof {
                assert(pairs_view(r@) =~= pairs_view(before).push((headers@[i as int].0@, headers@[i as int].1@)));
            }
        }
        i = i + 1;
    }
    assert(headers@.take(headers@.len() as int) =~= headers@);
    r
}

impl ErrorResponse {
    /// The value of header `name`, if the response has one.
    pub fn header(&self, name: &str) -> (r: Option<&String>)
        ensures
            match r {
                Some(v) => header_value(self@.2, name@) == Some(v@),
                None => header_value(self@.2, name@) is None,
            },
    {
        let key = String::from_str(name);
        let mut i = self.headers.len();
        assert(self.headers@.take(i as int) =~= self.headers@);
        while i > 0
            invariant
                i <= self.headers@.len(),
                key@ == name@,
                header_value(pairs_view(self.headers@), name@) == header_value(pairs_view(self.headers@.take(i as int)), name@),
            decreases i,
        {
            proof {
                assert(pairs_view(self.headers@.take(i as int)).drop_last() =~= pairs_view(self.headers@.take(i - 1)));
                assert(pairs_view(self.headers@.take(i as int)).last() == (self.headers@[i - 1].0@, self.headers@[i - 1].1@));
            }
            i = i - 1;
            if self.headers[i].0 == key {
                return Some(&self.headers[i].1);
            }
        }
        None
    }

    /// This response with each of `extra` inserted in turn, replacing every
    /// header of the same name.
    pub fn with_headers(self, extra: &Vec<(String, String)>) -> (r: ErrorResponse)
        ensures
            r@ == (self@.0, self@.1, merge_headers(self@.2, pairs_view(extra@))),
    {
        let ErrorResponse { status, body, headers } = self;
        let ghost base = pairs_view(headers@);
        let mut headers = headers;
        let mut i: usize = 0;
        assert(pairs_view(extra@.take(0)) =~= Seq::<(Seq<char>, Seq<char>)>::empty());
        while i < extra.len()
            invariant
                i <= extra@.len(),
                pairs_view(headers@) == merge_headers(base, pairs_view(extra@.take(i as int))),
            decreases extra@.len() - i,
        {
            let name = extra[i].0.clone();
            let value = extra[i].1.clone();
            let mut kept = remove_header(&headers, &name);
            let ghost k = kept@;
            kept.push((name, value));
            proof {
                let e = pairs_view(extra@.take(i + 1));
                assert(e.drop_last() =~= pairs_view(extra@.take(i as int)));
                assert(e.last() == (extra@[i as int].0@, extra@[i as int].1@));
                assert(pairs_view(kept@) =~= pairs_view(k).push(e.last()));
            }
            headers = kept;
            i = i + 1;
        }
        assert(extra@.take(extra@.len() as int) =~= extra@);
        ErrorResponse { status, body, headers }
    }
}

/// The response that `e` is answered with: 404 for a missing page, 500 for
/// template and database failures, 502 for upstream failures, and 429 with
/// a `retry-after` header for an exhausted rate limit.
pub open spec fn response_for(e: WebError) -> (u16, Seq<char>, Seq<(Seq<char>, Seq<char>)>) {
    match e {
        WebError::NotFound => (404u16, "not found"@, Seq::empty()),
        WebError::Database(_) => (500u16, "internal server error"@, Seq::empty()),
        WebError::Template(_) => (500u16, "internal server error"@, Seq::empty()),
        WebError::External(_) => (502u16, "bad gateway"@, Seq::empty()),
        WebError::TooManyRequests { retry_after_secs } => (
            429u16,
            "too many requests"@,
            seq![("retry-after"@, decimal(retry_after_secs as nat))],
        ),
    }
}

impl WebError {
    /// The response that this error is answered with.
    pub fn into_response(self) -> (r: ErrorResponse)
        ensures
            r@ == response_for(self),
    {
        match self {
            WebError::NotFound => ErrorResponse {
                status: 404,
                body: String::from_str("not found"),
                headers: Vec::new(),
            },
            WebError::Database(_) => ErrorResponse {
                status: 500,
                body: String::from_str("internal server error"),
                headers: Vec::new(),
            },
            WebError::Template(_) => ErrorResponse {
                status: 500,
                body: String::from_str("internal server error"),
                headers: Vec::new(),
            },
            WebError::External(_) => ErrorResponse {
                status: 502,
                body: String::from_str("bad gateway"),
                headers: Vec::new(),
            },
            WebError::TooManyRequests { retry_after_secs } => {
                let headers = vec![(String::from_str("retry-after"), format_u64(retry_after_secs))];
                assert(pairs_view(headers@) =~= seq![("retry-after"@, decimal(retry_after_secs as nat))]);
                ErrorResponse { status: 429, body: String::from_str("too many requests"), headers }
            },
        }
    }
}

/// Whether an upstream HTTP status is a success (2xx), the test that the
/// Unsplash and Resend calls apply to a reply; the same rule as
/// `http::StatusCode::is_success`.
pub fn is_success_status(code: u16) -> (b: bool)
    ensures
        b == (200 <= code && code < 300),
{
    200 <= code && code < 300
}

/// An upstream failure message, wrapped so it can be reported like the
/// other error kinds.
pub struct ExternalError(pub String);

impl ExternalError {
    /// The text of the error, which is its message.
    pub fn to_string(&self) -> (s: String)
        ensures
            s@ == self.0@,
    {
        self.0.clone()
    }
}

impl From<UnsplashError> for WebError {
    fn from(err: UnsplashError) -> (r: WebError) {
        WebError::External(err.0)
    }
}

impl vstd::std_specs::convert::FromSpecImpl<UnsplashError> for WebError {
    open spec fn obeys_from_spec() -> bool {
        true
    }

    open spec fn from_spec(err: UnsplashError) -> WebError {
        WebError::External(err.0)
    }
}

impl From<ResendError> for WebError {
    fn from(err: ResendError) -> (r: WebError) {
        WebError::External(err.0)
    }
}

impl vstd::std_specs::convert::FromSpecImpl<ResendError> for WebError {
    open spec fn obeys_from_spec() -> bool {
        true
    }

    open spec fn from_spec(err: ResendError) -> WebError {
        WebError::External(err.0)
    }
}

/// Upstream failures from Unsplash and Resend both become 502 responses.
pub proof fn lemma_upstream_failures_are_bad_gateway(u: UnsplashError, r: ResendError)
    ensures
        response_for(<WebError as vstd::std_specs::convert::FromSpec<UnsplashError>>::from_spec(u)).0 == 502,
        response_for(<WebError as vstd::std_specs::convert::FromSpec<ResendError>>::from_spec(r)).0 == 502,
{
}

} // verus!
