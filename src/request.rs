//! The request descriptor: everything one outbound HTTP request is made of.
use vstd::prelude::*;
use crate::builder::PostgrestQuery;
use crate::headers::{pairs_view, set_header, with_header};

verus! {

/// The serialization that `url::Url::parse` gives `s`, or `None` where `s` is
/// not an absolute URL.
pub uninterp spec fn normalized_url(s: Seq<char>) -> Option<Seq<char>>;

/// The serialization that `url::Url::parse_with_params` gives `base` with the
/// pairs of `query` appended to its query string.
pub uninterp spec fn url_with_query(base: Seq<char>, query: Seq<(Seq<char>, Seq<char>)>) -> Seq<char>;

/// Relies on `url::Url::parse`: parses an absolute URL and serializes it.
#[verifier::external_body]
fn parse_url(s: &str) -> (r: Option<String>)
    ensures
        r matches Some(u) ==> normalized_url(s@) == Some(u@),
        r is None ==> normalized_url(s@) is None,
{
    url::Url::parse(s).ok().map(String::from)
}

/// Relies on `url::Url::parse_with_params`: parses `base` exactly as
/// `url::Url::parse` does and, where that succeeds, appends each pair to the
/// query string, form-urlencoded and in order.
#[verifier::external_body]
fn parse_url_with_query(base: &str, query: &Vec<(String, String)>) -> (r: Option<String>)
    ensures
        r is Some == normalized_url(base@) is Some,
        r matches Some(u) ==> u@ == url_with_query(base@, pairs_view(query@)),
{
    url::Url::parse_with_params(base, query.iter().map(|p| (p.0.as_str(), p.1.as_str()))).ok().map(
        String::from,
    )
}

/// `s` is an absolute URL.
pub open spec fn url_parses(s: Seq<char>) -> bool {
    normalized_url(s) is Some
}

/// The URL a request with base `url` and query parameters `query` is sent to.
pub open spec fn target_url(url: Seq<char>, query: Seq<(Seq<char>, Seq<char>)>) -> Seq<char> {
    if query.len() == 0 {
        normalized_url(url).unwrap()
    } else {
        url_with_query(url, query)
    }
}

/// The HTTP methods the client sends.
#[derive(Clone, Copy, Debug, PartialEq, Eq, Structural)]
pub enum HttpMethod {
    Get,
    Head,
    Post,
    Patch,
    Delete,
}

/// An argument of a remote call: plain text, or any JSON value.
pub enum CallArg {
    Text(String),
    Json(serde_json::Value),
}

/// A request body: one JSON value, a list of rows sent as a JSON array, or
/// the arguments of a remote call sent as a JSON object.
pub enum RequestBody {
    Json(serde_json::Value),
    Rows(Vec<serde_json::Value>),
    Args(Vec<(String, CallArg)>),
}

/// The view of a body.
pub enum BodyModel {
    Json(serde_json::Value),
    Rows(Seq<serde_json::Value>),
    Args(Seq<(Seq<char>, CallArg)>),
}

/// The view of a list of call arguments.
pub open spec fn args_view(v: Seq<(String, CallArg)>) -> Seq<(Seq<char>, CallArg)> {
    v.map_values(|a: (String, CallArg)| (a.0@, a.1))
}

impl RequestBody {
    pub open spec fn model(&self) -> BodyModel {
        match self {
            RequestBody::Json(v) => BodyModel::Json(*v),
            RequestBody::Rows(v) => BodyModel::Rows(v@),
            RequestBody::Args(v) => BodyModel::Args(args_view(v@)),
        }
    }
}

pub open spec fn body_model(b: Option<RequestBody>) -> Option<BodyModel> {
    match b {
        Some(body) => Some(body.model()),
        None => None,
    }
}

/// The mathematical view of a request descriptor.
pub struct RequestModel {
    pub url: Seq<char>,
    pub query: Seq<(Seq<char>, Seq<char>)>,
    pub headers: Seq<(Seq<char>, Seq<char>)>,
    pub method: HttpMethod,
    pub body: Option<BodyModel>,
    pub query_type: PostgrestQuery,
}

/// One pending HTTP request: a base URL that parses, the query parameters
/// appended to it in order, headers, method, optional body and the operation.
pub struct PostgrestRequest {
    url: String,
    query: Vec<(String, String)>,
    headers: Vec<(String, String)>,
    method: HttpMethod,
    body: Option<RequestBody>,
    query_type: PostgrestQuery,
}

impl View for PostgrestRequest {
    type V = RequestModel;

    closed spec fn view(&self) -> RequestModel {
        RequestModel {
            url: self.url@,
            query: pairs_view(self.query@),
            headers: pairs_view(self.headers@),
            method: self.method,
            body: body_model(self.body),
            query_type: self.query_type,
        }
    }
}

impl PostgrestRequest {
    #[verifier::type_invariant]
    spec fn base_parses(self) -> bool {
        url_parses(self.url@)
    }

    /// A read of everything at `url`: GET, no body, no query parameters.
    /// `None` where `url` is not an absolute URL.
    pub fn new(url: String, headers: Vec<(String, String)>) -> (r: Option<Self>)
        ensures
            r is Some == url_parses(url@),
            r matches Some(req) ==> req@ == (RequestModel {
                url: url@,
                query: Seq::empty(),
                headers: pairs_view(headers@),
                method: HttpMethod::Get,
                body: None,
                query_type: PostgrestQuery::FindMany,
            }),
    {
        if parse_url(url.as_str()).is_none() {
            return None;
        }
        let req = PostgrestRequest {
            url,
            query: Vec::new(),
            headers,
            method: HttpMethod::Get,
            body: None,
            query_type: PostgrestQuery::FindMany,
        };
        assert(pairs_view(req.query@) =~= Seq::empty());
        Some(req)
    }

    /// The same request with another method, body and operation.
    pub(crate) fn with_operation(
        self,
        method: HttpMethod,
        body: Option<RequestBody>,
        query_type: PostgrestQuery,
    ) -> (r: Self)
        ensures
            r@ == (RequestModel { method, body: body_model(body), query_type, ..self@ }),
    {
        proof {
            use_type_invariant(&self);
        }
        PostgrestRequest { method, body, query_type, ..self }
    }

    /// The same request with one more query parameter at the end.
    pub(crate) fn append_query(self, key: String, value: String) -> (r: Self)
        ensures
            r@ == (RequestModel { query: self@.query.push((key@, value@)), ..self@ }),
    {
        proof {
            use_type_invariant(&self);
        }
        let PostgrestRequest { url, query, headers, method, body, query_type } = self;
        let mut query = query;
        let ghost before = query@;
        query.push((key, value));
        assert(pairs_view(query@) =~= pairs_view(before).push((key@, value@)));
        PostgrestRequest { url, query, headers, method, body, query_type }
    }

    /// The same request with the header `name` set to `value` alone.
    pub(crate) fn set_header(self, name: &str, value: String) -> (r: Self)
        ensures
            r@ == (RequestModel { headers: with_header(self@.headers, name@, value@), ..self@ }),
    {
        proof {
            use_type_invariant(&self);
        }
        let headers = set_header(&self.headers, name, value);
        PostgrestRequest { headers, ..self }
    }

    /// The URL the request is sent to, query string included.
    pub fn url(&self) -> (r: String)
        ensures
            r@ == target_url(self@.url, self@.query),
    {
        proof {
            use_type_invariant(self);
        }
        if self.query.len() == 0 {
            parse_url(self.url.as_str()).unwrap()
        } else {
            parse_url_with_query(self.url.as_str(), &self.query).unwrap()
        }
    }

    pub fn query(&self) -> (r: &Vec<(String, String)>)
        ensures
            pairs_view(r@) == self@.query,
    {
        &self.query
    }

    pub fn headers(&self) -> (r: &Vec<(String, String)>)
        ensures
            pairs_view(r@) == self@.headers,
    {
        &self.headers
    }

    pub fn method(&self) -> (r: HttpMethod)
        ensures
            r == self@.method,
    {
        self.method
    }

    pub fn query_type(&self) -> (r: PostgrestQuery)
        ensures
            r == self@.query_type,
    {
        self.query_type
    }

    pub fn body(&self) -> (r: Option<&RequestBody>)
        ensures
            r matches Some(b) ==> self@.body == Some(b.model()),
            r is None ==> self@.body is None,
    {
        match &self.body {
            Some(b) => Some(b),
            None => None,
        }
    }

    /// The body, handed over to be sent.
    pub fn into_body(self) -> (r: Option<RequestBody>)
        ensures
            body_model(r) == self@.body,
    {
        self.body
    }
}

} // verus!
