use vstd::prelude::*;

use crate::ids::UserId;
use crate::text::{i32_to_string, int_text};

verus! {

/// The HTTP methods that the coordinator's calls use.
#[derive(Clone, Copy, Debug, PartialEq, Eq, Structural)]
pub enum Method {
    Get,
    Post,
    Put,
    Delete,
}

/// The headers that the coordinator reads from a request and passes on to
/// the microservices: `Authorization`, `Correlation-Token` and `Currency`.
#[derive(Clone, Debug)]
pub struct Headers {
    pub authorization: Option<String>,
    pub correlation_token: Option<String>,
    pub currency: Option<String>,
}

/// The plain values of a set of headers.
pub struct HeadersView {
    pub authorization: Option<Seq<char>>,
    pub correlation_token: Option<Seq<char>>,
    pub currency: Option<Seq<char>>,
}

pub open spec fn opt_text(o: Option<String>) -> Option<Seq<char>> {
    match o {
        Some(s) => Some(s@),
        None => None,
    }
}

impl View for Headers {
    type V = HeadersView;

    open spec fn view(&self) -> HeadersView {
        HeadersView {
            authorization: opt_text(self.authorization),
            correlation_token: opt_text(self.correlation_token),
            currency: opt_text(self.currency),
        }
    }
}

/// The value of one header after `extra` is laid over `base`: `extra` wins
/// where it has the header.
pub open spec fn overlay(base: Option<Seq<char>>, extra: Option<Seq<char>>) -> Option<Seq<char>> {
    match extra {
        Some(v) => Some(v),
        None => base,
    }
}

/// The headers after `extra` is laid over `base`, header by header.
pub open spec fn overlay_headers(base: HeadersView, extra: HeadersView) -> HeadersView {
    HeadersView {
        authorization: overlay(base.authorization, extra.authorization),
        correlation_token: overlay(base.correlation_token, extra.correlation_token),
        currency: overlay(base.currency, extra.currency),
    }
}

fn clone_opt(o: &Option<String>) -> (r: Option<String>)
    ensures
        opt_text(r) == opt_text(*o),
{
    match o {
        Some(s) => Some(s.clone()),
        None => None,
    }
}

fn overlay_one(base: &Option<String>, extra: &Option<String>) -> (r: Option<String>)
    ensures
        opt_text(r) == overlay(opt_text(*base), opt_text(*extra)),
{
    match extra {
        Some(v) => Some(v.clone()),
        None => clone_opt(base),
    }
}

impl Headers {
    /// No headers at all.
    pub fn empty() -> (r: Headers)
        ensures
            r@.authorization is None,
            r@.correlation_token is None,
            r@.currency is None,
    {
        Headers { authorization: None, correlation_token: None, currency: None }
    }

    /// A copy with the same values.
    pub fn duplicate(&self) -> (r: Headers)
        ensures
            r@ == self@,
    {
        Headers {
            authorization: clone_opt(&self.authorization),
            correlation_token: clone_opt(&self.correlation_token),
            currency: clone_opt(&self.currency),
        }
    }

    /// These headers with `extra` laid over them: each header that `extra`
    /// has replaces the one here, the others stay.
    pub fn extended_with(&self, extra: &Headers) -> (r: Headers)
        ensures
            r@ == overlay_headers(self@, extra@),
    {
        Headers {
            authorization: overlay_one(&self.authorization, &extra.authorization),
            correlation_token: overlay_one(&self.correlation_token, &extra.correlation_token),
            currency: overlay_one(&self.currency, &extra.currency),
        }
    }
}

/// The headers that every call made on behalf of a request carries: the
/// request's `Authorization` and `Correlation-Token`, and nothing else.
pub fn default_headers(request_headers: &Headers) -> (r: Headers)
    ensures
        r@.authorization == request_headers@.authorization,
        r@.correlation_token == request_headers@.correlation_token,
        r@.currency is None,
{
    Headers {
        authorization: clone_opt(&request_headers.authorization),
        correlation_token: clone_opt(&request_headers.correlation_token),
        currency: None,
    }
}

/// The headers of calls to the stores microservice: the default ones and the
/// currency `STQ`.
pub fn stores_headers(request_headers: &Headers) -> (r: Headers)
    ensures
        r@.authorization == request_headers@.authorization,
        r@.correlation_token == request_headers@.correlation_token,
        r@.currency == Some("STQ"@),
{
    let mut h = default_headers(request_headers);
    h.currency = Some("STQ".to_owned());
    h
}

/// On whose behalf a call to a microservice is made.
#[derive(Clone, Copy, Debug, PartialEq, Eq, Structural)]
pub enum Initiator {
    Superadmin,
    User(UserId),
}

/// The `Authorization` value that names an initiator: `1` for the
/// superadmin, the user's id in base ten for a user.
pub open spec fn initiator_authorization(i: Initiator) -> Seq<char> {
    match i {
        Initiator::Superadmin => seq!['1'],
        Initiator::User(id) => int_text(id as int),
    }
}

impl Initiator {
    /// The initiator of a call made on behalf of a user.
    pub fn from_user(id: UserId) -> (r: Initiator)
        ensures
            r == Initiator::User(id),
    {
        Initiator::User(id)
    }

    /// The `Authorization` value of calls made on this initiator's behalf.
    pub fn authorization(&self) -> (r: String)
        ensures
            r@ == initiator_authorization(*self),
    {
        match self {
            Initiator::Superadmin => {
                proof { reveal_strlit("1"); }
                "1".to_owned()
            },
            Initiator::User(id) => i32_to_string(*id),
        }
    }

    /// The headers of calls made on this initiator's behalf: its
    /// `Authorization` and nothing else.
    pub fn into_headers(self) -> (r: Headers)
        ensures
            r@.authorization == Some(initiator_authorization(self)),
            r@.correlation_token is None,
            r@.currency is None,
    {
        Headers { authorization: Some(self.authorization()), correlation_token: None, currency: None }
    }
}

/// A client that sends HTTP requests; what comes back is the implementor's
/// business (a future, a response, a record in a test).
pub trait HttpClient {
    type Reply;

    /// Whether `reply` is an answer that this client may give to a request
    /// with this method, URL, body and headers; a client that says nothing
    /// of its answers allows every one.
    open spec fn answers(
        &self,
        method: Method,
        url: Seq<char>,
        body: Option<Seq<char>>,
        headers: Option<HeadersView>,
        reply: Self::Reply,
    ) -> bool {
        true
    }

    /// Sends a request; what comes back is one of the client's answers to it.
    fn request(&self, method: Method, url: String, body: Option<String>, headers: Option<Headers>) -> (r: Self::Reply)
        ensures
            self.answers(method, url@, opt_text(body), opt_headers_view(headers), r),
    ;
}

/// A client that adds default headers to every request of an inner client.
pub struct HttpClientWithDefaultHeaders<S: HttpClient> {
    inner: S,
    headers: Headers,
}

/// The headers that a client with default headers `defaults` hands on for a
/// request that carries `given`: the given ones laid over the defaults.
pub open spec fn request_headers_of(defaults: HeadersView, given: Option<HeadersView>) -> HeadersView {
    match given {
        Some(g) => overlay_headers(defaults, g),
        None => defaults,
    }
}

pub open spec fn opt_headers_view(h: Option<Headers>) -> Option<HeadersView> {
    match h {
        Some(x) => Some(x@),
        None => None,
    }
}

impl<S: HttpClient> HttpClientWithDefaultHeaders<S> {
    pub fn new(client: S, headers: Headers) -> (r: Self)
        ensures
            r.default_headers() == headers@,
    {
        HttpClientWithDefaultHeaders { inner: client, headers }
    }

    pub closed spec fn default_headers(&self) -> HeadersView {
        self.headers@
    }

    /// The client that the requests are handed on to.
    pub closed spec fn inner(&self) -> S {
        self.inner
    }

    /// The headers handed on to the inner client for a request that carries
    /// `headers`.
    pub fn headers_for(&self, headers: Option<Headers>) -> (r: Headers)
        ensures
            r@ == request_headers_of(self.default_headers(), opt_headers_view(headers)),
    {
        match headers {
            Some(h) => self.headers.extended_with(&h),
            None => self.headers.duplicate(),
        }
    }
}

impl<S: HttpClient> HttpClient for HttpClientWithDefaultHeaders<S> {
    type Reply = S::Reply;

    /// The answers of this client are those that the inner client gives to
    /// the same request carrying the headers that `headers_for` gives.
    open spec fn answers(
        &self,
        method: Method,
        url: Seq<char>,
        body: Option<Seq<char>>,
        headers: Option<HeadersView>,
        reply: S::Reply,
    ) -> bool {
        self.inner().answers(method, url, body, Some(request_headers_of(self.default_headers(), headers)), reply)
    }

    /// Sends the request through the inner client with the headers that
    /// `headers_for` gives.
    fn request(&self, method: Method, url: String, body: Option<String>, headers: Option<Headers>) -> (r: S::Reply) {
        let merged = self.headers_for(headers);
        self.inner.request(method, url, body, Some(merged))
    }
}

/// Headers given with a request override the client's defaults; defaults
/// that the request does not give stay. So when a client with defaults
/// `outer` wraps one with defaults `inner`, a request without headers
/// reaches the innermost client with `outer` laid over `inner`.
pub proof fn lemma_given_headers_override_defaults(inner: HeadersView, outer: HeadersView)
    ensures
        request_headers_of(inner, Some(request_headers_of(outer, None))) == overlay_headers(inner, outer),
        outer.authorization is Some ==> request_headers_of(inner, Some(outer)).authorization == outer.authorization,
        outer.authorization is None ==> request_headers_of(inner, Some(outer)).authorization == inner.authorization,
{
}

}
