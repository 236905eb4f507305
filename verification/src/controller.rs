//! What the HTTP front of the coordinator decides on its own: which endpoint
//! a request reaches, how long the calls made for it may take, which headers
//! they carry, and which failures are reported.
use vstd::prelude::*;

use crate::config::Config;
use crate::errors::{error_code, Error};
use crate::http::{default_headers, overlay_headers, stores_headers, Headers, HeadersView, Initiator, Method};
use crate::microservice::ApiCall;
use crate::routes::{parse_route, route_of_path, Route};
use crate::text::{all_digits, decimal_value, is_ascii_digit, is_digits, lemma_decimal_prefix_le, text_chars};

verus! {

/// The number that a text writes, as `u64::from_str` reads it: an optional
/// `+`, then a non-empty run of ASCII digits whose number fits a `u64`.
pub open spec fn u64_of_text(s: Seq<char>) -> Option<u64> {
    let digits = if s.len() > 0 && s[0] == '+' { s.drop_first() } else { s };
    if is_digits(digits) && decimal_value(digits) <= u64::MAX {
        Some(decimal_value(digits) as u64)
    } else {
        None
    }
}

/// Reads a non-empty run of ASCII digits as a `u64`: `None` where the
/// number does not fit.
fn parse_u64_digits(s: &Vec<char>) -> (r: Option<u64>)
    requires
        is_digits(s@),
    ensures
        r == (if decimal_value(s@) <= u64::MAX { Some(decimal_value(s@) as u64) } else { None::<u64> }),
{
    let mut acc: u128 = 0;
    let mut i: usize = 0;
    assert(s@.take(0) =~= Seq::<char>::empty());
    while i < s.len()
        invariant
            is_digits(s@),
            i <= s.len(),
            acc == decimal_value(s@.take(i as int)),
            acc <= u64::MAX,
        decreases s.len() - i,
    {
        let c = s[i];
        assert(is_ascii_digit(s@[i as int]));
        assert(s@.take(i as int + 1).drop_last() =~= s@.take(i as int));
        acc = acc * 10 + ((c as u32) - ('0' as u32)) as u128;
        i = i + 1;
        if acc > 18446744073709551615 {
            proof {
                lemma_decimal_prefix_le(s@, i as int);
            }
            return None;
        }
    }
    assert(s@.take(s@.len() as int) =~= s@);
    Some(acc as u64)
}

/// Reads a text as `u64::from_str` does: `None` where it is not a number or
/// the number does not fit.
pub fn parse_u64(s: &str) -> (r: Option<u64>)
    ensures
        r == u64_of_text(s@),
{
    let chars = text_chars(s);
    let start: usize = if chars.len() > 0 && chars[0] == '+' { 1 } else { 0 };
    let mut digits: Vec<char> = Vec::new();
    let mut i: usize = start;
    while i < chars.len()
        invariant
            start <= i <= chars.len(),
            digits@ =~= chars@.subrange(start as int, i as int),
        decreases chars.len() - i,
    {
        digits.push(chars[i]);
        i = i + 1;
    }
    assert(digits@ =~= (if s@.len() > 0 && s@[0] == '+' { s@.drop_first() } else { s@ }));
    if all_digits(&digits) {
        parse_u64_digits(&digits)
    } else {
        None
    }
}

/// How long the calls made for a request may take, in milliseconds: the
/// request's own timeout where its header reads as a number, the client's
/// otherwise, less the time that processing takes (nothing where that is
/// more).
pub open spec fn request_timeout(header: Option<Seq<char>>, http_timeout_ms: u64, processing_timeout_ms: u64) -> u64 {
    let given = match header {
        Some(h) => match u64_of_text(h) {
            Some(v) => v,
            None => http_timeout_ms,
        },
        None => http_timeout_ms,
    };
    if given >= processing_timeout_ms {
        (given - processing_timeout_ms) as u64
    } else {
        0
    }
}

/// Whether the coordinator serves a route: every one but the update of a
/// base product and the creation of one with variants.
pub open spec fn is_served(r: Route) -> bool {
    !(r is BaseProductUpdate) && !(r is BaseProductCreateWithVariants)
}

/// The endpoint that a request reaches: a served route, by `POST` only.
/// `method` is `None` for a method other than the four the coordinator
/// names.
pub open spec fn endpoint_of(method: Option<Method>, path: Seq<char>) -> Option<Route> {
    match route_of_path(path) {
        Some(r) => if method == Some(Method::Post) && is_served(r) { Some(r) } else { None },
        None => None,
    }
}

/// The headers of a call made for a request: the request's default ones
/// (with the currency `STQ` for the stores microservice), with the
/// initiator's `Authorization` laid over them.
pub open spec fn call_headers_of(to_stores: bool, request: HeadersView, initiator: Option<Initiator>) -> HeadersView {
    let defaults = HeadersView {
        authorization: request.authorization,
        correlation_token: request.correlation_token,
        currency: if to_stores { Some("STQ"@) } else { None },
    };
    match initiator {
        Some(i) => overlay_headers(defaults, HeadersView {
            authorization: Some(crate::http::initiator_authorization(i)),
            correlation_token: None,
            currency: None,
        }),
        None => defaults,
    }
}

/// The time left for the calls is the request's timeout less the time that
/// processing takes, and nothing where processing takes longer; without a
/// header, or with one that does not read as a number, the client's own
/// timeout stands in for the request's.
pub proof fn lemma_timeout_leaves_processing_time(header: Seq<char>, http_timeout_ms: u64, processing_timeout_ms: u64)
    ensures
        processing_timeout_ms <= http_timeout_ms
            ==> request_timeout(None, http_timeout_ms, processing_timeout_ms) + processing_timeout_ms == http_timeout_ms,
        http_timeout_ms < processing_timeout_ms ==> request_timeout(None, http_timeout_ms, processing_timeout_ms) == 0,
        u64_of_text(header) is None ==> request_timeout(Some(header), http_timeout_ms, processing_timeout_ms)
            == request_timeout(None, http_timeout_ms, processing_timeout_ms),
        u64_of_text(header) matches Some(v) ==> request_timeout(Some(header), http_timeout_ms, processing_timeout_ms)
            == request_timeout(None, v, processing_timeout_ms),
{
}

/// The headers of a call keep the request's correlation token; they carry
/// the currency `STQ` exactly when the call goes to the stores
/// microservice; their `Authorization` is the initiator's where the call is
/// made on someone's behalf, and the request's own otherwise.
pub proof fn lemma_call_headers(to_stores: bool, request: HeadersView, initiator: Option<Initiator>)
    ensures
        call_headers_of(to_stores, request, initiator).correlation_token == request.correlation_token,
        call_headers_of(to_stores, request, initiator).currency == (if to_stores { Some("STQ"@) } else { None::<Seq<char>> }),
        initiator matches Some(i) ==> call_headers_of(to_stores, request, initiator).authorization
            == Some(crate::http::initiator_authorization(i)),
        initiator is None ==> call_headers_of(to_stores, request, initiator).authorization == request.authorization,
{
}

/// A request reaches an endpoint only by `POST`, and only on a path that
/// names a route that the coordinator serves; then it reaches that route.
pub proof fn lemma_endpoint_only_by_post(method: Option<Method>, path: Seq<char>)
    ensures
        method != Some(Method::Post) ==> endpoint_of(method, path) is None,
        route_of_path(path) is None ==> endpoint_of(method, path) is None,
        route_of_path(path) matches Some(r) ==> (endpoint_of(Some(Method::Post), path) == if is_served(r) {
            Some(r)
        } else {
            None::<Route>
        }),
{
}

/// The front of the coordinator, with its configuration.
#[derive(Debug)]
pub struct ControllerImpl {
    pub config: Config,
}

impl ControllerImpl {
    pub fn new(config: Config) -> (r: ControllerImpl)
        ensures
            r.config == config,
    {
        ControllerImpl { config }
    }

    /// How long the calls made for a request whose timeout header is
    /// `header` may take, in milliseconds.
    pub fn request_timeout_ms(&self, header: Option<&str>) -> (r: u64)
        ensures
            r == request_timeout(
                match header { Some(h) => Some(h@), None => None::<Seq<char>> },
                self.config.client.http_timeout_ms,
                self.config.service.processing_timeout_ms,
            ),
    {
        let given = match header {
            Some(h) => match parse_u64(h) {
                Some(v) => v,
                None => self.config.client.http_timeout_ms,
            },
            None => self.config.client.http_timeout_ms,
        };
        let processing = self.config.service.processing_timeout_ms;
        if given >= processing {
            given - processing
        } else {
            0
        }
    }

    /// The endpoint that a request reaches; `NotFound` for any other request.
    pub fn endpoint(&self, method: Option<Method>, path: &str) -> (r: Result<Route, Error>)
        ensures
            match endpoint_of(method, path@) {
                Some(rt) => r == Ok::<Route, Error>(rt),
                None => r matches Err(e) && e is NotFound,
            },
    {
        match parse_route(path) {
            Some(rt) => {
                let post = match method {
                    Some(Method::Post) => true,
                    _ => false,
                };
                let served = match rt {
                    Route::BaseProductUpdate(_) | Route::BaseProductCreateWithVariants => false,
                    _ => true,
                };
                if post && served {
                    Ok(rt)
                } else {
                    Err(Error::NotFound)
                }
            },
            None => Err(Error::NotFound),
        }
    }

    /// The headers of `call`, made for a request that carried `request` on
    /// behalf of `initiator`.
    pub fn call_headers(&self, call: &ApiCall, request: &Headers, initiator: Option<Initiator>) -> (r: Headers)
        ensures
            r@ == call_headers_of(call is Stores, request@, initiator),
    {
        let defaults = match call {
            ApiCall::Stores(_) => stores_headers(request),
            _ => default_headers(request),
        };
        match initiator {
            Some(i) => defaults.extended_with(&i.into_headers()),
            None => defaults,
        }
    }

    /// Whether a failure is reported to the error tracker: those answered
    /// with status 500.
    pub fn is_reported(&self, e: &Error) -> (r: bool)
        ensures
            r == (error_code(e) == 500),
    {
        e.code() == 500
    }
}

}
