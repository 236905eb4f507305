use std::collections::VecDeque;
use std::sync::{Arc, Mutex};

use saga_coordinator::http::{
    default_headers, stores_headers, Headers, HttpClient, HttpClientWithDefaultHeaders, Initiator, Method,
};

#[derive(Debug, Clone)]
struct Request {
    method: Method,
    url: String,
    body: Option<String>,
    headers: Option<Headers>,
}

#[derive(Clone)]
struct MockHttpClient {
    requests: Arc<Mutex<VecDeque<Request>>>,
}

impl MockHttpClient {
    fn new() -> MockHttpClient {
        MockHttpClient {
            requests: Arc::new(Mutex::new(VecDeque::new())),
        }
    }

    fn next_request(&self) -> Option<Request> {
        self.requests.lock().unwrap().pop_front()
    }
}

impl HttpClient for MockHttpClient {
    type Reply = ();

    fn request(&self, method: Method, url: String, body: Option<String>, headers: Option<Headers>) {
        self.requests.lock().unwrap().push_back(Request { method, url, body, headers });
    }
}

fn headers(auth_header: &str) -> Headers {
    let mut headers = Headers::empty();
    headers.authorization = Some(auth_header.to_string());
    headers
}

#[test]
fn new_headers_override_existing_headers() {
    //given
    let mock_client = MockHttpClient::new();
    let client_with_old_default_headers = HttpClientWithDefaultHeaders::new(mock_client.clone(), headers("old_auth"));
    let client_with_new_headers = HttpClientWithDefaultHeaders::new(client_with_old_default_headers, headers("new_auth"));
    //when
    client_with_new_headers.request(Method::Get, "url".to_string(), None, None);
    //then
    assert_eq!(
        mock_client.next_request().unwrap().headers.unwrap().authorization,
        Some("new_auth".to_string())
    )
}

#[test]
fn defaults_stay_where_request_headers_are_missing() {
    let mock_client = MockHttpClient::new();
    let mut defaults = headers("default_auth");
    defaults.correlation_token = Some("token-1".to_string());
    let client = HttpClientWithDefaultHeaders::new(mock_client.clone(), defaults);
    client.request(Method::Post, "url".to_string(), Some("{}".to_string()), Some(headers("given_auth")));
    let sent = mock_client.next_request().unwrap();
    assert_eq!(sent.method, Method::Post);
    assert_eq!(sent.url, "url");
    assert_eq!(sent.body, Some("{}".to_string()));
    let h = sent.headers.unwrap();
    assert_eq!(h.authorization, Some("given_auth".to_string()));
    assert_eq!(h.correlation_token, Some("token-1".to_string()));
    assert_eq!(h.currency, None);
}

#[test]
fn initiator_authorization_values() {
    assert_eq!(Initiator::Superadmin.authorization(), "1");
    assert_eq!(Initiator::User(42).authorization(), "42");
    assert_eq!(Initiator::User(-7).authorization(), "-7");
    assert_eq!(Initiator::User(i32::MIN).authorization(), "-2147483648");
    assert_eq!(Initiator::User(0).into_headers().authorization, Some("0".to_string()));
}

#[test]
fn request_headers_are_filtered() {
    let mut incoming = headers("user-5");
    incoming.correlation_token = Some("corr".to_string());
    incoming.currency = Some("EUR".to_string());
    let d = default_headers(&incoming);
    assert_eq!(d.authorization, Some("user-5".to_string()));
    assert_eq!(d.correlation_token, Some("corr".to_string()));
    assert_eq!(d.currency, None);
    let s = stores_headers(&incoming);
    assert_eq!(s.currency, Some("STQ".to_string()));
    assert_eq!(s.authorization, Some("user-5".to_string()));
}
