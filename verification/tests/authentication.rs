use std::sync::Mutex;

use rustify::client::{authorize_request, BearerTokenAuthClient, Client};
use rustify::errors::ClientError;
use rustify::message::{Header, HeaderValue, Request, Response};

fn plain_request() -> Request {
    Request {
        method: "GET".to_string(),
        uri: "http://localhost/v1/test".to_string(),
        headers: Vec::new(),
        body: Vec::new(),
    }
}

struct CapturingTransport {
    seen: Mutex<Vec<Request>>,
}

impl CapturingTransport {
    fn new() -> Self {
        CapturingTransport { seen: Mutex::new(Vec::new()) }
    }
}

impl Client for CapturingTransport {
    fn send(&self, req: Request) -> Result<Response, ClientError> {
        self.seen.lock().unwrap().push(req);
        Ok(Response { status: 200, headers: Vec::new(), body: Vec::new() })
    }

    fn base_spec(&self) -> vstd::seq::Seq<char> {
        // Ghost member of the contract; never invoked at run time.
        unreachable!()
    }

    fn base(&self) -> &str {
        "http://localhost"
    }
}

fn authorization_entries(req: &Request) -> Vec<&Header> {
    req.headers.iter().filter(|h| h.name == "Authorization").collect()
}

#[test]
fn bearer_token_overwrites_authorization_header() {
    let client = BearerTokenAuthClient::new(CapturingTransport::new(), "abc");
    let req = Request {
        method: "GET".to_string(),
        uri: "http://localhost/v1/test".to_string(),
        headers: vec![
            Header {
                name: "Accept".to_string(),
                value: HeaderValue { text: "application/json".to_string(), sensitive: false },
            },
            Header {
                name: "Authorization".to_string(),
                value: HeaderValue { text: "Bearer stale".to_string(), sensitive: false },
            },
        ],
        body: Vec::new(),
    };
    assert!(client.execute(req).is_ok());
    let seen = client.client.seen.lock().unwrap();
    assert_eq!(seen.len(), 1);
    let auth = authorization_entries(&seen[0]);
    assert_eq!(auth.len(), 1);
    assert_eq!(auth[0].value.text, "Bearer abc");
    assert!(auth[0].value.sensitive);
    assert!(seen[0]
        .headers
        .iter()
        .any(|h| h.name == "Accept" && h.value.text == "application/json"));
}

#[test]
fn authorize_request_appends_exact_bearer_value() {
    let authed = authorize_request(plain_request(), "abc").unwrap();
    assert_eq!(authed.headers.len(), 1);
    let last = authed.headers.last().unwrap();
    assert_eq!(last.name, "Authorization");
    assert_eq!(last.value.text, "Bearer abc");
    assert!(last.value.sensitive);
}

#[test]
fn chained_decorators_innermost_token_is_sent() {
    let inner = BearerTokenAuthClient::new(CapturingTransport::new(), "inner-token");
    let outer = BearerTokenAuthClient::new(inner, "outer-token");
    assert!(outer.execute(plain_request()).is_ok());
    let seen = outer.client.client.seen.lock().unwrap();
    assert_eq!(seen.len(), 1);
    let auth = authorization_entries(&seen[0]);
    assert_eq!(auth.len(), 1);
    // The decorator standing nearer the transport writes its header last,
    // so its token is the one that reaches the transport.
    assert_eq!(auth[0].value.text, "Bearer inner-token");
}

#[test]
fn illegal_token_fails_without_reaching_transport() {
    let client = BearerTokenAuthClient::new(CapturingTransport::new(), "abc\ndef");
    match client.execute(plain_request()) {
        Err(ClientError::GenericError { .. }) => {}
        _ => panic!("a token with a control byte cannot form a header value"),
    }
    assert_eq!(client.client.seen.lock().unwrap().len(), 0);
}

#[test]
fn delete_character_token_is_rejected() {
    let r = authorize_request(plain_request(), "ab\u{7f}");
    assert!(matches!(r, Err(ClientError::GenericError { .. })));
}

#[test]
fn tab_and_high_characters_form_legal_values() {
    assert!(authorize_request(plain_request(), "a\tb").is_ok());
    assert!(authorize_request(plain_request(), "caf\u{e9}").is_ok());
}

#[test]
fn base_delegates_to_wrapped_client() {
    let client = BearerTokenAuthClient::new(CapturingTransport::new(), "abc");
    assert_eq!(client.base(), "http://localhost");
    let outer = BearerTokenAuthClient::new(client, "def");
    assert_eq!(outer.base(), "http://localhost");
}
