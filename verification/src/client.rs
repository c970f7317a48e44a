//! The executable client contract: the `send`/`base` capability that every
//! transport or decorator provides, the shared `execute` behaviour layered
//! on top of it, and the bearer-token authenticating decorator.
use vstd::prelude::*;
use vstd::string::StringExecFns;
use vstd::utf8::{decode_utf8, valid_utf8};
use crate::errors::ClientError;
use crate::message::{Header, HeaderValue, Request, Response, header_lookup, without_name};

verus! {

/// Lowest status code that counts as a successful response.
pub const HTTP_SUCCESS_LOW: u16 = 200;

/// Highest status code that counts as a successful response.
pub const HTTP_SUCCESS_HIGH: u16 = 208;

/// Whether a status code lies in the fixed success range. The range is an
/// invariant of the execution contract, not configurable per call.
pub open spec fn in_success_range(code: u16) -> bool {
    HTTP_SUCCESS_LOW <= code <= HTTP_SUCCESS_HIGH
}

/// Reports whether a status code counts as success.
pub fn status_is_success(code: u16) -> (r: bool)
    ensures
        r == in_success_range(code),
{
    HTTP_SUCCESS_LOW <= code && code <= HTTP_SUCCESS_HIGH
}

/// Whether `content` is the body interpreted as UTF-8 text: present exactly
/// when the bytes are valid UTF-8, and then carrying their decoding.
pub open spec fn content_matches_body(content: Option<String>, body: Seq<u8>) -> bool {
    match content {
        Some(s) => valid_utf8(body) && s@ == decode_utf8(body),
        None => !valid_utf8(body),
    }
}

/// Relies on `String::from_utf8`: it succeeds exactly on valid UTF-8 input
/// and returns the text that the bytes encode.
#[verifier::external_body]
fn decode_body_text(bytes: &Vec<u8>) -> (r: Option<String>)
    ensures
        r is Some <==> valid_utf8(bytes@),
        r matches Some(s) ==> s@ == decode_utf8(bytes@),
{
    String::from_utf8(bytes.clone()).ok()
}

/// Validates a response against the success range: inside it, the response
/// is returned unchanged and no error is constructed; outside it, the
/// execution fails with a server response error carrying the status and the
/// body as text when the body decodes as UTF-8.
pub fn classify_response(resp: Response) -> (r: Result<Response, ClientError>)
    ensures
        in_success_range(resp.status) ==> r == Ok::<Response, ClientError>(resp),
        !in_success_range(resp.status) ==> (r matches Err(ClientError::ServerResponseError {
            code,
            content,
        }) && code == resp.status && content_matches_body(content, resp.body@)),
{
    if status_is_success(resp.status) {
        Ok(resp)
    } else {
        let content = decode_body_text(&resp.body);
        Err(ClientError::ServerResponseError { code: resp.status, content })
    }
}

/// Concludes one execution from whatever the dispatch returned: a failure
/// of `send` is propagated unchanged — no retry, no wrapping — and a
/// response is validated against the success range as `classify_response`
/// states.
pub fn conclude_execution(sent: Result<Response, ClientError>) -> (r: Result<
    Response,
    ClientError,
>)
    ensures
        sent matches Err(e) ==> r == Err::<Response, ClientError>(e),
        sent matches Ok(resp) ==> ({
            &&& in_success_range(resp.status) ==> r == Ok::<Response, ClientError>(resp)
            &&& !in_success_range(resp.status) ==> (r matches Err(
                ClientError::ServerResponseError { code, content },
            ) && code == resp.status && content_matches_body(content, resp.body@))
        }),
{
    match sent {
        Ok(resp) => classify_response(resp),
        Err(e) => Err(e),
    }
}

/// Law: observation is idempotent. The outcome of status validation is a
/// function of the response value alone, so executing equal requests
/// against a transport that answers them with equal responses yields the
/// same success or failure classification and, on failure, the same error
/// code and content.
pub proof fn lemma_observation_idempotent(first: Response, second: Response)
    requires
        first == second,
    ensures
        in_success_range(first.status) == in_success_range(second.status),
        first.status == second.status,
        valid_utf8(first.body@) == valid_utf8(second.body@),
        decode_utf8(first.body@) == decode_utf8(second.body@),
{
}

/// Whether a character may appear in a header value: tab, or any character
/// at or above the space character, the delete character excepted.
pub open spec fn legal_header_char(c: char) -> bool {
    c == '\t' || (c as u32 >= 32 && c as u32 != 127)
}

/// Whether a string is a legal header value: every character of it is.
pub open spec fn legal_header_value(s: Seq<char>) -> bool {
    forall|i: int| 0 <= i < s.len() ==> legal_header_char(s[i])
}

/// Relies on `http::HeaderValue::from_str`: it accepts a string exactly
/// when every byte of it is the tab byte, or lies at 32 or above and is not
/// 127. Stated per character: a character below 128 is encoded as the one
/// byte equal to its own code, and every byte of a longer encoding lies at
/// 128 or above, so the byte rule and the character rule coincide.
#[verifier::external_body]
fn check_header_value(s: &str) -> (r: Result<(), String>)
    ensures
        r is Ok <==> legal_header_value(s@),
{
    match http::HeaderValue::from_str(s) {
        Ok(_) => Ok(()),
        Err(e) => Err(format!("{}", e)),
    }
}

/// The name of the header the authenticating decorator overwrites.
pub open spec fn authorization_name() -> Seq<char> {
    "Authorization"@
}

/// The header value the authenticating decorator formats for a token.
pub open spec fn bearer_text(token: Seq<char>) -> Seq<char> {
    "Bearer "@ + token
}

/// Builds the outgoing request of the authenticating decorator: formats
/// `Bearer <token>`, and either overwrites the `Authorization` header with
/// that value marked sensitive, or — when the value is not a legal header
/// value — fails with a generic error wrapping the cause, in which case no
/// request is handed on.
pub fn authorize_request(req: Request, token: &str) -> (r: Result<Request, ClientError>)
    ensures
        r is Ok <==> legal_header_value(bearer_text(token@)),
        r matches Ok(a) ==> ({
            &&& a.method == req.method
            &&& a.uri == req.uri
            &&& a.body == req.body
            &&& a.headers@.len() == without_name(req.headers@, authorization_name()).len() + 1
            &&& a.headers@.drop_last() == without_name(req.headers@, authorization_name())
            &&& a.headers@.last().name@ == authorization_name()
            &&& a.headers@.last().value.text@ == bearer_text(token@)
            &&& a.headers@.last().value.sensitive
            &&& header_lookup(a.headers@, authorization_name()) == Some(a.headers@.last().value)
        }),
        r matches Err(e) ==> (e matches ClientError::GenericError { .. }),
{
    let bearer = "Bearer ".to_owned().concat(token);
    match check_header_value(bearer.as_str()) {
        Ok(()) => {
            let mut authed = req;
            authed.set_header("Authorization", HeaderValue { text: bearer, sensitive: true });
            Ok(authed)
        },
        Err(cause) => Err(ClientError::GenericError { source: cause }),
    }
}

/// Law: when two bearer decorations are applied in turn — the header seqs
/// `once` and `twice` standing to `base` and to `once` as the decorator's
/// postcondition states — the decoration applied later, by the decorator
/// standing nearer the transport, overwrites the earlier one: only its
/// entry remains, and its value is the one looked up.
pub proof fn lemma_later_authorization_wins(
    base: Seq<Header>,
    once: Seq<Header>,
    twice: Seq<Header>,
)
    requires
        once.len() == without_name(base, authorization_name()).len() + 1,
        once.drop_last() == without_name(base, authorization_name()),
        once.last().name@ == authorization_name(),
        twice.len() == without_name(once, authorization_name()).len() + 1,
        twice.drop_last() == without_name(once, authorization_name()),
        twice.last().name@ == authorization_name(),
    ensures
        twice == without_name(base, authorization_name()).push(twice.last()),
        header_lookup(twice, authorization_name()) == Some(twice.last().value),
{
    let n = authorization_name();
    assert(once =~= without_name(base, n).push(once.last()));
    crate::message::lemma_without_name_push(without_name(base, n), once.last(), n);
    crate::message::lemma_without_name_idempotent(base, n);
    assert(twice =~= twice.drop_last().push(twice.last()));
}

/// The capability every transport or decorator provides: one request and
/// response exchange, and the configured base URL. `execute` is the shared
/// behaviour layered on top of it; implementers supply only `send` and
/// `base`.
pub trait Client: Sync + Send {
    /// Performs one request/response exchange, consolidating every
    /// underlying failure into `ClientError`. What comes back depends on
    /// the remote service, so nothing is promised of the result.
    fn send(&self, req: Request) -> Result<Response, ClientError>;

    /// The base URL of this client, as a mathematical value; each
    /// implementer defines what it is configured with.
    spec fn base_spec(&self) -> Seq<char>;

    /// The base URL this client is configured with: a pure accessor,
    /// returning exactly `base_spec`.
    fn base(&self) -> (r: &str)
        ensures
            r@ == self.base_spec(),
    ;

    /// Executes a request: dispatches it through `send`, propagates any
    /// failure unchanged, and validates the status of the response against
    /// the fixed success range. What is returned for each dispatch outcome
    /// is what `conclude_execution` states; of an arbitrary implementer of
    /// `send` no more can be promised here. The records surrounding the
    /// exchange are built by `sending_request_event` and
    /// `response_received_event`; collecting them is a concern outside this
    /// core.
    fn execute(&self, req: Request) -> (r: Result<Response, ClientError>)
        ensures
            r matches Ok(resp) ==> in_success_range(resp.status),
    {
        conclude_execution(self.send(req))
    }
}

/// Client decorator that overwrites the `Authorization` header of every
/// outgoing request with `Bearer <token>`, marked sensitive, before
/// delegating to the wrapped client. It satisfies the same contract as any
/// client, so decorators can wrap each other in an arbitrary-depth chain.
pub struct BearerTokenAuthClient<C: Client> {
    pub token: String,
    pub client: C,
}

impl<C: Client> BearerTokenAuthClient<C> {
    /// Wraps `client`, copying `token` into owned storage.
    pub fn new(client: C, token: &str) -> (r: Self)
        ensures
            r.token@ == token@,
            r.client == client,
    {
        BearerTokenAuthClient { client, token: token.to_owned() }
    }
}

impl<C: Client> Client for BearerTokenAuthClient<C> {
    /// The decorator's base URL is the wrapped client's.
    open spec fn base_spec(&self) -> Seq<char> {
        self.client.base_spec()
    }

    /// Delegates verbatim to the wrapped client.
    fn base(&self) -> (r: &str)
        ensures
            r@ == self.client.base_spec(),
    {
        self.client.base()
    }

    /// Authorizes the request as `authorize_request` states, then delegates
    /// to the wrapped client; when the token cannot form a legal header
    /// value, fails with its generic error and delegates to nothing. Every
    /// other outcome comes from the wrapped client, so a server response
    /// error can only arrive when the token was legal.
    fn send(&self, req: Request) -> (r: Result<Response, ClientError>)
        ensures
            !legal_header_value(bearer_text(self.token@)) ==> (r matches Err(
                ClientError::GenericError { .. },
            )),
            r matches Err(ClientError::ServerResponseError { .. }) ==> legal_header_value(
                bearer_text(self.token@),
            ),
    {
        match authorize_request(req, self.token.as_str()) {
            Ok(authed) => self.client.send(authed),
            Err(e) => Err(e),
        }
    }
}

} // verus!
