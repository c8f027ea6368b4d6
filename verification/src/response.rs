use vstd::prelude::*;

use vstd::string::{StrSliceExecFns, StringSliceAdditionalSpecFns};

use crate::decimal::{
    is_digit_char, lemma_decimal_all_digits, lemma_decimal_value_roundtrip, spec_decimal,
    spec_decimal_value, u64_to_decimal,
};
use crate::echo_request::EchoRequest;
use crate::headers::{check_header_value, valid_header_char, valid_header_value};
use crate::request_id::{is_uuid_text, lemma_uuid_text_valid_header, resolve_request_id};
use crate::resolve::{resolve, spec_resolved_delay, spec_status};

verus! {

/// The HTTP method of an inbound request, as far as the service cares:
/// the write methods echo the request body back, `GET` does not.
#[derive(Clone, Copy, Debug, PartialEq, Eq, Structural)]
pub enum EchoMethod {
    Get,
    Post,
    Put,
}

/// Whether `m` echoes the request body (and a content type) back.
pub open spec fn is_write_method(m: EchoMethod) -> bool {
    !(m is Get)
}

/// One route of the service.
#[derive(Clone, Copy, Debug, PartialEq, Eq, Structural)]
pub enum Route {
    /// `/` — the echo handler, inside the diagnostic middleware.
    Echo,
    /// `/healthz` — the liveness check, outside the middleware.
    Healthz,
    /// Any other path.
    NotFound,
}

/// The routing table, over the request path.
pub open spec fn spec_route(path: Seq<char>) -> Route {
    if path == "/"@ {
        Route::Echo
    } else if path == "/healthz"@ {
        Route::Healthz
    } else {
        Route::NotFound
    }
}

/// Character-wise string equality.
fn str_eq(a: &str, b: &str) -> (r: bool)
    ensures
        r == (a@ == b@),
{
    let alen = a.unicode_len();
    let blen = b.unicode_len();
    if alen != blen {
        return false;
    }
    let mut i: usize = 0;
    while i < alen
        invariant
            i <= alen,
            alen == a@.len(),
            alen == b@.len(),
            forall|j: int| 0 <= j < i ==> a@[j] == b@[j],
        decreases alen - i,
    {
        if a.get_char(i) != b.get_char(i) {
            return false;
        }
        i += 1;
    }
    proof {
        assert(a@ =~= b@);
    }
    true
}

/// Dispatch a request path to its route.
pub fn route_of(path: &str) -> (r: Route)
    ensures
        r == spec_route(path@),
{
    if str_eq(path, "/") {
        Route::Echo
    } else if str_eq(path, "/healthz") {
        Route::Healthz
    } else {
        Route::NotFound
    }
}

/// The plain values of one inbound request, as the transport hands them
/// over: the method, the parsed query, the consumed headers, the peer
/// address and the body bytes.
#[derive(Debug)]
pub struct InboundRequest {
    pub method: EchoMethod,
    /// The parsed query parameters.
    pub query: EchoRequest,
    /// Inbound `x-request-id` header, if any.
    pub request_id: Option<String>,
    /// Inbound `x-real-ip` header, if any.
    pub real_ip: Option<String>,
    /// Inbound `x-forwarded-for` header, if any.
    pub forwarded_for: Option<String>,
    /// Inbound `User-Agent` header, if any.
    pub user_agent: Option<String>,
    /// Inbound `Content-Type` header, if any.
    pub content_type: Option<String>,
    /// The transport-level peer address, rendered as text.
    pub peer_addr: String,
    /// The request body.
    pub body: Vec<u8>,
}

impl InboundRequest {
    /// What the transport guarantees about a request it parsed: an
    /// inbound `x-request-id` value is already a legal header value.
    pub open spec fn wf(self) -> bool {
        self.request_id matches Some(v) ==> valid_header_value(v@)
    }
}

/// The client address the response reports: a `real-ip`-style header
/// wins, then a `forwarded-for`-style header, then the peer address.
pub open spec fn spec_client_ip(req: InboundRequest) -> Seq<char> {
    match req.real_ip {
        Some(ip) => ip@,
        None => match req.forwarded_for {
            Some(ip) => ip@,
            None => req.peer_addr@,
        },
    }
}

/// The user agent the response reports: the inbound value, or empty.
pub open spec fn spec_user_agent(req: InboundRequest) -> Seq<char> {
    match req.user_agent {
        Some(ua) => ua@,
        None => Seq::empty(),
    }
}

/// The content type echoed on write methods: the inbound value, or
/// `text/plain`.
pub open spec fn spec_content_type(req: InboundRequest) -> Seq<char> {
    match req.content_type {
        Some(ct) => ct@,
        None => "text/plain"@,
    }
}

/// The statuses the response transport accepts: three-digit codes.
pub open spec fn transport_accepts(s: int) -> bool {
    100 <= s <= 999
}

/// Why composing an echo response failed. Either way the service answers
/// the request with a server error instead of aborting.
#[derive(Clone, Copy, Debug, PartialEq, Eq, Structural)]
pub enum EchoError {
    /// The effective status is not one the transport accepts.
    InvalidStatus,
    /// A computed header value holds a character illegal in a header.
    IllegalHeaderValue,
}

/// The description of an error, used as the server-error response body.
pub open spec fn spec_message(e: EchoError) -> Seq<char> {
    match e {
        EchoError::InvalidStatus => "invalid status code"@,
        EchoError::IllegalHeaderValue => "illegal header value"@,
    }
}

impl EchoError {
    /// A short description of the error.
    pub fn message(&self) -> (r: &'static str)
        ensures
            r@ == spec_message(*self),
    {
        match self {
            EchoError::InvalidStatus => "invalid status code",
            EchoError::IllegalHeaderValue => "illegal header value",
        }
    }
}

/// The echo handler's response: the effective status, the client-context
/// headers, and the echoed body.
#[derive(Debug)]
pub struct EchoResponse {
    /// The effective status, accepted by the transport.
    pub status: u16,
    /// Value of the client-address header.
    pub client_ip: String,
    /// Value of the client-user-agent header.
    pub user_agent: String,
    /// Value of the content-type header; present for write methods only.
    pub content_type: Option<String>,
    /// The response body: the request body for write methods, else empty.
    pub body: Vec<u8>,
}

impl EchoResponse {
    /// Every header value the response emits is legal.
    pub open spec fn wf(self) -> bool {
        &&& valid_header_value(self.client_ip@)
        &&& valid_header_value(self.user_agent@)
        &&& (self.content_type matches Some(ct) ==> valid_header_value(ct@))
    }
}

/// When the echo handler owes a successful response: the effective
/// status is acceptable and every header value it would emit is legal.
pub open spec fn spec_echo_accepted(req: InboundRequest) -> bool {
    &&& transport_accepts(spec_status(req.query))
    &&& valid_header_value(spec_client_ip(req))
    &&& valid_header_value(spec_user_agent(req))
    &&& (is_write_method(req.method) ==> valid_header_value(spec_content_type(req)))
}

/// Copy a byte buffer.
fn copy_bytes(src: &Vec<u8>) -> (r: Vec<u8>)
    ensures
        r@ == src@,
{
    let mut out: Vec<u8> = Vec::new();
    let n = src.len();
    let mut i: usize = 0;
    while i < n
        invariant
            i <= n,
            n == src.len(),
            out@ == src@.subrange(0, i as int),
        decreases n - i,
    {
        out.push(src[i]);
        i += 1;
    }
    proof {
        assert(out@ =~= src@);
    }
    out
}

/// Compose the echo handler's response to an inbound request.
///
/// On success the response carries the effective status, the selected
/// client headers, and — for write methods — the inbound content type
/// (or `text/plain`) with the request body echoed verbatim. It fails
/// with `InvalidStatus` exactly when the effective status is not a
/// three-digit code, and with `IllegalHeaderValue` exactly when the
/// status is fine but a selected header value holds an illegal
/// character.
pub fn compose_echo(req: &InboundRequest) -> (r: Result<EchoResponse, EchoError>)
    ensures
        r is Ok <==> spec_echo_accepted(*req),
        r matches Ok(resp) ==> resp.status == spec_status(req.query),
        r matches Ok(resp) ==> resp.client_ip@ == spec_client_ip(*req),
        r matches Ok(resp) ==> resp.user_agent@ == spec_user_agent(*req),
        r matches Ok(resp) ==> (is_write_method(req.method) ==> (resp.content_type matches Some(ct)
            && ct@ == spec_content_type(*req))),
        r matches Ok(resp) ==> (!is_write_method(req.method) ==> resp.content_type is None),
        r matches Ok(resp) ==> resp.body@ == (if is_write_method(req.method) {
            req.body@
        } else {
            Seq::<u8>::empty()
        }),
        r matches Ok(resp) ==> resp.wf(),
        r matches Err(e) ==> (e is InvalidStatus <==> !transport_accepts(spec_status(req.query))),
{
    let resolved = resolve(&req.query);
    if resolved.http_status < 100 || resolved.http_status > 999 {
        return Err(EchoError::InvalidStatus);
    }
    let status: u16 = resolved.http_status as u16;
    let client_ip: String = match &req.real_ip {
        Some(ip) => ip.clone(),
        None => match &req.forwarded_for {
            Some(ip) => ip.clone(),
            None => req.peer_addr.clone(),
        },
    };
    if !check_header_value(client_ip.as_str()) {
        return Err(EchoError::IllegalHeaderValue);
    }
    let user_agent: String = match &req.user_agent {
        Some(ua) => ua.clone(),
        None => String::new(),
    };
    if !check_header_value(user_agent.as_str()) {
        return Err(EchoError::IllegalHeaderValue);
    }
    let is_write = match req.method {
        EchoMethod::Get => false,
        EchoMethod::Post => true,
        EchoMethod::Put => true,
    };
    let content_type: Option<String> = if is_write {
        let ct: String = match &req.content_type {
            Some(c) => c.clone(),
            None => "text/plain".to_owned(),
        };
        if !check_header_value(ct.as_str()) {
            return Err(EchoError::IllegalHeaderValue);
        }
        Some(ct)
    } else {
        None
    };
    let body: Vec<u8> = if is_write {
        copy_bytes(&req.body)
    } else {
        Vec::new()
    };
    Ok(EchoResponse { status, client_ip, user_agent, content_type, body })
}

/// The liveness handler: always healthy.
pub fn health() -> (s: u16)
    ensures
        s == 200,
{
    200
}

/// A complete response of the service, after every middleware stage.
#[derive(Debug)]
pub struct ServiceResponse {
    /// HTTP status.
    pub status: u16,
    /// `x-request-id`; absent only outside the diagnostic middleware.
    pub request_id: Option<String>,
    /// `x-response-time`, decimal text; absent only outside the timing
    /// middleware.
    pub response_time: Option<String>,
    /// The client-address header; echo route only.
    pub client_ip: Option<String>,
    /// The client-user-agent header; echo route only.
    pub user_agent: Option<String>,
    /// `content-type`; echo route, write methods only.
    pub content_type: Option<String>,
    /// Response body.
    pub body: Vec<u8>,
}

impl ServiceResponse {
    /// Every header value present on the response is legal.
    pub open spec fn wf(self) -> bool {
        &&& (self.request_id matches Some(v) ==> valid_header_value(v@))
        &&& (self.response_time matches Some(v) ==> valid_header_value(v@))
        &&& (self.client_ip matches Some(v) ==> valid_header_value(v@))
        &&& (self.user_agent matches Some(v) ==> valid_header_value(v@))
        &&& (self.content_type matches Some(v) ==> valid_header_value(v@))
    }
}

/// What the request-id and timing stages stamp onto a response that
/// passes through them: the inbound id verbatim or a fresh UUID, and the
/// measured milliseconds as decimal text.
pub open spec fn spec_diagnostics(req: InboundRequest, elapsed: u64, resp: ServiceResponse) -> bool {
    &&& (req.request_id matches Some(v) ==> resp.request_id == Some(v))
    &&& (req.request_id is None ==> (resp.request_id matches Some(g) && is_uuid_text(g@)))
    &&& (resp.response_time matches Some(t) && t@ == spec_decimal(elapsed as nat))
}

/// The liveness response: plain 200, no diagnostic headers, no body.
pub open spec fn spec_healthz_response(resp: ServiceResponse) -> bool {
    &&& resp.status == 200
    &&& resp.request_id is None
    &&& resp.response_time is None
    &&& resp.client_ip is None
    &&& resp.user_agent is None
    &&& resp.content_type is None
    &&& resp.body@ == Seq::<u8>::empty()
}

/// The body of an echo response, as the full service reports it.
pub open spec fn spec_echo_service_response(req: InboundRequest, resp: ServiceResponse) -> bool {
    &&& resp.status == spec_status(req.query)
    &&& (resp.client_ip matches Some(ip) && ip@ == spec_client_ip(req))
    &&& (resp.user_agent matches Some(ua) && ua@ == spec_user_agent(req))
    &&& (is_write_method(req.method) ==> (resp.content_type matches Some(ct) && ct@
        == spec_content_type(req)))
    &&& (!is_write_method(req.method) ==> resp.content_type is None)
    &&& resp.body@ == (if is_write_method(req.method) {
        req.body@
    } else {
        Seq::<u8>::empty()
    })
}

/// The not-found response: 404 with no body and no client headers.
pub open spec fn spec_not_found_response(resp: ServiceResponse) -> bool {
    &&& resp.status == 404
    &&& resp.client_ip is None
    &&& resp.user_agent is None
    &&& resp.content_type is None
    &&& resp.body@ == Seq::<u8>::empty()
}

/// The decimal text of any number is legal as a header value.
pub proof fn lemma_decimal_valid_header(n: u64)
    ensures
        valid_header_value(spec_decimal(n as nat)),
{
    lemma_decimal_all_digits(n as nat);
    assert forall|i: int|
        0 <= i < spec_decimal(n as nat).len() implies valid_header_char(
        #[trigger] spec_decimal(n as nat)[i],
    ) by {
        assert(is_digit_char(spec_decimal(n as nat)[i]));
    }
}

/// Clone the optional inbound request id.
fn inbound_request_id(req: &InboundRequest) -> (r: Option<String>)
    ensures
        r == req.request_id,
{
    match &req.request_id {
        Some(v) => Some(v.clone()),
        None => None,
    }
}

/// Run the response side of the service pipeline for one request.
///
/// `route` is where the router dispatched the request and `elapsed` the
/// wall-clock milliseconds the timing stage measured around everything
/// downstream of it, the resolved delay included. The liveness route
/// sits outside the middleware and answers a bare 200. The other routes
/// come back stamped with the request id (propagated or fresh) and the
/// measured time: the echo route adds the client-context headers and
/// echoes the body for write methods, an unknown path answers 404 with
/// no body. An error composing the echo response is handed back for the
/// front end to answer with [`error_response`]; that happens exactly
/// when the echo route rejects the request.
pub fn complete_request(req: &InboundRequest, route: Route, elapsed: u64) -> (r: Result<
    ServiceResponse,
    EchoError,
>)
    requires
        req.wf(),
    ensures
        route is Healthz ==> (r matches Ok(resp) && spec_healthz_response(resp)),
        route is Echo ==> (r is Ok <==> spec_echo_accepted(*req)),
        route is Echo ==> (r matches Ok(resp) ==> spec_echo_service_response(*req, resp)),
        route is Echo ==> (r matches Err(e) ==> (e is InvalidStatus <==> !transport_accepts(
            spec_status(req.query),
        ))),
        route is NotFound ==> (r matches Ok(resp) && spec_not_found_response(resp)),
        !(route is Healthz) ==> (r matches Ok(resp) ==> spec_diagnostics(*req, elapsed, resp)),
        r matches Ok(resp) ==> resp.wf(),
{
    match route {
        Route::Healthz => Ok(
            ServiceResponse {
                status: health(),
                request_id: None,
                response_time: None,
                client_ip: None,
                user_agent: None,
                content_type: None,
                body: Vec::new(),
            },
        ),
        Route::Echo => {
            let echoed = match compose_echo(req) {
                Ok(e) => e,
                Err(e) => {
                    return Err(e);
                },
            };
            let rid = resolve_request_id(inbound_request_id(req));
            let rtime = u64_to_decimal(elapsed);
            proof {
                if req.request_id is None {
                    lemma_uuid_text_valid_header(rid@);
                }
                lemma_decimal_valid_header(elapsed);
            }
            Ok(
                ServiceResponse {
                    status: echoed.status,
                    request_id: Some(rid),
                    response_time: Some(rtime),
                    client_ip: Some(echoed.client_ip),
                    user_agent: Some(echoed.user_agent),
                    content_type: echoed.content_type,
                    body: echoed.body,
                },
            )
        },
        Route::NotFound => {
            let rid = resolve_request_id(inbound_request_id(req));
            let rtime = u64_to_decimal(elapsed);
            proof {
                if req.request_id is None {
                    lemma_uuid_text_valid_header(rid@);
                }
                lemma_decimal_valid_header(elapsed);
            }
            Ok(
                ServiceResponse {
                    status: 404,
                    request_id: Some(rid),
                    response_time: Some(rtime),
                    client_ip: None,
                    user_agent: None,
                    content_type: None,
                    body: Vec::new(),
                },
            )
        },
    }
}

/// Compose the recoverable server-error response for a request the echo
/// route rejected: status 500 with the error's description as body,
/// still stamped by the diagnostic middleware. A rejected request costs
/// that one request a server error, never the process.
pub fn error_response(req: &InboundRequest, e: EchoError, elapsed: u64) -> (resp: ServiceResponse)
    requires
        req.wf(),
    ensures
        resp.status == 500,
        spec_diagnostics(*req, elapsed, resp),
        resp.client_ip is None,
        resp.user_agent is None,
        resp.content_type is None,
        resp.body@ == spec_ascii_bytes(spec_message(e)),
        resp.wf(),
{
    let rid = resolve_request_id(inbound_request_id(req));
    let rtime = u64_to_decimal(elapsed);
    proof {
        if req.request_id is None {
            lemma_uuid_text_valid_header(rid@);
        }
        lemma_decimal_valid_header(elapsed);
        reveal_strlit("invalid status code");
        reveal_strlit("illegal header value");
    }
    let body = ascii_body(e.message());
    ServiceResponse {
        status: 500,
        request_id: Some(rid),
        response_time: Some(rtime),
        client_ip: None,
        user_agent: None,
        content_type: None,
        body,
    }
}

/// The byte rendering of ASCII text.
pub open spec fn spec_ascii_bytes(s: Seq<char>) -> Seq<u8> {
    Seq::new(s.len(), |i: int| s[i] as u8)
}

/// The bytes of a short ASCII message, for a response body.
fn ascii_body(s: &str) -> (r: Vec<u8>)
    requires
        s.is_ascii(),
    ensures
        r@ == spec_ascii_bytes(s@),
{
    let r = s.as_bytes_vec();
    proof {
        broadcast use vstd::string::is_ascii_spec_bytes;

        assert(r@ =~= spec_ascii_bytes(s@));
    }
    r
}

/// A response the echo route returns carries exactly the caller's
/// `status` when one was given, and `200` otherwise.
pub proof fn lemma_status_echoed(req: InboundRequest, resp: ServiceResponse)
    requires
        spec_echo_service_response(req, resp),
    ensures
        req.query.status matches Some(s) ==> resp.status == s,
        req.query.status is None ==> resp.status == 200,
{
}

/// On any response the timing stage stamped, the reported
/// `x-response-time` header denotes the measured milliseconds exactly;
/// so whenever the measurement covered at least the resolved delay, the
/// number the header reports is at least that delay.
pub proof fn lemma_response_time_covers_delay(
    req: InboundRequest,
    elapsed: u64,
    resp: ServiceResponse,
)
    requires
        spec_diagnostics(req, elapsed, resp),
        elapsed >= spec_resolved_delay(req.query),
    ensures
        resp.response_time matches Some(t) && spec_decimal_value(t@) == elapsed
            >= spec_resolved_delay(req.query),
{
    lemma_decimal_value_roundtrip(elapsed as nat);
}

/// Elapsed wall-clock milliseconds between two clock readings. A clock
/// that stepped backwards reads as zero elapsed time, never negative.
pub fn elapsed_millis(start: i64, end: i64) -> (r: u64)
    ensures
        start <= end ==> r == end - start,
        end < start ==> r == 0,
{
    if start <= end {
        (end as i128 - start as i128) as u64
    } else {
        0
    }
}

} // verus!
