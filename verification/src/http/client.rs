//! The REST client, without its transport: it says what to send, and what
//! a response means for the request and for the rate limiter.

use crate::config::Config;
use crate::error::joined;
use crate::error::DiscordError;
use crate::error::ErrorView;
use crate::http::error::DiscordApiError;
use crate::http::ratelimit::Admission;
use crate::http::ratelimit::HeadersView;
use crate::http::ratelimit::LimiterView;
use crate::http::ratelimit::RateLimitHeaders;
use crate::http::ratelimit::RateLimiter;
use crate::http::routing::route_key;
use crate::http::routing::Method;
use crate::http::routing::Route;
use crate::text::decimal_digits;
use crate::text::push_decimal;
use percent_encoding::utf8_percent_encode;
use percent_encoding::NON_ALPHANUMERIC;
use reqwest::header::HeaderValue;
use reqwest::StatusCode;
use serde_json::Value;
use vstd::prelude::*;
use vstd::string::StringExecFns;
use vstd::string::StringSliceAdditionalSpecFns;

verus! {

/// The version of the REST interface.
pub const API_VERSION: u8 = 10;

/// Where the REST interface lives.
pub const BASE_URL: &'static str = "https://discord.com/api/v10";

/// How the client names itself.
pub const USER_AGENT: &'static str = "DiscordBot (discord.rs, 0.1.0)";

/// What the platform says of the gateway: where it is, how many shards it
/// advises, and how fast sessions may start.
#[derive(Debug)]
pub struct GetGatewayBot {
    pub url: String,
    pub shards: u32,
    pub session_start_limit: SessionStartLimit,
}

/// How fast sessions may start.
#[derive(Debug, Clone, Copy)]
pub struct SessionStartLimit {
    pub total: u32,
    pub remaining: u32,
    pub reset_after: u32,
    pub max_concurrency: u32,
}

// ---------------------------------------------------------------------------
// Header values
// ---------------------------------------------------------------------------

/// Whether `c` may stand in the value of a header: no control character
/// but the tabulator.
pub open spec fn is_header_char(c: char) -> bool {
    (c as u32 >= 32 && c as u32 != 127) || c as u32 == 9
}

/// Whether `text` may be the value of a header.
pub open spec fn is_header_text(text: Seq<char>) -> bool {
    forall|i: int| 0 <= i < text.len() ==> is_header_char(#[trigger] text[i])
}

/// What is said of a text that may not be the value of a header.
pub open spec fn header_problem() -> Seq<char> {
    "failed to parse header value"@
}

/// `HeaderValue::from_str` of the crate `reqwest` (from `http`), and the
/// text of its error: a text is refused when it holds a control
/// character other than the tabulator.
#[verifier::external_body]
fn header_value_problem(value: &str) -> (problem: Option<String>)
    ensures
        problem is None <==> is_header_text(value@),
        problem matches Some(why) ==> why@ == header_problem(),
{
    HeaderValue::from_str(value).err().map(|e| e.to_string())
}

// ---------------------------------------------------------------------------
// Percent-encoding
// ---------------------------------------------------------------------------

/// The hexadecimal digit for `n`, in capitals.
pub open spec fn hex_digit(n: int) -> char {
    if n == 0 {
        '0'
    } else if n == 1 {
        '1'
    } else if n == 2 {
        '2'
    } else if n == 3 {
        '3'
    } else if n == 4 {
        '4'
    } else if n == 5 {
        '5'
    } else if n == 6 {
        '6'
    } else if n == 7 {
        '7'
    } else if n == 8 {
        '8'
    } else if n == 9 {
        '9'
    } else if n == 10 {
        'A'
    } else if n == 11 {
        'B'
    } else if n == 12 {
        'C'
    } else if n == 13 {
        'D'
    } else if n == 14 {
        'E'
    } else {
        'F'
    }
}

/// Whether the byte is an ASCII letter or digit.
pub open spec fn is_alphanumeric(b: u8) -> bool {
    (48 <= b <= 57) || (65 <= b <= 90) || (97 <= b <= 122)
}

/// One byte, percent-encoded: a letter or digit stands for itself, any
/// other byte is a percent sign and two hexadecimal digits.
pub open spec fn percent_encoded_byte(b: u8) -> Seq<char> {
    if is_alphanumeric(b) {
        seq![b as char]
    } else {
        seq!['%', hex_digit(b as int / 16), hex_digit(b as int % 16)]
    }
}

/// The bytes, each percent-encoded.
pub open spec fn percent_encoded(bytes: Seq<u8>) -> Seq<char>
    decreases bytes.len(),
{
    if bytes.len() == 0 {
        Seq::empty()
    } else {
        percent_encoded(bytes.drop_last()) + percent_encoded_byte(bytes.last())
    }
}

/// `utf8_percent_encode` of the crate `percent_encoding`, with the set
/// `NON_ALPHANUMERIC`: the UTF-8 bytes of the text, each percent-encoded
/// unless it is an ASCII letter or digit.
#[verifier::external_body]
fn percent_encode(text: &str) -> (encoded: String)
    ensures
        encoded@ == percent_encoded(text.spec_bytes()),
{
    utf8_percent_encode(text, NON_ALPHANUMERIC).to_string()
}

/// A percent-encoded text may be the value of a header.
pub proof fn lemma_percent_encoded_is_header_text(bytes: Seq<u8>)
    ensures
        is_header_text(percent_encoded(bytes)),
    decreases bytes.len(),
{
    if bytes.len() > 0 {
        lemma_percent_encoded_is_header_text(bytes.drop_last());
        let head = percent_encoded(bytes.drop_last());
        let tail = percent_encoded_byte(bytes.last());
        let b = bytes.last();
        assert forall|i: int| 0 <= i < tail.len() implies is_header_char(#[trigger] tail[i]) by {
            if is_alphanumeric(b) {
                assert(tail[0] == b as char);
            } else {
                let hi = b as int / 16;
                let lo = b as int % 16;
                assert(is_header_char(hex_digit(hi)));
                assert(is_header_char(hex_digit(lo)));
            }
        }
        assert forall|i: int| 0 <= i < (head + tail).len() implies is_header_char(
            #[trigger] (head + tail)[i],
        ) by {
            if i < head.len() {
                assert((head + tail)[i] == head[i]);
            } else {
                assert((head + tail)[i] == tail[i - head.len()]);
            }
        }
    }
}

// ---------------------------------------------------------------------------
// Status lines
// ---------------------------------------------------------------------------

/// The canonical reason phrase of a status code, where it has one.
pub uninterp spec fn reason_phrase(code: u16) -> Option<Seq<char>>;

/// `StatusCode::from_u16` and `StatusCode::canonical_reason` of the crate
/// `reqwest` (from `http`).
#[verifier::external_body]
fn canonical_reason(code: u16) -> (reason: Option<String>)
    ensures
        match reason {
            Some(text) => reason_phrase(code) == Some(text@),
            None => reason_phrase(code) is None,
        },
{
    StatusCode::from_u16(code).ok().and_then(|s| s.canonical_reason()).map(|r| r.to_string())
}

/// A status as it is shown: the code and its reason phrase.
pub open spec fn status_line(code: u16) -> Seq<char> {
    decimal_digits(code as nat) + " "@ + match reason_phrase(code) {
        Some(reason) => reason,
        None => "<unknown status code>"@,
    }
}

// ---------------------------------------------------------------------------
// Requests
// ---------------------------------------------------------------------------

/// One header of a request.
#[derive(Debug)]
pub struct Header {
    pub name: String,
    pub value: String,
}

/// The name and value of each header.
pub open spec fn headers_view(headers: Seq<Header>) -> Seq<(Seq<char>, Seq<char>)> {
    headers.map_values(|h: Header| (h.name@, h.value@))
}

/// Whether the body of a request can be sent again.
#[derive(Debug, Clone, Copy, PartialEq, Eq, Structural)]
pub enum RequestKind {
    /// A request with a JSON body or none: it can always be sent again.
    Plain,
    /// A multipart request. Its body is a stream that is used up by
    /// sending; `replayable` says whether the caller can make it anew.
    Multipart { replayable: bool },
}

/// A request, ready for the transport.
#[derive(Debug)]
pub struct PreparedRequest {
    pub route: Route,
    pub kind: RequestKind,
    pub url: String,
    pub headers: Vec<Header>,
    pub body: Option<Value>,
}

/// The headers of a request of a client with the given token: who asks,
/// with what, and where a reason is given, the reason percent-encoded.
pub open spec fn request_headers(token: Seq<char>, reason: Option<Seq<u8>>) -> Seq<
    (Seq<char>, Seq<char>),
> {
    let fixed = seq![("Authorization"@, "Bot "@ + token), ("User-Agent"@, USER_AGENT@)];
    match reason {
        Some(bytes) => fixed.push(("X-Audit-Log-Reason"@, percent_encoded(bytes))),
        None => fixed,
    }
}

/// The bytes of a reason, if there is one.
pub open spec fn reason_bytes(reason: Option<&str>) -> Option<Seq<u8>> {
    match reason {
        Some(r) => Some(r.spec_bytes()),
        None => None,
    }
}

// ---------------------------------------------------------------------------
// Responses
// ---------------------------------------------------------------------------

/// What the body of a response is read as, which the status decides.
#[derive(Debug, Clone, Copy, PartialEq, Eq, Structural)]
pub enum BodyKind {
    /// Nothing: the status says that there is no content.
    Empty,
    /// The JSON value that the request asked for.
    Json,
    /// The note that comes with a rate limit.
    RateLimit,
    /// The structured error of the platform.
    ApiError,
}

/// What the body of a response with the given status is read as.
pub open spec fn body_kind_spec(status: u16) -> BodyKind {
    if status == 204 {
        BodyKind::Empty
    } else if 200 <= status < 300 {
        BodyKind::Json
    } else if status == 429 {
        BodyKind::RateLimit
    } else {
        BodyKind::ApiError
    }
}

/// What the body of a response with the given status is read as.
pub fn body_kind(status: u16) -> (kind: BodyKind)
    ensures
        kind == body_kind_spec(status),
{
    if status == 204 {
        BodyKind::Empty
    } else if 200 <= status && status < 300 {
        BodyKind::Json
    } else if status == 429 {
        BodyKind::RateLimit
    } else {
        BodyKind::ApiError
    }
}

/// The body of a response, read as its status calls for.
#[derive(Debug)]
pub enum Body {
    /// Nothing was read.
    Empty,
    /// The JSON value of a success.
    Json(Value),
    /// The body could not be read or decoded, with what was said of it.
    Unreadable(String),
    /// The note that comes with a rate limit: whether the limit is
    /// global, and after how many milliseconds to try again.
    RateLimit { global: bool, retry_after_ms: u64 },
    /// The structured error of the platform.
    ApiError(DiscordApiError),
}

/// What follows from a response.
#[derive(Debug)]
pub enum Next {
    /// The request is done, with this value, or with none where the
    /// response had no content.
    Done(Option<Value>),
    /// Wait so many milliseconds, then queue the request again.
    Retry(u64),
    /// The request has failed.
    Failed(DiscordError),
}

/// A `Next` as contracts see it.
pub enum NextView {
    Done(Option<Value>),
    Retry(u64),
    Failed(ErrorView),
}

impl View for Next {
    type V = NextView;

    open spec fn view(&self) -> NextView {
        match self {
            Next::Done(v) => NextView::Done(*v),
            Next::Retry(ms) => NextView::Retry(*ms),
            Next::Failed(e) => NextView::Failed(e@),
        }
    }
}

/// Whether the note of a rate limit says that the limit is global; a
/// body that is no such note says nothing of the kind.
pub open spec fn is_global(body: Body) -> bool {
    body matches Body::RateLimit { global, .. } && global
}

/// After how many milliseconds the note of a rate limit says to try
/// again; a body that is no such note says none.
pub open spec fn retry_after(body: Body) -> u64 {
    match body {
        Body::RateLimit { retry_after_ms, .. } => retry_after_ms,
        _ => 0,
    }
}

/// What is said of a success whose body is no JSON value.
pub open spec fn missing_json() -> Seq<char> {
    "response body is not JSON"@
}

/// What follows from a response with the given status and body to a
/// request of the given kind.
pub open spec fn next_spec(kind: RequestKind, status: u16, body: Body) -> NextView {
    match body_kind_spec(status) {
        BodyKind::Empty => NextView::Done(None),
        BodyKind::Json => match body {
            Body::Json(value) => NextView::Done(Some(value)),
            Body::Unreadable(why) => NextView::Failed(ErrorView::Serialization(why@)),
            _ => NextView::Failed(ErrorView::Serialization(missing_json())),
        },
        BodyKind::RateLimit => match kind {
            RequestKind::Plain => NextView::Retry(0),
            RequestKind::Multipart { replayable: true } => NextView::Retry(
                if is_global(body) {
                    0
                } else {
                    retry_after(body)
                },
            ),
            RequestKind::Multipart { replayable: false } => NextView::Failed(ErrorView::RateLimit),
        },
        BodyKind::ApiError => match body {
            Body::ApiError(e) => NextView::Failed(ErrorView::Http(e.text())),
            _ => NextView::Failed(
                ErrorView::Http("Request failed with status: "@ + status_line(status)),
            ),
        },
    }
}

/// What a response does to the limiter at time `now`: the bucket of the
/// request learns from the headers and is released; a rate limit that
/// is global holds every bucket for the time that the note gives.
pub open spec fn limiter_after(
    pre: LimiterView,
    key: Seq<char>,
    status: u16,
    headers: HeadersView,
    body: Body,
    now: u64,
) -> LimiterView {
    let seen = pre.observed(key, headers, now);
    if status == 429 && is_global(body) {
        seen.tripped(retry_after(body), now)
    } else {
        seen
    }
}

// ---------------------------------------------------------------------------
// The client
// ---------------------------------------------------------------------------

/// The REST client: the settings, the value of the authorization header,
/// and the rate limiter.
pub struct RestClient {
    config: Config,
    ratelimiter: RateLimiter,
}

/// The client as contracts see it.
pub struct ClientView {
    pub token: Seq<char>,
    pub limiter: LimiterView,
}

impl View for RestClient {
    type V = ClientView;

    closed spec fn view(&self) -> ClientView {
        ClientView { token: self.config.token@, limiter: self.ratelimiter@ }
    }
}

fn header(name: &str, value: String) -> (h: Header)
    ensures
        h.name@ == name@,
        h.value == value,
{
    Header { name: String::from_str(name), value }
}

impl RestClient {
    /// A client with the given settings and a limiter that knows
    /// nothing, or an error where the token cannot stand in a header.
    pub fn new(config: Config) -> (r: Result<Self, DiscordError>)
        ensures
            match r {
                Ok(client) => is_header_text("Bot "@ + config.token@) && client@ == (
                ClientView {
                    token: config.token@,
                    limiter: LimiterView {
                        buckets: Map::empty(),
                        global_until: 0,
                        next_ticket: 0,
                    },
                }),
                Err(e) => !is_header_text("Bot "@ + config.token@) && e@ == ErrorView::Validation(
                    header_problem(),
                ),
            },
    {
        let authorization = joined("Bot ", config.token.as_str());
        match header_value_problem(authorization.as_str()) {
            Some(why) => Err(DiscordError::Validation(why)),
            None => Ok(RestClient { config, ratelimiter: RateLimiter::new() }),
        }
    }

    /// The request for `path` with the given method, body and reason for
    /// the audit log: where it goes and with which headers.
    pub fn request(
        &self,
        method: Method,
        path: &str,
        body: Option<Value>,
        reason: Option<&str>,
    ) -> (request: PreparedRequest)
        ensures
            request.route.method == method,
            request.route.path@ == path@,
            request.kind == RequestKind::Plain,
            request.url@ == BASE_URL@ + path@,
            headers_view(request.headers@) == request_headers(self@.token, reason_bytes(reason)),
            request.body == body,
    {
        self.prepare(method, path, RequestKind::Plain, body, reason)
    }

    /// The multipart request for `path` with a body that cannot be made
    /// anew: a rate limit ends it.
    pub fn request_multipart(&self, method: Method, path: &str, reason: Option<&str>) -> (request:
        PreparedRequest)
        ensures
            request.route.method == method,
            request.route.path@ == path@,
            request.kind == (RequestKind::Multipart { replayable: false }),
            request.url@ == BASE_URL@ + path@,
            headers_view(request.headers@) == request_headers(self@.token, reason_bytes(reason)),
            request.body is None,
    {
        self.prepare(method, path, RequestKind::Multipart { replayable: false }, None, reason)
    }

    /// The multipart request for `path` with a body that the caller makes
    /// anew for each attempt.
    pub fn request_multipart_retryable(
        &self,
        method: Method,
        path: &str,
        reason: Option<&str>,
    ) -> (request: PreparedRequest)
        ensures
            request.route.method == method,
            request.route.path@ == path@,
            request.kind == (RequestKind::Multipart { replayable: true }),
            request.url@ == BASE_URL@ + path@,
            headers_view(request.headers@) == request_headers(self@.token, reason_bytes(reason)),
            request.body is None,
    {
        self.prepare(method, path, RequestKind::Multipart { replayable: true }, None, reason)
    }

    fn prepare(
        &self,
        method: Method,
        path: &str,
        kind: RequestKind,
        body: Option<Value>,
        reason: Option<&str>,
    ) -> (request: PreparedRequest)
        ensures
            request.route.method == method,
            request.route.path@ == path@,
            request.kind == kind,
            request.url@ == BASE_URL@ + path@,
            headers_view(request.headers@) == request_headers(self@.token, reason_bytes(reason)),
            request.body == body,
    {
        let mut headers: Vec<Header> = Vec::new();
        headers.push(header("Authorization", joined("Bot ", self.config.token.as_str())));
        headers.push(header("User-Agent", String::from_str(USER_AGENT)));
        match reason {
            Some(r) => {
                let encoded = percent_encode(r);
                proof {
                    lemma_percent_encoded_is_header_text(r.spec_bytes());
                }
                if header_value_problem(encoded.as_str()).is_none() {
                    headers.push(header("X-Audit-Log-Reason", encoded));
                }
            },
            None => {},
        }
        assert(headers_view(headers@) =~= request_headers(self@.token, reason_bytes(reason)));
        PreparedRequest {
            route: Route::new(method, path),
            kind,
            url: joined(BASE_URL, path),
            headers,
            body,
        }
    }

    /// The request that reads `path`.
    pub fn get(&self, path: &str) -> (request: PreparedRequest)
        ensures
            request.route.method == Method::Get,
            request.route.path@ == path@,
            request.kind == RequestKind::Plain,
            request.url@ == BASE_URL@ + path@,
            headers_view(request.headers@) == request_headers(self@.token, None),
            request.body is None,
    {
        self.request(Method::Get, path, None, None)
    }

    /// The request that posts `body` to `path`.
    pub fn post(&self, path: &str, body: Value) -> (request: PreparedRequest)
        ensures
            request.route.method == Method::Post,
            request.route.path@ == path@,
            request.kind == RequestKind::Plain,
            request.url@ == BASE_URL@ + path@,
            headers_view(request.headers@) == request_headers(self@.token, None),
            request.body == Some(body),
    {
        self.request(Method::Post, path, Some(body), None)
    }

    /// The request that patches `path` with `body`.
    pub fn patch(&self, path: &str, body: Value) -> (request: PreparedRequest)
        ensures
            request.route.method == Method::Patch,
            request.route.path@ == path@,
            request.kind == RequestKind::Plain,
            request.url@ == BASE_URL@ + path@,
            headers_view(request.headers@) == request_headers(self@.token, None),
            request.body == Some(body),
    {
        self.request(Method::Patch, path, Some(body), None)
    }

    /// The request that deletes `path`.
    pub fn delete(&self, path: &str) -> (request: PreparedRequest)
        ensures
            request.route.method == Method::Delete,
            request.route.path@ == path@,
            request.kind == RequestKind::Plain,
            request.url@ == BASE_URL@ + path@,
            headers_view(request.headers@) == request_headers(self@.token, None),
            request.body is None,
    {
        self.request(Method::Delete, path, None, None)
    }

    /// The request that asks the platform about the gateway.
    pub fn get_gateway_bot(&self) -> (request: PreparedRequest)
        ensures
            request.route.method == Method::Get,
            request.route.path@ == "/gateway/bot"@,
            request.kind == RequestKind::Plain,
            request.url@ == BASE_URL@ + "/gateway/bot"@,
            headers_view(request.headers@) == request_headers(self@.token, None),
            request.body is None,
    {
        self.request(Method::Get, "/gateway/bot", None, None)
    }

    /// A request for `route` has come: it joins the queue of its bucket.
    /// See `RateLimiter::enqueue`.
    pub fn enqueue(&mut self, route: &Route) -> (ticket: Option<u64>)
        ensures
            final(self)@.token == old(self)@.token,
            match ticket {
                Some(t) => t == old(self)@.limiter.next_ticket && final(self)@.limiter == old(
                    self,
                )@.limiter.enqueued(route_key(route.method, route.path@)),
                None => old(self)@.limiter.next_ticket == u64::MAX && final(self)@.limiter == old(
                    self,
                )@.limiter,
            },
    {
        self.ratelimiter.enqueue(route)
    }

    /// The request with the given ticket asks to go ahead at time `now`.
    /// See `RateLimiter::await_bucket`.
    pub fn acquire(&mut self, route: &Route, ticket: u64, now: u64) -> (a: Admission)
        ensures
            final(self)@.token == old(self)@.token,
            a == old(self)@.limiter.admission(route_key(route.method, route.path@), ticket, now),
            final(self)@.limiter == old(self)@.limiter.polled(
                route_key(route.method, route.path@),
                ticket,
                now,
            ),
    {
        self.ratelimiter.await_bucket(route, ticket, now)
    }

    /// The request with the given ticket gives up waiting. See
    /// `RateLimiter::withdraw`.
    pub fn withdraw(&mut self, route: &Route, ticket: u64)
        ensures
            final(self)@.token == old(self)@.token,
            final(self)@.limiter == old(self)@.limiter.withdrawn(
                route_key(route.method, route.path@),
                ticket,
            ),
    {
        self.ratelimiter.withdraw(route, ticket);
    }

    /// The request in flight on `route` has failed before any response
    /// came: its bucket is released, and learns nothing.
    pub fn release(&mut self, route: &Route, now: u64)
        ensures
            final(self)@.token == old(self)@.token,
            final(self)@.limiter == old(self)@.limiter.observed(
                route_key(route.method, route.path@),
                HeadersView { remaining: None, limit: None, reset_after_ms: None },
                now,
            ),
    {
        let none = RateLimitHeaders { remaining: None, limit: None, reset_after_ms: None };
        self.ratelimiter.update(route, &none, now);
    }

    /// The response to the request in flight on `route` has come at time
    /// `now`. The limiter observes it, and is tripped where the response
    /// says that a global limit was hit. What follows for the request is
    /// that of `next_spec`.
    pub fn handle_response(
        &mut self,
        route: &Route,
        kind: RequestKind,
        status: u16,
        headers: &RateLimitHeaders,
        body: Body,
        now: u64,
    ) -> (next: Next)
        ensures
            final(self)@.token == old(self)@.token,
            final(self)@.limiter == limiter_after(
                old(self)@.limiter,
                route_key(route.method, route.path@),
                status,
                headers@,
                body,
                now,
            ),
            next@ == next_spec(kind, status, body),
    {
        self.ratelimiter.update(route, headers, now);
        match body_kind(status) {
            BodyKind::Empty => Next::Done(None),
            BodyKind::Json => match body {
                Body::Json(value) => Next::Done(Some(value)),
                Body::Unreadable(why) => Next::Failed(DiscordError::Serialization(why)),
                _ => Next::Failed(
                    DiscordError::Serialization(String::from_str("response body is not JSON")),
                ),
            },
            BodyKind::RateLimit => {
                let (global, retry_after_ms) = match body {
                    Body::RateLimit { global, retry_after_ms } => (global, retry_after_ms),
                    _ => (false, 0),
                };
                if global {
                    self.ratelimiter.handle_global_limit(retry_after_ms, now);
                }
                match kind {
                    RequestKind::Plain => Next::Retry(0),
                    RequestKind::Multipart { replayable } => {
                        if !replayable {
                            Next::Failed(DiscordError::RateLimit)
                        } else if global {
                            Next::Retry(0)
                        } else {
                            Next::Retry(retry_after_ms)
                        }
                    },
                }
            },
            BodyKind::ApiError => match body {
                Body::ApiError(e) => Next::Failed(DiscordError::Http(e.to_text())),
                _ => {
                    let mut text = String::from_str("Request failed with status: ");
                    push_decimal(&mut text, status as u64);
                    text.append(" ");
                    match canonical_reason(status) {
                        Some(reason) => text.append(reason.as_str()),
                        None => text.append("<unknown status code>"),
                    }
                    assert(text@ =~= "Request failed with status: "@ + status_line(status));
                    Next::Failed(DiscordError::Http(text))
                },
            },
        }
    }
}

} // verus!
