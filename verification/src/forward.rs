//! Relaying one request to a container, with retries within a time budget.
//!
//! All times are in milliseconds. The budget is three seconds from the moment
//! forwarding begins.

use vstd::prelude::*;
use vstd::string::StringExecFns;
use vstd::utf8::encode_utf8;
use crate::text::{bytes_of, decimal, push_decimal, same_text};

verus! {

/// How long forwarding may go on retrying, in milliseconds.
pub const TIME_BUDGET_MILLIS: u64 = 3000;

/// The status of a request for which no route was found.
pub const NOT_FOUND: u16 = 404;

/// The status of a request whose time budget ran out.
pub const REQUEST_TIMEOUT: u16 = 408;

/// The status of a request that the gateway could not serve.
pub const INTERNAL_SERVER_ERROR: u16 = 500;

/// The methods that the gateway relays.
#[derive(Debug, Clone, Copy, PartialEq, Eq, Structural)]
pub enum Verb {
    Get,
    Delete,
    Post,
    Put,
    Patch,
}

impl Verb {
    /// Whether a request of this method is relayed with its headers and its
    /// body. The other methods are relayed bare.
    pub open spec fn carries_payload(self) -> bool {
        self == Verb::Post || self == Verb::Put || self == Verb::Patch
    }

    /// Whether a request of this method is relayed with its headers and its
    /// body.
    pub fn has_payload(&self) -> (carries: bool)
        ensures
            carries == self.carries_payload(),
    {
        match self {
            Verb::Post | Verb::Put | Verb::Patch => true,
            Verb::Get | Verb::Delete => false,
        }
    }
}

/// The method that `name` names, if the gateway relays it. Names are taken
/// as they are written: upper case only.
pub open spec fn verb_named(name: Seq<char>) -> Option<Verb> {
    if name == "GET"@ {
        Some(Verb::Get)
    } else if name == "DELETE"@ {
        Some(Verb::Delete)
    } else if name == "POST"@ {
        Some(Verb::Post)
    } else if name == "PUT"@ {
        Some(Verb::Put)
    } else if name == "PATCH"@ {
        Some(Verb::Patch)
    } else {
        None
    }
}

/// The method that `method` names, if the gateway relays it.
pub fn verb_of(method: &str) -> (verb: Option<Verb>)
    ensures
        verb == verb_named(method@),
{
    if same_text(method, "GET") {
        Some(Verb::Get)
    } else if same_text(method, "DELETE") {
        Some(Verb::Delete)
    } else if same_text(method, "POST") {
        Some(Verb::Post)
    } else if same_text(method, "PUT") {
        Some(Verb::Put)
    } else if same_text(method, "PATCH") {
        Some(Verb::Patch)
    } else {
        None
    }
}

/// One header of a request.
#[derive(Debug, PartialEq, Eq)]
pub struct Header {
    pub name: String,
    pub value: Vec<u8>,
}

/// What a header says, as plain values.
pub struct HeaderView {
    pub name: Seq<char>,
    pub value: Seq<u8>,
}

impl View for Header {
    type V = HeaderView;

    open spec fn view(&self) -> HeaderView {
        HeaderView { name: self.name@, value: self.value@ }
    }
}

/// What a list of headers says, header by header.
pub open spec fn header_views(headers: Seq<Header>) -> Seq<HeaderView> {
    headers.map_values(|header: Header| header@)
}

/// A request as it arrived: its method, its path with the query string, its
/// headers, and its whole body.
#[derive(Debug, PartialEq, Eq)]
pub struct RequestContext {
    pub method: String,
    pub uri: String,
    pub headers: Vec<Header>,
    pub body: Vec<u8>,
}

/// What a request says, as plain values.
pub struct RequestView {
    pub method: Seq<char>,
    pub uri: Seq<char>,
    pub headers: Seq<HeaderView>,
    pub body: Seq<u8>,
}

impl View for RequestContext {
    type V = RequestView;

    open spec fn view(&self) -> RequestView {
        RequestView {
            method: self.method@,
            uri: self.uri@,
            headers: header_views(self.headers@),
            body: self.body@,
        }
    }
}

/// A request as it is sent to a container.
#[derive(Debug, PartialEq, Eq)]
pub struct Outbound {
    pub verb: Verb,
    pub url: String,
    pub headers: Vec<Header>,
    pub body: Vec<u8>,
}

/// What an outgoing request says, as plain values.
pub struct OutboundView {
    pub verb: Verb,
    pub url: Seq<char>,
    pub headers: Seq<HeaderView>,
    pub body: Seq<u8>,
}

impl View for Outbound {
    type V = OutboundView;

    open spec fn view(&self) -> OutboundView {
        OutboundView {
            verb: self.verb,
            url: self.url@,
            headers: header_views(self.headers@),
            body: self.body@,
        }
    }
}

/// The gateway's answer to a request.
#[derive(Debug, PartialEq, Eq)]
pub struct GatewayResponse {
    pub status: u16,
    pub body: Vec<u8>,
}

/// What an answer says, as plain values.
pub struct ResponseView {
    pub status: u16,
    pub body: Seq<u8>,
}

impl View for GatewayResponse {
    type V = ResponseView;

    open spec fn view(&self) -> ResponseView {
        ResponseView { status: self.status, body: self.body@ }
    }
}

impl GatewayResponse {
    /// An answer with a status and no body.
    pub fn bare(status: u16) -> (response: GatewayResponse)
        ensures
            response@ == bare_response(status),
    {
        GatewayResponse { status, body: Vec::new() }
    }

    /// An answer with a status and a text as its body.
    pub fn explained(status: u16, text: &str) -> (response: GatewayResponse)
        ensures
            response@ == (ResponseView { status, body: encode_utf8(text@) }),
    {
        GatewayResponse { status, body: bytes_of(text) }
    }
}

/// The answer with a status and no body.
pub open spec fn bare_response(status: u16) -> ResponseView {
    ResponseView { status, body: Seq::empty() }
}

/// How one attempt to reach the container ended.
#[derive(Debug, PartialEq, Eq)]
pub enum Outcome {
    /// The container answered, with whatever status.
    Answered { status: u16, body: Vec<u8> },
    /// No answer came. `code` is the status that the failure carries, if
    /// any; `connect` says that the connection could not be made;
    /// `timed_out` says that the attempt was given up because its time ran
    /// out; `text` describes the failure.
    Failed { code: Option<u16>, connect: bool, timed_out: bool, text: String },
}

/// What an outcome says, as plain values.
pub enum OutcomeView {
    Answered { status: u16, body: Seq<u8> },
    Failed { code: Option<u16>, connect: bool, timed_out: bool, text: Seq<char> },
}

impl View for Outcome {
    type V = OutcomeView;

    open spec fn view(&self) -> OutcomeView {
        match *self {
            Outcome::Answered { status, body } => OutcomeView::Answered { status, body: body@ },
            Outcome::Failed { code, connect, timed_out, text } => OutcomeView::Failed {
                code,
                connect,
                timed_out,
                text: text@,
            },
        }
    }
}

/// What to do after an attempt.
#[derive(Debug, PartialEq, Eq)]
pub enum Turn {
    /// Send the same request once more.
    Attempt,
    /// Answer the caller and stop.
    Respond(GatewayResponse),
}

/// What a turn says, as plain values.
pub enum TurnView {
    Attempt,
    Respond(ResponseView),
}

impl View for Turn {
    type V = TurnView;

    open spec fn view(&self) -> TurnView {
        match *self {
            Turn::Attempt => TurnView::Attempt,
            Turn::Respond(response) => TurnView::Respond(response@),
        }
    }
}

/// The address of a container's published port on this host, followed by
/// the path and query of the request. The hop to the container is local, and
/// it is made over TLS.
pub open spec fn backend_url(public_port: usize, uri: Seq<char>) -> Seq<char> {
    "https://localhost:"@ + decimal(public_port as nat) + uri
}

/// The request that is sent to the container for `request`: a method with a
/// payload takes the headers and the body along, the others take nothing.
pub open spec fn outbound_for(request: RequestView, verb: Verb, public_port: usize)
    -> OutboundView {
    OutboundView {
        verb,
        url: backend_url(public_port, request.uri),
        headers: if verb.carries_payload() {
            request.headers
        } else {
            Seq::empty()
        },
        body: if verb.carries_payload() {
            request.body
        } else {
            Seq::empty()
        },
    }
}

/// The time that has passed at `now` since `started`; none if the clock
/// stands before `started`.
pub open spec fn elapsed(started: u64, now: u64) -> int {
    if now >= started {
        now - started
    } else {
        0
    }
}

/// Whether an attempt may still be made at `now`.
pub open spec fn within_budget(started: u64, now: u64) -> bool {
    elapsed(started, now) < TIME_BUDGET_MILLIS
}

/// The time that is left of the budget at `now`: an attempt that begins at
/// `now` is to be given up when that time has passed.
pub open spec fn time_left(started: u64, now: u64) -> int {
    if within_budget(started, now) {
        TIME_BUDGET_MILLIS - elapsed(started, now)
    } else {
        0
    }
}

/// Whether an outcome leaves the request open: no answer came, the failure
/// carries no status, and either the connection could not be made or the
/// attempt was given up because its time ran out.
pub open spec fn is_transient(outcome: OutcomeView) -> bool {
    outcome matches OutcomeView::Failed { code: None, connect, timed_out, .. } && (connect
        || timed_out)
}

/// What follows an attempt that began in a forwarding started at `started`
/// and ended at `now` with `outcome`.
///
/// An answer of the container is passed on as it is, whatever its status. A
/// failure with a status is answered with that status and the failure's
/// text. A transient failure is tried again while the budget lasts, and
/// answered with a timeout after that. Any other failure is an internal
/// error.
pub open spec fn verdict(started: u64, outcome: OutcomeView, now: u64) -> TurnView {
    match outcome {
        OutcomeView::Answered { status, body } => TurnView::Respond(ResponseView { status, body }),
        OutcomeView::Failed { code: Some(code), text, .. } => TurnView::Respond(
            ResponseView { status: code, body: encode_utf8(text) },
        ),
        OutcomeView::Failed { code: None, text, .. } => if !is_transient(outcome) {
            TurnView::Respond(
                ResponseView { status: INTERNAL_SERVER_ERROR, body: encode_utf8(text) },
            )
        } else if within_budget(started, now) {
            TurnView::Attempt
        } else {
            TurnView::Respond(bare_response(REQUEST_TIMEOUT))
        },
    }
}

/// Builds the address of a container's published port, followed by `uri`.
pub fn build_backend_url(public_port: usize, uri: &str) -> (url: String)
    ensures
        url@ == backend_url(public_port, uri@),
{
    let mut url = String::from_str("https://localhost:");
    push_decimal(&mut url, public_port);
    url.append(uri);
    url
}

/// A forwarding in progress: the request that every attempt sends, and the
/// time at which forwarding began.
#[derive(Debug, PartialEq, Eq)]
pub struct Forwarder {
    request: Outbound,
    started: u64,
}

/// What a forwarding in progress holds, as plain values.
pub struct ForwarderView {
    pub request: OutboundView,
    pub started: u64,
}

impl View for Forwarder {
    type V = ForwarderView;

    closed spec fn view(&self) -> ForwarderView {
        ForwarderView { request: self.request@, started: self.started }
    }
}

impl Forwarder {
    /// Begins forwarding `request` to the container that publishes
    /// `public_port`. A request whose method the gateway does not relay is
    /// answered at once with an internal error, and nothing is sent.
    pub fn begin(request: RequestContext, public_port: usize, now: u64) -> (started: Result<
        Forwarder,
        GatewayResponse,
    >)
        ensures
            started is Ok <==> verb_named(request@.method) is Some,
            started matches Ok(forwarder) ==> forwarder@ == (ForwarderView {
                request: outbound_for(
                    request@,
                    verb_named(request@.method).unwrap(),
                    public_port,
                ),
                started: now,
            }),
            started matches Err(response) ==> response@ == bare_response(INTERNAL_SERVER_ERROR),
    {
        match verb_of(request.method.as_str()) {
            None => Err(GatewayResponse::bare(INTERNAL_SERVER_ERROR)),
            Some(verb) => {
                let url = build_backend_url(public_port, request.uri.as_str());
                let outbound = if verb.has_payload() {
                    Outbound { verb, url, headers: request.headers, body: request.body }
                } else {
                    let headers: Vec<Header> = Vec::new();
                    assert(header_views(headers@) =~= Seq::<HeaderView>::empty());
                    Outbound { verb, url, headers, body: Vec::new() }
                };
                Ok(Forwarder { request: outbound, started: now })
            },
        }
    }

    /// The request that every attempt sends.
    pub fn request(&self) -> (request: &Outbound)
        ensures
            request@ == self@.request,
    {
        &self.request
    }

    /// The time at which forwarding began.
    pub fn started(&self) -> (started: u64)
        ensures
            started == self@.started,
    {
        self.started
    }

    /// Whether an attempt may still be made at `now`.
    pub fn may_attempt(&self, now: u64) -> (may: bool)
        ensures
            may == within_budget(self@.started, now),
    {
        now < self.started || now - self.started < TIME_BUDGET_MILLIS
    }

    /// The time that is left of the budget at `now`.
    pub fn time_left(&self, now: u64) -> (left: u64)
        ensures
            left == time_left(self@.started, now),
    {
        if now < self.started {
            TIME_BUDGET_MILLIS
        } else if now - self.started < TIME_BUDGET_MILLIS {
            TIME_BUDGET_MILLIS - (now - self.started)
        } else {
            0
        }
    }

    /// Decides what follows an attempt that ended at `now` with `outcome`.
    pub fn decide(&self, outcome: Outcome, now: u64) -> (turn: Turn)
        ensures
            turn@ == verdict(self@.started, outcome@, now),
    {
        match outcome {
            Outcome::Answered { status, body } => Turn::Respond(GatewayResponse { status, body }),
            Outcome::Failed { code, connect, timed_out, text } => match code {
                Some(code) => Turn::Respond(GatewayResponse::explained(code, text.as_str())),
                None => if !connect && !timed_out {
                    Turn::Respond(
                        GatewayResponse::explained(INTERNAL_SERVER_ERROR, text.as_str()),
                    )
                } else if self.may_attempt(now) {
                    Turn::Attempt
                } else {
                    Turn::Respond(GatewayResponse::bare(REQUEST_TIMEOUT))
                },
            },
        }
    }
}

} // verus!
