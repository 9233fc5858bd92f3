//! One API call as a state machine: the decisions of the pipeline, from
//! credential resolution to the classified result. The caller performs each
//! action (ask the token provider, send through the multiplexer, parse a body)
//! and feeds back what came of it as the next event.
use vstd::prelude::*;
use crate::client::DnsClient;
use crate::error::{CloudDnsError, DnsError};
use crate::request::{
    is_authorized_request, is_success, HttpRequest, HttpResponse, Verb,
};

verus! {

/// What the token provider answers when asked for a token.
#[derive(Debug, Clone)]
pub enum TokenOutcome {
    /// A still-valid token; no network access is needed.
    Ready { access_token: String },
    /// The provider needs this request executed; its response goes back to the
    /// provider together with `scope_hash`.
    NeedsExchange { request: HttpRequest, scope_hash: u64 },
    /// The provider could not produce either.
    Failed { message: String },
}

/// Where a call stands.
#[derive(Debug, Clone)]
pub enum Phase {
    /// The provider has been asked for a token.
    AwaitingToken,
    /// The provider's token request is in flight.
    AwaitingTokenResponse { scope_hash: u64 },
    /// The provider is reading the token response.
    AwaitingParsedToken,
    /// The API request is in flight.
    AwaitingResponse,
    /// The API answered outside 2xx; its body is being read as an error payload.
    AwaitingErrorPayload { status: u16, body: Vec<u8> },
    /// The call has its result.
    Finished,
}

/// What came of the last action.
#[derive(Debug)]
pub enum CallEvent {
    /// The provider's answer to a token request.
    Token(TokenOutcome),
    /// The transport's response to the request last sent.
    Response(HttpResponse),
    /// The provider's reading of the token response: an access token, or why
    /// it could not read one.
    ParsedToken(Result<String, String>),
    /// The error body read as `{"error": {"message": .., "errors": [..]}}`, or
    /// nothing where it is not of that shape.
    ErrorPayload(Option<CloudDnsError>),
    /// The multiplexer or the transport failed.
    TransportFailed { message: String },
}

/// What the caller does next.
#[derive(Debug)]
pub enum CallAction {
    /// Ask the token provider for a token.
    FetchToken,
    /// Submit this request through the multiplexer, once.
    Send(HttpRequest),
    /// Hand this response, as the transport returned it, to the provider.
    ParseToken { response: HttpResponse, scope_hash: u64 },
    /// Read these bytes as an error payload.
    ParseErrorBody(Vec<u8>),
    /// The call is over: the success body, or the classified error.
    Done(Result<Vec<u8>, DnsError>),
}

/// One call in progress: the verb, the resolved URL, and the body to send.
#[derive(Debug, Clone)]
pub struct ApiCall {
    pub verb: Verb,
    pub url: String,
    pub body: Vec<u8>,
    pub phase: Phase,
}

/// `action` ends the call with a success body equal to `body`.
pub open spec fn done_ok(action: CallAction, body: Seq<u8>) -> bool {
    action matches CallAction::Done(Ok(b)) && b@ == body
}

/// `action` ends the call with an error that `p` accepts.
pub open spec fn done_err(action: CallAction, p: spec_fn(DnsError) -> bool) -> bool {
    action matches CallAction::Done(Err(e)) && p(e)
}

/// The transition of `call` on `event`: the next phase and the action, as
/// `next` and `action` hold them.
pub open spec fn transition(call: ApiCall, event: CallEvent, next: Phase, action: CallAction) -> bool {
    match (call.phase, event) {
        (Phase::AwaitingToken, CallEvent::Token(TokenOutcome::Ready { access_token })) => {
            &&& next is AwaitingResponse
            &&& action matches CallAction::Send(req) && is_authorized_request(
                req,
                call.verb,
                call.url@,
                access_token@,
                call.body@,
            )
        },
        (
            Phase::AwaitingToken,
            CallEvent::Token(TokenOutcome::NeedsExchange { request, scope_hash }),
        ) => {
            &&& next == (Phase::AwaitingTokenResponse { scope_hash })
            &&& action == CallAction::Send(request)
        },
        (Phase::AwaitingToken, CallEvent::Token(TokenOutcome::Failed { message })) => {
            &&& next is Finished
            &&& done_err(action, |e: DnsError| e matches DnsError::Auth { message: m } && m@ == message@)
        },
        (Phase::AwaitingTokenResponse { scope_hash }, CallEvent::Response(response)) => {
            &&& next is AwaitingParsedToken
            &&& action == (CallAction::ParseToken { response, scope_hash })
        },
        (Phase::AwaitingParsedToken, CallEvent::ParsedToken(Ok(access_token))) => {
            &&& next is AwaitingResponse
            &&& action matches CallAction::Send(req) && is_authorized_request(
                req,
                call.verb,
                call.url@,
                access_token@,
                call.body@,
            )
        },
        (Phase::AwaitingParsedToken, CallEvent::ParsedToken(Err(message))) => {
            &&& next is Finished
            &&& done_err(action, |e: DnsError| e matches DnsError::Auth { message: m } && m@ == message@)
        },
        (Phase::AwaitingResponse, CallEvent::Response(response)) => {
            if is_success(response.status) {
                &&& next is Finished
                &&& done_ok(action, response.body@)
            } else {
                &&& next matches Phase::AwaitingErrorPayload { status, body } && status
                    == response.status && body@ == response.body@
                &&& action matches CallAction::ParseErrorBody(b) && b@ == response.body@
            }
        },
        (Phase::AwaitingErrorPayload { status, body }, CallEvent::ErrorPayload(Some(payload))) => {
            &&& next is Finished
            &&& action == CallAction::Done(Err(DnsError::Dns { status, source: payload }))
        },
        (Phase::AwaitingErrorPayload { status, body }, CallEvent::ErrorPayload(None)) => {
            &&& next is Finished
            &&& done_err(action, |e: DnsError| e matches DnsError::Http { status: s, body: b } && s == status && b@ == body@)
        },
        (Phase::AwaitingTokenResponse { .. }, CallEvent::TransportFailed { message })
        | (Phase::AwaitingResponse, CallEvent::TransportFailed { message }) => {
            &&& next is Finished
            &&& done_err(action, |e: DnsError| e matches DnsError::Service { message: m } && m@ == message@)
        },
        _ => {
            &&& next is Finished
            &&& done_err(action, |e: DnsError| e is Protocol)
        },
    }
}

/// The token exchange goes through the call untouched: the provider's request
/// is sent exactly as the provider built it (with no bearer header added), and
/// the transport's response to it (status, headers and body bytes) is handed
/// back to the provider exactly as it came, with the provider's scope hash.
pub proof fn lemma_token_exchange_is_verbatim(
    call: ApiCall,
    request: HttpRequest,
    scope_hash: u64,
    response: HttpResponse,
    next: Phase,
    action: CallAction,
    next2: Phase,
    action2: CallAction,
)
    requires
        call.phase is AwaitingToken,
        transition(
            call,
            CallEvent::Token(TokenOutcome::NeedsExchange { request, scope_hash }),
            next,
            action,
        ),
        transition(
            ApiCall { verb: call.verb, url: call.url, body: call.body, phase: next },
            CallEvent::Response(response),
            next2,
            action2,
        ),
    ensures
        action == CallAction::Send(request),
        action2 == (CallAction::ParseToken { response, scope_hash }),
        action2 matches CallAction::ParseToken { response: r, .. } && r.status == response.status
            && r.headers@ == response.headers@ && r.body@ == response.body@,
{
}

impl ApiCall {
    /// A call that is about to ask for a token; its first action is
    /// [`CallAction::FetchToken`].
    pub fn new(verb: Verb, url: String, body: Vec<u8>) -> (r: ApiCall)
        ensures
            r.verb == verb,
            r.url == url,
            r.body == body,
            r.phase is AwaitingToken,
    {
        ApiCall { verb, url, body, phase: Phase::AwaitingToken }
    }

    /// Whether the call has its result.
    pub fn is_finished(&self) -> (r: bool)
        ensures
            r == (self.phase is Finished),
    {
        matches!(self.phase, Phase::Finished)
    }

    /// Advances the call on `event` and says what to do next. The verb, URL
    /// and body stay; the phase and the action follow [`transition`].
    pub fn step(self, event: CallEvent) -> (r: (ApiCall, CallAction))
        ensures
            r.0.verb == self.verb,
            r.0.url == self.url,
            r.0.body == self.body,
            transition(self, event, r.0.phase, r.1),
    {
        let ApiCall { verb, url, body, phase } = self;
        let (next, action) = match (phase, event) {
            (Phase::AwaitingToken, CallEvent::Token(TokenOutcome::Ready { access_token })) => {
                let req = DnsClient::request_builder(url.clone(), verb, access_token.as_str(), body.clone());
                (Phase::AwaitingResponse, CallAction::Send(req))
            },
            (
                Phase::AwaitingToken,
                CallEvent::Token(TokenOutcome::NeedsExchange { request, scope_hash }),
            ) => (Phase::AwaitingTokenResponse { scope_hash }, CallAction::Send(request)),
            (Phase::AwaitingToken, CallEvent::Token(TokenOutcome::Failed { message })) => (
                Phase::Finished,
                CallAction::Done(Err(DnsError::Auth { message })),
            ),
            (Phase::AwaitingTokenResponse { scope_hash }, CallEvent::Response(response)) => (
                Phase::AwaitingParsedToken,
                CallAction::ParseToken { response, scope_hash },
            ),
            (Phase::AwaitingParsedToken, CallEvent::ParsedToken(Ok(access_token))) => {
                let req = DnsClient::request_builder(url.clone(), verb, access_token.as_str(), body.clone());
                (Phase::AwaitingResponse, CallAction::Send(req))
            },
            (Phase::AwaitingParsedToken, CallEvent::ParsedToken(Err(message))) => (
                Phase::Finished,
                CallAction::Done(Err(DnsError::Auth { message })),
            ),
            (Phase::AwaitingResponse, CallEvent::Response(response)) => {
                if 200 <= response.status && response.status < 300 {
                    (Phase::Finished, CallAction::Done(Ok(response.body)))
                } else {
                    let copy = response.body.clone();
                    (
                        Phase::AwaitingErrorPayload { status: response.status, body: response.body },
                        CallAction::ParseErrorBody(copy),
                    )
                }
            },
            (Phase::AwaitingErrorPayload { status, body: _ }, CallEvent::ErrorPayload(Some(payload))) => (
                Phase::Finished,
                CallAction::Done(Err(DnsError::Dns { status, source: payload })),
            ),
            (Phase::AwaitingErrorPayload { status, body: b }, CallEvent::ErrorPayload(None)) => (
                Phase::Finished,
                CallAction::Done(Err(DnsError::Http { status, body: b })),
            ),
            (Phase::AwaitingTokenResponse { .. }, CallEvent::TransportFailed { message }) => (
                Phase::Finished,
                CallAction::Done(Err(DnsError::Service { message })),
            ),
            (Phase::AwaitingResponse, CallEvent::TransportFailed { message }) => (
                Phase::Finished,
                CallAction::Done(Err(DnsError::Service { message })),
            ),
            _ => (
                Phase::Finished,
                CallAction::Done(
                    Err(
                        DnsError::Protocol {
                            message: String::from_str("event does not fit the phase of the call"),
                        },
                    ),
                ),
            ),
        };
        (ApiCall { verb, url, body, phase: next }, action)
    }
}

} // verus!
