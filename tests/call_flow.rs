use cloud_dns::call::{ApiCall, CallAction, CallEvent, Phase, TokenOutcome};
use cloud_dns::client::DnsClient;
use cloud_dns::error::{CloudDnsError, DnsError};
use cloud_dns::request::{HttpRequest, HttpResponse, Verb};

const BASE: &str = "https://dns.googleapis.com/dns/v1/projects/my-project/";

fn client() -> DnsClient {
    DnsClient::new("my-project").unwrap()
}

fn ready(token: &str) -> CallEvent {
    CallEvent::Token(TokenOutcome::Ready { access_token: token.to_string() })
}

fn response(status: u16, body: &[u8]) -> HttpResponse {
    HttpResponse {
        status,
        headers: vec![("content-type".to_string(), b"application/json".to_vec())],
        body: body.to_vec(),
    }
}

fn token_request() -> HttpRequest {
    HttpRequest {
        method: "POST".to_string(),
        uri: "https://oauth2.googleapis.com/token".to_string(),
        headers: vec![
            ("content-type".to_string(), b"application/x-www-form-urlencoded".to_vec()),
            ("x-raw".to_string(), vec![0x00, 0xff, 0x7f]),
        ],
        body: b"grant_type=jwt&assertion=abc".to_vec(),
    }
}

/// Starts a GET and feeds it a ready token; returns the call and what it sent.
fn sent_get(route: &str) -> (ApiCall, HttpRequest) {
    let call = client().get(route).unwrap();
    match call.step(ready("tok")) {
        (call, CallAction::Send(req)) => (call, req),
        other => panic!("unexpected {:?}", other.1),
    }
}

#[test]
fn ready_token_sends_authorized_request() {
    let call = client().post("policies", Some(b"{\"x\":1}".to_vec())).unwrap();
    let (call, action) = call.step(ready("abc.def"));
    assert!(matches!(call.phase, Phase::AwaitingResponse));
    match action {
        CallAction::Send(req) => {
            assert_eq!(req.method, "POST");
            assert_eq!(req.uri, format!("{}policies", BASE));
            assert_eq!(
                req.headers,
                vec![("authorization".to_string(), b"Bearer abc.def".to_vec())]
            );
            assert_eq!(req.body, b"{\"x\":1}".to_vec());
        }
        other => panic!("unexpected {:?}", other),
    }
}

#[test]
fn request_builder_sets_bearer_header() {
    let req = DnsClient::request_builder("https://h/x".to_string(), Verb::Delete, "t0k", vec![]);
    assert_eq!(req.method, "DELETE");
    assert_eq!(req.uri, "https://h/x");
    assert_eq!(req.headers, vec![("authorization".to_string(), b"Bearer t0k".to_vec())]);
    assert!(req.body.is_empty());
}

#[test]
fn token_exchange_round_trips_unchanged() {
    let call = client().get("managedZones").unwrap();
    let (call, action) = call.step(CallEvent::Token(TokenOutcome::NeedsExchange {
        request: token_request(),
        scope_hash: 99,
    }));
    assert!(matches!(call.phase, Phase::AwaitingTokenResponse { scope_hash: 99 }));
    match action {
        CallAction::Send(req) => {
            let expected = token_request();
            assert_eq!(req.method, expected.method);
            assert_eq!(req.uri, expected.uri);
            assert_eq!(req.headers, expected.headers);
            assert_eq!(req.body, expected.body);
        }
        other => panic!("unexpected {:?}", other),
    }
    let token_response = HttpResponse {
        status: 200,
        headers: vec![
            ("cache-control".to_string(), b"no-store".to_vec()),
            ("x-bin".to_string(), vec![1, 2, 0xfe]),
        ],
        body: b"{\"access_token\":\"xyz\",\"expires_in\":3599}".to_vec(),
    };
    let (call, action) = call.step(CallEvent::Response(token_response.clone()));
    assert!(matches!(call.phase, Phase::AwaitingParsedToken));
    match action {
        CallAction::ParseToken { response, scope_hash } => {
            assert_eq!(scope_hash, 99);
            assert_eq!(response.status, token_response.status);
            assert_eq!(response.headers, token_response.headers);
            assert_eq!(response.body, token_response.body);
        }
        other => panic!("unexpected {:?}", other),
    }
    let (call, action) = call.step(CallEvent::ParsedToken(Ok("xyz".to_string())));
    assert!(matches!(call.phase, Phase::AwaitingResponse));
    match action {
        CallAction::Send(req) => {
            assert_eq!(req.method, "GET");
            assert_eq!(req.uri, format!("{}managedZones", BASE));
            assert_eq!(req.headers, vec![("authorization".to_string(), b"Bearer xyz".to_vec())]);
            assert!(req.body.is_empty());
        }
        other => panic!("unexpected {:?}", other),
    }
}

#[test]
fn token_exchange_error_status_still_goes_to_provider() {
    let call = client().get("managedZones").unwrap();
    let (call, _) = call.step(CallEvent::Token(TokenOutcome::NeedsExchange {
        request: token_request(),
        scope_hash: 1,
    }));
    let (_, action) = call.step(CallEvent::Response(response(401, b"denied")));
    match action {
        CallAction::ParseToken { response, scope_hash } => {
            assert_eq!(scope_hash, 1);
            assert_eq!(response.status, 401);
            assert_eq!(response.body, b"denied".to_vec());
        }
        other => panic!("unexpected {:?}", other),
    }
}

#[test]
fn provider_failure_is_auth_error() {
    let call = client().get("managedZones").unwrap();
    let (call, action) = call.step(CallEvent::Token(TokenOutcome::Failed {
        message: "no credentials".to_string(),
    }));
    assert!(call.is_finished());
    match action {
        CallAction::Done(Err(DnsError::Auth { message })) => assert_eq!(message, "no credentials"),
        other => panic!("unexpected {:?}", other),
    }
}

#[test]
fn unreadable_token_response_is_auth_error() {
    let call = client().get("managedZones").unwrap();
    let (call, _) = call.step(CallEvent::Token(TokenOutcome::NeedsExchange {
        request: token_request(),
        scope_hash: 5,
    }));
    let (call, _) = call.step(CallEvent::Response(response(200, b"garbage")));
    let (call, action) = call.step(CallEvent::ParsedToken(Err("bad token json".to_string())));
    assert!(call.is_finished());
    match action {
        CallAction::Done(Err(DnsError::Auth { message })) => assert_eq!(message, "bad token json"),
        other => panic!("unexpected {:?}", other),
    }
}

#[test]
fn token_transport_failure_is_service_error() {
    let call = client().get("managedZones").unwrap();
    let (call, _) = call.step(CallEvent::Token(TokenOutcome::NeedsExchange {
        request: token_request(),
        scope_hash: 5,
    }));
    let (call, action) =
        call.step(CallEvent::TransportFailed { message: "connection reset".to_string() });
    assert!(call.is_finished());
    match action {
        CallAction::Done(Err(DnsError::Service { message })) => {
            assert_eq!(message, "connection reset")
        }
        other => panic!("unexpected {:?}", other),
    }
}

#[test]
fn api_transport_failure_is_service_error() {
    let (call, _) = sent_get("managedZones");
    let (call, action) = call.step(CallEvent::TransportFailed { message: "closed".to_string() });
    assert!(call.is_finished());
    assert!(matches!(action, CallAction::Done(Err(DnsError::Service { .. }))));
}

#[test]
fn success_status_yields_body() {
    let (call, _) = sent_get("managedZones");
    let (call, action) = call.step(CallEvent::Response(response(204, b"")));
    assert!(call.is_finished());
    match action {
        CallAction::Done(Ok(body)) => assert!(body.is_empty()),
        other => panic!("unexpected {:?}", other),
    }
}

#[test]
fn not_found_with_error_body_is_remote_api_error() {
    let body = b"{\"error\":{\"message\":\"not found\"}}";
    let (call, _) = sent_get("managedZones/missing");
    let (call, action) = call.step(CallEvent::Response(response(404, body)));
    assert!(matches!(call.phase, Phase::AwaitingErrorPayload { status: 404, .. }));
    match action {
        CallAction::ParseErrorBody(b) => assert_eq!(b, body.to_vec()),
        other => panic!("unexpected {:?}", other),
    }
    let payload = CloudDnsError::new("not found".to_string(), None);
    let (call, action) = call.step(CallEvent::ErrorPayload(Some(payload)));
    assert!(call.is_finished());
    match action {
        CallAction::Done(Err(DnsError::Dns { status, source })) => {
            assert_eq!(status, 404);
            assert_eq!(source.message, "not found");
            assert!(source.errors.is_none());
        }
        other => panic!("unexpected {:?}", other),
    }
}

#[test]
fn remote_error_keeps_sub_errors() {
    let (call, _) = sent_get("managedZones/x");
    let (call, _) = call.step(CallEvent::Response(response(400, b"{}")));
    let sub = vec![serde_json::Value::String("invalid".to_string())];
    let payload = CloudDnsError::new("bad request".to_string(), Some(sub.clone()));
    let (_, action) = call.step(CallEvent::ErrorPayload(Some(payload)));
    match action {
        CallAction::Done(Err(DnsError::Dns { status, source })) => {
            assert_eq!(status, 400);
            assert_eq!(source.errors, Some(sub));
        }
        other => panic!("unexpected {:?}", other),
    }
}

#[test]
fn unstructured_error_body_is_http_error() {
    let (call, _) = sent_get("managedZones");
    let (call, _) = call.step(CallEvent::Response(response(502, b"<html>bad gateway</html>")));
    let (call, action) = call.step(CallEvent::ErrorPayload(None));
    assert!(call.is_finished());
    match action {
        CallAction::Done(Err(DnsError::Http { status, body })) => {
            assert_eq!(status, 502);
            assert_eq!(body, b"<html>bad gateway</html>".to_vec());
        }
        other => panic!("unexpected {:?}", other),
    }
}

#[test]
fn status_bounds_of_success() {
    for (status, ok) in [(199u16, false), (200, true), (299, true), (300, false)] {
        let (call, _) = sent_get("managedZones");
        let (_, action) = call.step(CallEvent::Response(response(status, b"{}")));
        assert_eq!(matches!(action, CallAction::Done(Ok(_))), ok, "status {}", status);
        assert_eq!(matches!(action, CallAction::ParseErrorBody(_)), !ok, "status {}", status);
    }
}

#[test]
fn out_of_order_event_is_protocol_error() {
    let call = client().get("managedZones").unwrap();
    let (call, action) = call.step(CallEvent::Response(response(200, b"{}")));
    assert!(call.is_finished());
    assert!(matches!(action, CallAction::Done(Err(DnsError::Protocol { .. }))));
}

#[test]
fn finished_call_takes_no_more_events() {
    let (call, _) = sent_get("managedZones");
    let (call, _) = call.step(CallEvent::Response(response(200, b"{}")));
    let (call, action) = call.step(ready("again"));
    assert!(call.is_finished());
    assert!(matches!(action, CallAction::Done(Err(DnsError::Protocol { .. }))));
}

#[test]
fn list_record_sets_end_to_end() {
    let c = client();
    let call = c.resource_record_sets().list("test-zone").unwrap();
    let (call, action) = call.step(ready("tok"));
    match action {
        CallAction::Send(req) => {
            assert_eq!(req.method, "GET");
            assert_eq!(req.uri, format!("{}managedZones/test-zone/rrsets", BASE));
        }
        other => panic!("unexpected {:?}", other),
    }
    let body = b"{\"rrsets\":[],\"nextPageToken\":null}";
    let (_, action) = call.step(CallEvent::Response(response(200, body)));
    let bytes = match action {
        CallAction::Done(Ok(bytes)) => bytes,
        other => panic!("unexpected {:?}", other),
    };
    assert_eq!(bytes, body.to_vec());
    let doc: serde_json::Value = serde_json::from_slice(&bytes).unwrap();
    assert_eq!(doc["rrsets"].as_array().map(|a| a.len()), Some(0));
    assert!(doc["nextPageToken"].is_null());
}
