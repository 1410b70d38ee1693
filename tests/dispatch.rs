use futura_notify::dispatch::{plan_dispatch, report};
use futura_notify::error::{decimal_text, DispatchError, RejectionKind};
use futura_notify::hooks::{run_noop, Handler, HookEvent, HookRegistry};
use futura_notify::json::{encode_payload, frame_body};
use futura_notify::message::{build_payload, compose_message, NotificationPayload, NotificationRequest};
use futura_notify::outcall::{
    build_headers, idempotency_key, DispatcherConfig, HttpMethod, CALL_CYCLES, MAX_RESPONSE_BYTES,
};
use futura_notify::outcome::{classify_outcome, classify_reply, is_success_status, CallOutcome};

const ENDPOINT: &str = "https://delivery.example/notifications/email";

fn request(user: &str, recipient: &str) -> NotificationRequest {
    NotificationRequest {
        from: "a@x.com".to_string(),
        to: "b@x.com".to_string(),
        subject: "S".to_string(),
        text: "ignored".to_string(),
        user_name: user.to_string(),
        recipient_name: recipient.to_string(),
    }
}

fn config(token: Option<&str>) -> DispatcherConfig {
    DispatcherConfig::new(ENDPOINT.to_string(), token.map(|t| t.to_string()))
}

fn replied(status: u64, body: &[u8]) -> CallOutcome {
    CallOutcome::Replied { status, body: body.to_vec() }
}

const BOB_FROM_ALICE: &str = "Hello Bob,\n\nAlice has shared some files with you through Futura.\n\nYou can access your shared files at: https://futura.app\n\nBest regards,\nThe Futura Team";

#[test]
fn message_substitutes_both_names() {
    assert_eq!(compose_message("Bob", "Alice"), BOB_FROM_ALICE);
}

#[test]
fn message_keeps_template_around_unusual_names() {
    let m = compose_message("{user_name}", "");
    assert_eq!(
        m,
        "Hello {user_name},\n\n has shared some files with you through Futura.\n\nYou can access your shared files at: https://futura.app\n\nBest regards,\nThe Futura Team"
    );
}

#[test]
fn payload_copies_fields_and_ignores_raw_text() {
    let p = build_payload(request("Alice", "Bob"));
    assert_eq!(p.from, "a@x.com");
    assert_eq!(p.to, "b@x.com");
    assert_eq!(p.subject, "S");
    assert_eq!(p.text, BOB_FROM_ALICE);
}

#[test]
fn idempotency_key_prefixes_document_key() {
    assert_eq!(idempotency_key("doc42"), "futura-doc42");
    assert_eq!(idempotency_key(""), "futura-");
    assert_eq!(idempotency_key("a b/\"é\n"), "futura-a b/\"é\n");
}

#[test]
fn headers_in_order() {
    let h = build_headers("tok", "k1");
    assert_eq!(h.len(), 3);
    assert_eq!((h[0].name.as_str(), h[0].value.as_str()), ("Content-Type", "application/json"));
    assert_eq!((h[1].name.as_str(), h[1].value.as_str()), ("Authorization", "Bearer tok"));
    assert_eq!((h[2].name.as_str(), h[2].value.as_str()), ("idempotency-key", "futura-k1"));
}

#[test]
fn missing_token_gives_empty_bearer() {
    let c = config(None);
    assert_eq!(c.auth_token, "");
    let h = build_headers(c.auth_token.as_str(), "d");
    assert_eq!(h[1].value, "Bearer ");
}

#[test]
fn frame_body_orders_keys() {
    assert_eq!(frame_body("1", "2", "3", "4"), "{\"from\":1,\"to\":2,\"subject\":3,\"text\":4}");
}

#[test]
fn encode_payload_escapes_strings() {
    let p = NotificationPayload {
        from: "q\"uote".to_string(),
        to: "back\\slash".to_string(),
        subject: "tab\t".to_string(),
        text: "line\nbreak".to_string(),
    };
    let body = match encode_payload(&p) {
        Ok(b) => b,
        Err(_) => panic!("encoding failed"),
    };
    assert_eq!(
        body,
        "{\"from\":\"q\\\"uote\",\"to\":\"back\\\\slash\",\"subject\":\"tab\\t\",\"text\":\"line\\nbreak\"}"
    );
}

#[test]
fn decode_failure_makes_no_call() {
    let r = plan_dispatch(&config(Some("t")), "doc42", Err("missing field `to`".to_string()));
    match r {
        Err(DispatchError::Decode { cause }) => assert_eq!(cause, "missing field `to`"),
        _ => panic!("expected a decode error and no call"),
    }
}

#[test]
fn decode_failure_reports_its_cause() {
    let r = plan_dispatch(&config(None), "d", Err("invalid type: integer".to_string()));
    let out = report(r.map(|_| ()));
    assert_eq!(out, Err("invalid type: integer".to_string()));
}

#[test]
fn success_statuses() {
    for s in [200u64, 201, 202, 299] {
        assert!(is_success_status(s));
        assert!(classify_outcome(replied(s, b"ok")).is_ok(), "status {}", s);
    }
}

#[test]
fn failure_statuses_carry_status_and_body() {
    for s in [199u64, 300, 404, 500] {
        assert!(!is_success_status(s));
        match classify_outcome(replied(s, b"nope")) {
            Err(DispatchError::Remote { status, body }) => {
                assert_eq!(status, s);
                assert_eq!(body, "nope");
            }
            _ => panic!("status {} should be a remote error", s),
        }
    }
}

#[test]
fn classify_reply_keeps_body_text() {
    match classify_reply(418, "teapot".to_string()) {
        Err(DispatchError::Remote { status, body }) => {
            assert_eq!(status, 418);
            assert_eq!(body, "teapot");
        }
        _ => panic!("expected remote error"),
    }
    assert!(classify_reply(204, String::new()).is_ok());
}

#[test]
fn invalid_utf8_body_is_replaced() {
    match classify_outcome(replied(500, &[b'o', 0xff, b'k'])) {
        Err(DispatchError::Remote { body, .. }) => assert_eq!(body, "o\u{FFFD}k"),
        _ => panic!("expected remote error"),
    }
}

#[test]
fn transport_failure_is_not_remote() {
    let o = CallOutcome::Rejected {
        code: RejectionKind::SysTransient,
        message: "connection refused".to_string(),
    };
    match classify_outcome(o) {
        Err(DispatchError::Transport { code, message }) => {
            assert_eq!(code, RejectionKind::SysTransient);
            assert_eq!(message, "connection refused");
        }
        _ => panic!("expected transport error"),
    }
}

#[test]
fn transport_error_text() {
    let e = DispatchError::Transport { code: RejectionKind::SysFatal, message: "down".to_string() };
    assert_eq!(e.message(), "HTTP request failed. RejectionCode: SysFatal, Error: down");
}

#[test]
fn serialization_and_decode_error_text() {
    let e = DispatchError::Serialization { cause: "bad".to_string() };
    assert_eq!(e.message(), "Failed to serialize email payload: bad");
    let d = DispatchError::Decode { cause: "missing field `from`".to_string() };
    assert_eq!(d.message(), "missing field `from`");
}

#[test]
fn rejection_names() {
    assert_eq!(RejectionKind::NoError.name(), "NoError");
    assert_eq!(RejectionKind::DestinationInvalid.name(), "DestinationInvalid");
    assert_eq!(RejectionKind::CanisterReject.name(), "CanisterReject");
    assert_eq!(RejectionKind::CanisterError.name(), "CanisterError");
    assert_eq!(RejectionKind::Unknown.name(), "Unknown");
}

#[test]
fn decimal_values() {
    assert_eq!(decimal_text(0), "0");
    assert_eq!(decimal_text(7), "7");
    assert_eq!(decimal_text(10), "10");
    assert_eq!(decimal_text(503), "503");
    assert_eq!(decimal_text(u64::MAX), "18446744073709551615");
}

#[test]
fn scenario_accepted_delivery() {
    let c = config(Some("secret"));
    let o = match plan_dispatch(&c, "doc42", Ok(request("Alice", "Bob"))) {
        Ok(o) => o,
        Err(_) => panic!("expected a call"),
    };
    assert_eq!(o.url, ENDPOINT);
    assert_eq!(o.method, HttpMethod::Post);
    assert_eq!(o.max_response_bytes, MAX_RESPONSE_BYTES);
    assert_eq!(o.max_response_bytes, 1000);
    assert_eq!(o.cycles, CALL_CYCLES);
    let expected = "{\"from\":\"a@x.com\",\"to\":\"b@x.com\",\"subject\":\"S\",\"text\":\"Hello Bob,\\n\\nAlice has shared some files with you through Futura.\\n\\nYou can access your shared files at: https://futura.app\\n\\nBest regards,\\nThe Futura Team\"}";
    assert_eq!(String::from_utf8(o.body.clone()).unwrap(), expected);
    assert_eq!(o.headers[2].name, "idempotency-key");
    assert_eq!(o.headers[2].value, "futura-doc42");
    assert_eq!(o.headers[1].value, "Bearer secret");
    assert_eq!(report(classify_outcome(replied(202, b""))), Ok(()));
}

#[test]
fn scenario_overloaded_service() {
    let c = config(Some("secret"));
    assert!(plan_dispatch(&c, "doc42", Ok(request("Alice", "Bob"))).is_ok());
    let out = report(classify_outcome(replied(503, b"overloaded")));
    let text = match out {
        Err(t) => t,
        Ok(()) => panic!("expected an error"),
    };
    assert!(text.contains("503"));
    assert!(text.contains("overloaded"));
    assert_eq!(text, "Email API returned status 503: overloaded");
}

#[test]
fn registry_routes_only_writes_to_collection() {
    let r = HookRegistry::new("email_requests".to_string());
    assert_eq!(r.handler_for(HookEvent::SetDoc, "email_requests"), Handler::NotificationDispatch);
    assert_eq!(r.handler_for(HookEvent::SetDoc, "other"), Handler::NoOp);
    assert_eq!(r.handler_for(HookEvent::DeleteDoc, "email_requests"), Handler::NoOp);
    assert_eq!(r.handler_for(HookEvent::SetManyDocs, "email_requests"), Handler::NoOp);
    assert_eq!(r.handler_for(HookEvent::UploadAsset, "x"), Handler::NoOp);
    assert_eq!(run_noop(), Ok(()));
}

#[test]
fn encode_payload_escapes_other_controls_in_hex() {
    let p = NotificationPayload {
        from: "\u{1}".to_string(),
        to: "\u{1f}\u{8}\u{c}\r".to_string(),
        subject: "/é\u{7f}".to_string(),
        text: String::new(),
    };
    let body = match encode_payload(&p) {
        Ok(b) => b,
        Err(_) => panic!("encoding failed"),
    };
    assert_eq!(
        body,
        "{\"from\":\"\\u0001\",\"to\":\"\\u001f\\b\\f\\r\",\"subject\":\"/é\u{7f}\",\"text\":\"\"}"
    );
}
