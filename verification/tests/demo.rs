use casper_x402::b64::{decode_header, encode_header};
use casper_x402::config::Config;
use casper_x402::crypto::SigningKey;
use casper_x402::types::CasperAuthorization;
use casper_x402::eip712::{casper_address_from_bytes, x402_domain};
use casper_x402::serde_address::serialize;
use casper_x402::flow::{FlowAction, FlowDetails, FlowEvent, FlowStage, FlowStep, RunFlow, UiState};
use casper_x402::resource::{
    decode_payment, facilitator_unreachable, invalid_facilitator_response, payment_required_body,
    resource_body, settle_request, settle_url, settlement_outcome, unreadable_payment,
    ProcessingError, HEADER_PAYMENT_REQUIRED, HEADER_PAYMENT_RESPONSE, HEADER_PAYMENT_SIGNATURE,
};
use casper_x402::types::{PaymentRequired, SettleResponse, VerifyResponse};
use casper_x402::uint::U256;

fn s(x: &str) -> Option<String> {
    Some(x.to_string())
}

#[test]
fn config_from_vars_reads_all_values() {
    let c = Config::from_vars(
        s("http://127.0.0.1:3001"),
        s("http://127.0.0.1:3002"),
        s("3002"),
        s("00aa"),
        s("250"),
        s(".node_keys/secret_key.pem"),
    )
    .unwrap();
    assert_eq!(c.facilitator_url, "http://127.0.0.1:3001");
    assert_eq!(c.resource_url, "http://127.0.0.1:3002");
    assert_eq!(c.resource_port, 3002);
    assert_eq!(c.pay_to, "00aa");
    assert_eq!(c.payment_amount, 250);
    assert_eq!(c.secret_key_path, ".node_keys/secret_key.pem");
}

#[test]
fn config_defaults() {
    let c = Config::from_vars(None, None, None, s("account-hash-01"), None, None).unwrap();
    assert_eq!(c.facilitator_url, "http://127.0.0.1:3001");
    assert_eq!(c.resource_url, "http://127.0.0.1:3002");
    assert_eq!(c.resource_port, 3002);
    assert_eq!(c.pay_to, "account-hash-01");
    assert_eq!(c.payment_amount, 1_000_000);
    assert_eq!(c.secret_key_path, ".node_keys/secret_key.pem");
}

#[test]
fn config_errors_in_order() {
    let err = |r: Result<Config, String>| r.err().unwrap();
    assert_eq!(err(Config::from_vars(None, None, None, None, None, None)), "Missing PAY_TO");
    assert_eq!(
        err(Config::from_vars(None, None, s("70000"), None, None, None)),
        "Invalid RESOURCE_SERVER_PORT"
    );
    assert_eq!(
        err(Config::from_vars(s("f"), s("r"), s("1"), s("p"), s("-5"), None)),
        "Invalid PAYMENT_AMOUNT"
    );
    assert_eq!(
        err(Config::from_vars(None, None, None, None, s("-5"), None)),
        "Missing PAY_TO"
    );
}

#[test]
fn header_encoding() {
    assert_eq!(encode_header(""), "");
    assert_eq!(encode_header("{}"), "e30=");
    assert_eq!(encode_header("a"), "YQ==");
    assert_eq!(encode_header("abc"), "YWJj");
    assert_eq!(encode_header("{\"a\":1}"), "eyJhIjoxfQ==");
}

#[test]
fn header_round_trip() {
    for text in ["", "x", "xy", "xyz", "{\"scheme\":\"exact\",\"amount\":1000}"] {
        assert_eq!(decode_header(encode_header(text).as_bytes()).unwrap(), text.as_bytes());
    }
}

#[test]
fn header_decoding_refuses_non_base64() {
    assert_eq!(decode_header(b"e30").unwrap_err(), "Cannot base64-decode header");
    assert_eq!(decode_header(b"!!!!").unwrap_err(), "Cannot base64-decode header");
    assert_eq!(decode_header(b"e31=").unwrap_err(), "Cannot base64-decode header");
}

#[test]
fn header_names() {
    assert_eq!(HEADER_PAYMENT_REQUIRED, "X-PAYMENT-REQUIRED");
    assert_eq!(HEADER_PAYMENT_SIGNATURE, "X-PAYMENT");
    assert_eq!(HEADER_PAYMENT_RESPONSE, "X-PAYMENT-RESPONSE");
}

#[test]
fn processing_errors() {
    let e = ProcessingError::BadRequest("a".to_string());
    assert_eq!((e.status(), e.message()), (400, "a".to_string()));
    let e = ProcessingError::BadGateway("b".to_string());
    assert_eq!((e.status(), e.message()), (502, "b".to_string()));
    let e = ProcessingError::PaymentFailed("c".to_string());
    assert_eq!((e.status(), e.message()), (402, "c".to_string()));
    assert_eq!(facilitator_unreachable("down").message(), "Facilitator unreachable: down");
    assert_eq!(facilitator_unreachable("down").status(), 502);
    assert_eq!(invalid_facilitator_response("eof").message(), "Invalid facilitator response: eof");
    assert_eq!(unreadable_payment("eof").message(), "Cannot parse payment payload: eof");
    assert_eq!(unreadable_payment("eof").status(), 400);
}

#[test]
fn resource_texts() {
    assert_eq!(payment_required_body(), "Payment required");
    assert_eq!(resource_body(), "{\"data\":\"secret-resource-content: https://odra.dev\"}");
    assert_eq!(settle_url("http://127.0.0.1:3001"), "http://127.0.0.1:3001/settle");
}

#[test]
fn payment_header_decoding() {
    assert_eq!(decode_payment(b"e30=").unwrap(), b"{}");
    let e = decode_payment(b"not base64").unwrap_err();
    assert_eq!(e.status(), 400);
    assert_eq!(e.message(), "Cannot base64-decode PAYMENT-SIGNATURE");
}

fn settle(success: bool, reason: Option<&str>) -> SettleResponse {
    SettleResponse {
        success,
        transaction: None,
        error_reason: reason.map(|r| r.to_string()),
        payer: None,
    }
}

#[test]
fn settlement_outcomes() {
    assert!(settlement_outcome(&settle(true, None)).is_ok());
    let e = settlement_outcome(&settle(false, Some("authorization expired"))).unwrap_err();
    assert_eq!(e.status(), 402);
    assert_eq!(e.message(), "Payment failed: authorization expired");
    let e = settlement_outcome(&settle(false, None)).unwrap_err();
    assert_eq!(e.message(), "Payment failed: ");
}

fn requirements() -> PaymentRequired {
    PaymentRequired {
        x402_version: 2,
        scheme: "exact".to_string(),
        network: "casper:test".to_string(),
        asset: "CEP18X402".to_string(),
        amount: 1000,
        pay_to: serialize(&casper_address_from_bytes([0x42; 32])),
        max_timeout_secs: 300,
        resource: "http://127.0.0.1:3002/api/data".to_string(),
    }
}

#[test]
fn settle_request_forwards_payload_and_requirements() {
    let secret = SigningKey::from_bytes(1, &[1u8; 32]).unwrap();
    let ui = ui_state(secret);
    let mut flow = RunFlow::new();
    flow.step(FlowEvent::Begin, &ui);
    let FlowAction::Verify(req) = flow.step(answered(402), &ui) else { panic!("no verification") };
    let forwarded = settle_request(req.payment_payload.clone(), req.payment_requirements.clone());
    assert_eq!(forwarded.payment_payload.authorization.signature, req.payment_payload.authorization.signature);
    assert_eq!(forwarded.payment_requirements.pay_to, req.payment_requirements.pay_to);
}

#[test]
fn flow_step_constructors() {
    let e = FlowStep::step_1_error("boom".to_string());
    assert_eq!((e.step, e.title.as_str(), e.status.as_str()), (1, "Request Resource", "error"));
    assert!(matches!(e.details, FlowDetails::Reason(ref r) if r == "boom"));
    let ok = FlowStep::step_1_success(&requirements());
    assert_eq!(ok.status, "success");
    assert!(matches!(ok.details, FlowDetails::Requirements { amount: 1000, .. }));
    let e = FlowStep::step_2_error("x".to_string());
    assert_eq!((e.step, e.title.as_str()), (2, "Sign Authorization"));
    let e = FlowStep::step_3_error(Some("bad".to_string()));
    assert_eq!((e.step, e.title.as_str(), e.status.as_str()), (3, "Verify Payment", "error"));
    let v = FlowStep::step_3_success(Some("abc".to_string()));
    assert!(matches!(v.details, FlowDetails::Valid { payer: Some(ref p) } if p == "account-hash-abc"));
    let v = FlowStep::step_3_success(None);
    assert!(matches!(v.details, FlowDetails::Valid { payer: Some(ref p) } if p == "account-hash-"));
    let e = FlowStep::step_4_error("y".to_string());
    assert_eq!((e.step, e.title.as_str()), (4, "Pay & Access Resource"));
    let e = FlowStep::step_4_payment_error(402, "no".to_string());
    assert!(matches!(e.details, FlowDetails::Status { status: 402, ref body } if body == "no"));
    let ok = FlowStep::step_4_success(200, "body".to_string(), None);
    assert_eq!(ok.status, "success");
}

#[test]
fn step_2_shows_account_hashes_and_nonce_prefix() {
    let mut nonce = [0u8; 32];
    nonce[2] = 1;
    nonce[3] = 2;
    nonce[4] = 0xff;
    let auth = CasperAuthorization {
        from: serialize(&casper_address_from_bytes([0x11; 32])),
        to: serialize(&casper_address_from_bytes([0x22; 32])),
        amount: 1000,
        valid_after: U256::from_u64(5).to_be_bytes(),
        valid_before: U256::from_u64(10).to_be_bytes(),
        nonce: casper_x402::text::hex_encode(&nonce),
        public_key: String::new(),
        signature: String::new(),
    };
    let step = FlowStep::step_2_success(&auth);
    assert_eq!((step.step, step.title.as_str(), step.status.as_str()), (2, "Sign Authorization", "success"));
    let FlowDetails::Authorization { from, to, amount, valid_after, valid_before, nonce } = step.details
    else {
        panic!("not an authorization")
    };
    assert_eq!(from, format!("account-hash-{}", "11".repeat(32)));
    assert_eq!(to, format!("account-hash-{}", "22".repeat(32)));
    assert_eq!(amount, 1000);
    assert_eq!(valid_after, U256::from_u64(5).to_be_bytes());
    assert_eq!(valid_before, U256::from_u64(10).to_be_bytes());
    assert_eq!(nonce, 258);
}

fn ui_state(secret: SigningKey) -> UiState {
    let public_key = secret.public_key();
    UiState {
        secret_key: secret,
        public_key,
        resource_url: "http://127.0.0.1:3002".to_string(),
        facilitator_url: "http://127.0.0.1:3001".to_string(),
        domain: x402_domain("casper-net-1", [5; 32]),
    }
}

fn answered(status: u16) -> FlowEvent {
    FlowEvent::ResourceAnswered {
        status,
        payment_required: Some("e30=".to_string()),
        requirements: Some(requirements()),
        nonce: [7; 32],
        now: 1_700_000_000,
    }
}

#[test]
fn flow_happy_path() {
    let ui = ui_state(SigningKey::from_bytes(1, &[1u8; 32]).unwrap());
    let mut flow = RunFlow::new();
    assert_eq!(flow.stage(), FlowStage::Start);
    assert!(matches!(flow.step(FlowEvent::Begin, &ui), FlowAction::FetchResource));
    assert_eq!(flow.stage(), FlowStage::AwaitingResource);
    let action = flow.step(answered(402), &ui);
    let FlowAction::Verify(req) = action else { panic!("expected verification") };
    assert_eq!(flow.stage(), FlowStage::AwaitingVerification);
    assert_eq!(req.payment_requirements.amount, 1000);
    assert_eq!(req.payment_payload.scheme, "exact");
    assert_eq!(req.payment_payload.authorization.amount, 1000);
    assert_eq!(flow.steps().len(), 2);
    assert_eq!(flow.steps()[0].status, "success");
    assert_eq!(flow.steps()[1].status, "success");
    let auth = &req.payment_payload.authorization;
    let FlowDetails::SignedAuthorization { from, to, amount, valid_after, valid_before, nonce } =
        &flow.steps()[1].details
    else {
        panic!("not the signed authorization")
    };
    assert_eq!((from, to, nonce), (&auth.from, &auth.to, &auth.nonce));
    assert_eq!(*amount, 1000);
    assert_eq!(*valid_after, U256::from_u64(1_700_000_000 - 1).to_be_bytes());
    assert_eq!(*valid_before, auth.valid_before);
    assert_eq!(nonce, &"07".repeat(32));
    let verdict = VerifyResponse { is_valid: true, invalid_reason: None, payer: Some("account-hash-aa".to_string()) };
    let FlowAction::Pay(payload) = flow.step(FlowEvent::VerifyAnswered(verdict), &ui) else {
        panic!("expected payment")
    };
    assert_eq!(payload.authorization.signature, req.payment_payload.authorization.signature);
    assert_eq!(flow.stage(), FlowStage::AwaitingPayment);
    let done = flow.step(
        FlowEvent::PaymentAnswered { status: 200, transaction: None, body: "ok".to_string() },
        &ui,
    );
    assert!(matches!(done, FlowAction::Finish));
    assert_eq!(flow.stage(), FlowStage::Finished);
    assert_eq!(flow.steps().len(), 4);
    let last = &flow.steps()[3];
    assert_eq!((last.step, last.status.as_str()), (4, "success"));
    assert!(matches!(last.details, FlowDetails::Paid { status: 200, ref transaction, .. } if transaction == "(none)"));
    // A finished flow stays finished.
    assert!(matches!(flow.step(FlowEvent::Begin, &ui), FlowAction::Finish));
    assert_eq!(flow.steps().len(), 4);
}

#[test]
fn flow_stops_on_unexpected_status() {
    let ui = ui_state(SigningKey::from_bytes(1, &[1u8; 32]).unwrap());
    let mut flow = RunFlow::new();
    flow.step(FlowEvent::Begin, &ui);
    assert!(matches!(flow.step(answered(200), &ui), FlowAction::Finish));
    assert_eq!(flow.steps().len(), 1);
    assert!(matches!(flow.steps()[0].details, FlowDetails::Error(ref m) if m == "Expected 402, got 200"));
}

#[test]
fn flow_stops_when_resource_unreachable() {
    let ui = ui_state(SigningKey::from_bytes(1, &[1u8; 32]).unwrap());
    let mut flow = RunFlow::new();
    flow.step(FlowEvent::Begin, &ui);
    flow.step(FlowEvent::ResourceUnreachable("refused".to_string()), &ui);
    assert_eq!(flow.stage(), FlowStage::Finished);
    assert!(matches!(flow.steps()[0].details, FlowDetails::Error(ref m) if m == "Failed to reach resource server: refused"));
}

#[test]
fn flow_stops_on_missing_or_unreadable_requirements() {
    let ui = ui_state(SigningKey::from_bytes(1, &[1u8; 32]).unwrap());
    let mut flow = RunFlow::new();
    flow.step(FlowEvent::Begin, &ui);
    flow.step(
        FlowEvent::ResourceAnswered { status: 402, payment_required: None, requirements: None, nonce: [0; 32], now: 5 },
        &ui,
    );
    assert!(matches!(flow.steps()[0].details, FlowDetails::Error(ref m) if m == "Missing X-PAYMENT-REQUIRED header"));
    let mut flow = RunFlow::new();
    flow.step(FlowEvent::Begin, &ui);
    flow.step(
        FlowEvent::ResourceAnswered { status: 402, payment_required: Some("?".to_string()), requirements: None, nonce: [0; 32], now: 5 },
        &ui,
    );
    assert!(matches!(flow.steps()[0].details, FlowDetails::Error(ref m) if m == "Failed to decode payment requirements"));
}

#[test]
fn flow_reports_signing_failure() {
    let ui = ui_state(SigningKey::from_bytes(1, &[1u8; 32]).unwrap());
    let mut flow = RunFlow::new();
    flow.step(FlowEvent::Begin, &ui);
    let mut req = requirements();
    req.pay_to = "nope".to_string();
    let event = FlowEvent::ResourceAnswered {
        status: 402,
        payment_required: Some("e30=".to_string()),
        requirements: Some(req),
        nonce: [0; 32],
        now: 5,
    };
    assert!(matches!(flow.step(event, &ui), FlowAction::Finish));
    assert_eq!(flow.steps().len(), 2);
    assert_eq!((flow.steps()[1].step, flow.steps()[1].status.as_str()), (2, "error"));
    assert!(matches!(flow.steps()[1].details, FlowDetails::Error(ref m) if m == "Invalid pay_to address: nope"));
}

#[test]
fn flow_reports_signing_before_the_epoch() {
    let ui = ui_state(SigningKey::from_bytes(1, &[1u8; 32]).unwrap());
    let mut flow = RunFlow::new();
    flow.step(FlowEvent::Begin, &ui);
    let event = FlowEvent::ResourceAnswered {
        status: 402,
        payment_required: Some("e30=".to_string()),
        requirements: Some(requirements()),
        nonce: [0; 32],
        now: 0,
    };
    assert!(matches!(flow.step(event, &ui), FlowAction::Finish));
    assert!(matches!(flow.steps()[1].details, FlowDetails::Error(ref m) if m == "validity window starts before the epoch"));
}

#[test]
fn flow_steps_are_numbered_in_order() {
    let ui = ui_state(SigningKey::from_bytes(1, &[1u8; 32]).unwrap());
    let mut flow = RunFlow::new();
    flow.step(FlowEvent::Begin, &ui);
    flow.step(answered(402), &ui);
    flow.step(FlowEvent::VerifyAnswered(VerifyResponse { is_valid: true, invalid_reason: None, payer: None }), &ui);
    flow.step(FlowEvent::PaymentUnreachable("down".to_string()), &ui);
    let titles = ["Request Resource", "Sign Authorization", "Verify Payment", "Pay & Access Resource"];
    assert_eq!(flow.steps().len(), 4);
    for (i, s) in flow.steps().iter().enumerate() {
        assert_eq!(s.step as usize, i + 1);
        assert_eq!(s.title, titles[i]);
        assert_eq!(s.status, if i < 3 { "success" } else { "error" });
    }
    assert_eq!(flow.stage(), FlowStage::Finished);
}

#[test]
fn flow_reports_refused_verification_and_failed_payment() {
    let ui = ui_state(SigningKey::from_bytes(1, &[1u8; 32]).unwrap());
    let mut flow = RunFlow::new();
    flow.step(FlowEvent::Begin, &ui);
    flow.step(answered(402), &ui);
    let verdict = VerifyResponse {
        is_valid: false,
        invalid_reason: Some("authorization expired".to_string()),
        payer: None,
    };
    assert!(matches!(flow.step(FlowEvent::VerifyAnswered(verdict), &ui), FlowAction::Finish));
    assert_eq!(flow.steps().len(), 3);
    assert!(matches!(flow.steps()[2].details, FlowDetails::Invalid { reason: Some(ref r) } if r == "authorization expired"));

    let mut flow = RunFlow::new();
    flow.step(FlowEvent::Begin, &ui);
    flow.step(answered(402), &ui);
    flow.step(FlowEvent::VerifyAnswered(VerifyResponse { is_valid: true, invalid_reason: None, payer: None }), &ui);
    flow.step(FlowEvent::PaymentAnswered { status: 402, transaction: None, body: "Payment failed: x".to_string() }, &ui);
    let last = &flow.steps()[3];
    assert_eq!(last.status, "error");
    assert!(matches!(last.details, FlowDetails::Status { status: 402, ref body } if body == "Payment failed: x"));
}

#[test]
fn flow_reports_unreachable_facilitator() {
    let ui = ui_state(SigningKey::from_bytes(1, &[1u8; 32]).unwrap());
    let mut flow = RunFlow::new();
    flow.step(FlowEvent::Begin, &ui);
    flow.step(answered(402), &ui);
    flow.step(FlowEvent::VerifyUnreachable("timeout".to_string()), &ui);
    assert!(matches!(flow.steps()[2].details, FlowDetails::Error(ref m) if m == "Facilitator unreachable: timeout"));
    assert_eq!(flow.stage(), FlowStage::Finished);
}

#[test]
fn flow_ignores_events_of_another_stage() {
    let ui = ui_state(SigningKey::from_bytes(1, &[1u8; 32]).unwrap());
    let mut flow = RunFlow::new();
    flow.step(FlowEvent::Begin, &ui);
    assert!(matches!(flow.step(FlowEvent::VerifyUnreachable("x".to_string()), &ui), FlowAction::Finish));
    assert_eq!(flow.steps().len(), 0);
    assert_eq!(flow.stage(), FlowStage::Finished);
}
