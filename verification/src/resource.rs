//! The resource server's decisions: when to ask for payment, how to forward a payment to
//! the facilitator and what to answer once it settled.
use vstd::prelude::*;
use vstd::string::*;
use crate::b64::{base64_encoding, decode_header};
use crate::text::{ascii_bytes, concat};
use crate::types::{PaymentPayload, PaymentRequired, SettleRequest, SettleResponse};

verus! {

/// Header carrying the payment requirements (base64 JSON).
pub const HEADER_PAYMENT_REQUIRED: &'static str = "X-PAYMENT-REQUIRED";

/// Header carrying the client's payment (base64 JSON).
pub const HEADER_PAYMENT_SIGNATURE: &'static str = "X-PAYMENT";

/// Header carrying the settlement result (base64 JSON).
pub const HEADER_PAYMENT_RESPONSE: &'static str = "X-PAYMENT-RESPONSE";

/// Why a paid request failed.
#[derive(Clone, Debug)]
pub enum ProcessingError {
    BadRequest(String),
    BadGateway(String),
    PaymentFailed(String),
}

impl ProcessingError {
    /// The HTTP status of the answer.
    pub fn status(&self) -> (r: u16)
        ensures
            r == match *self {
                ProcessingError::BadRequest(_) => 400u16,
                ProcessingError::BadGateway(_) => 502,
                ProcessingError::PaymentFailed(_) => 402,
            },
    {
        match self {
            ProcessingError::BadRequest(_) => 400,
            ProcessingError::BadGateway(_) => 502,
            ProcessingError::PaymentFailed(_) => 402,
        }
    }

    /// The body of the answer.
    pub fn message(&self) -> (r: String)
        ensures
            r@ == match *self {
                ProcessingError::BadRequest(m) => m@,
                ProcessingError::BadGateway(m) => m@,
                ProcessingError::PaymentFailed(m) => m@,
            },
    {
        match self {
            ProcessingError::BadRequest(m) => m.clone(),
            ProcessingError::BadGateway(m) => m.clone(),
            ProcessingError::PaymentFailed(m) => m.clone(),
        }
    }
}

/// The body sent with a 402 answer.
pub fn payment_required_body() -> (r: &'static str)
    ensures
        r@ == "Payment required"@,
{
    "Payment required"
}

/// The paid content.
pub fn resource_body() -> (r: &'static str)
    ensures
        r@ == "{\"data\":\"secret-resource-content: https://odra.dev\"}"@,
{
    "{\"data\":\"secret-resource-content: https://odra.dev\"}"
}

/// The JSON bytes of the payment carried by a `PAYMENT-SIGNATURE` header value.
pub fn decode_payment(header: &[u8]) -> (r: Result<Vec<u8>, ProcessingError>)
    ensures
        r matches Ok(d) ==> ascii_bytes(base64_encoding(d@)) == header@,
        r is Err ==> forall|d: Seq<u8>| ascii_bytes(#[trigger] base64_encoding(d)) != header@,
        r matches Err(e) ==> e matches ProcessingError::BadRequest(m) && m@
            == "Cannot base64-decode PAYMENT-SIGNATURE"@,
{
    match decode_header(header) {
        Ok(d) => Ok(d),
        Err(_) => Err(
            ProcessingError::BadRequest(String::from_str("Cannot base64-decode PAYMENT-SIGNATURE")),
        ),
    }
}

/// The answer to a payment whose JSON could not be read (`detail` says why).
pub fn unreadable_payment(detail: &str) -> (r: ProcessingError)
    ensures
        r matches ProcessingError::BadRequest(m) && m@ == "Cannot parse payment payload: "@
            + detail@,
{
    ProcessingError::BadRequest(concat("Cannot parse payment payload: ", detail))
}

/// The facilitator's settlement endpoint.
pub fn settle_url(facilitator_url: &str) -> (r: String)
    ensures
        r@ == facilitator_url@ + "/settle"@,
{
    concat(facilitator_url, "/settle")
}

/// The request forwarded to the facilitator.
pub fn settle_request(payload: PaymentPayload, requirements: PaymentRequired) -> (r: SettleRequest)
    ensures
        r.payment_payload == payload,
        r.payment_requirements == requirements,
{
    SettleRequest { payment_payload: payload, payment_requirements: requirements }
}

/// The answer when the facilitator cannot be reached.
pub fn facilitator_unreachable(detail: &str) -> (r: ProcessingError)
    ensures
        r matches ProcessingError::BadGateway(m) && m@ == "Facilitator unreachable: "@ + detail@,
{
    ProcessingError::BadGateway(concat("Facilitator unreachable: ", detail))
}

/// The answer when the facilitator's reply cannot be read.
pub fn invalid_facilitator_response(detail: &str) -> (r: ProcessingError)
    ensures
        r matches ProcessingError::BadGateway(m) && m@ == "Invalid facilitator response: "@
            + detail@,
{
    ProcessingError::BadGateway(concat("Invalid facilitator response: ", detail))
}

/// What a settlement result means for the request: served, or refused with 402 and the
/// facilitator's reason.
pub fn settlement_outcome(settle: &SettleResponse) -> (r: Result<(), ProcessingError>)
    ensures
        settle.success <==> r is Ok,
        r matches Err(e) ==> e matches ProcessingError::PaymentFailed(m) && m@ == "Payment failed: "@
            + match settle.error_reason {
            Some(reason) => reason@,
            None => Seq::<char>::empty(),
        },
{
    if settle.success {
        Ok(())
    } else {
        let reason = match &settle.error_reason {
            Some(r) => r.clone(),
            None => String::new(),
        };
        Err(ProcessingError::PaymentFailed(concat("Payment failed: ", reason.as_str())))
    }
}

} // verus!
