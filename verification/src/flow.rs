//! The demo's four-step payment flow (request, sign, verify, pay) as a state machine: the
//! caller performs each action and hands back what came of it.
use vstd::prelude::*;
use vstd::string::*;
use vstd::utf8::encode_utf8;
use crate::client::{
    pay_to_error, payee_account_hash, sign_authorization, signed_for,
};
use crate::crypto::{PublicKey, SigningKey};
use crate::eip712::{Address, TransferWithAuthorization, X402Domain};
use crate::text::{concat, decimal, decimal_string, hex_encode, hex_encoding};
use crate::uint::be_value;
use crate::types::{
    CasperAuthorization, PaymentPayload, PaymentRequired, SettleResponse, VerifyRequest,
    VerifyResponse, authorization_matches, authorization_well_formed,
};

verus! {

/// What a step reports.
#[derive(Debug)]
pub enum FlowDetails {
    /// `{"reason": ..}`
    Reason(String),
    /// `{"error": ..}`
    Error(String),
    /// `{"response": "402 Payment Required", "amount", "pay_to", "scheme", "network"}`
    Requirements { amount: u64, pay_to: String, scheme: String, network: String },
    /// `{"from", "to", "amount", "valid_after", "valid_before", "nonce"}`: the transfer's
    /// addresses in account-hash form and the first four nonce bytes as a number
    Authorization {
        from: String,
        to: String,
        amount: u64,
        valid_after: [u8; 32],
        valid_before: [u8; 32],
        nonce: u32,
    },
    /// `{"from", "to", "amount", "valid_after", "valid_before", "nonce"}`: the fields of the
    /// signed authorization as they are sent
    SignedAuthorization {
        from: String,
        to: String,
        amount: u64,
        valid_after: [u8; 32],
        valid_before: [u8; 32],
        nonce: String,
    },
    /// `{"is_valid": true, "payer": ..}`
    Valid { payer: Option<String> },
    /// `{"is_valid": false, "reason": ..}`
    Invalid { reason: Option<String> },
    /// `{"status", "body"}`
    Status { status: u16, body: String },
    /// `{"status", "payment_response", "body"}`
    Settled { status: u16, payment_response: Option<SettleResponse>, body: String },
    /// `{"status", "transaction", "body"}`
    Paid { status: u16, transaction: String, body: String },
}

/// One step of the flow as shown to the user.
#[derive(Debug)]
pub struct FlowStep {
    pub step: u8,
    pub title: String,
    pub status: String,
    pub details: FlowDetails,
}

/// The title of step `n`.
pub open spec fn step_title(n: u8) -> Seq<char> {
    if n == 1 {
        "Request Resource"@
    } else if n == 2 {
        "Sign Authorization"@
    } else if n == 3 {
        "Verify Payment"@
    } else {
        "Pay & Access Resource"@
    }
}

/// Whether `s` is step `n` with status `status`.
pub open spec fn is_step(s: FlowStep, n: u8, status: Seq<char>) -> bool {
    s.step == n && s.title@ == step_title(n) && s.status@ == status
}

/// Whether `s` is the failed step `n` reporting `{"error": msg}`.
pub open spec fn is_error_step(s: FlowStep, n: u8, msg: Seq<char>) -> bool {
    is_step(s, n, "error"@) && (s.details matches FlowDetails::Error(m) && m@ == msg)
}

fn title(n: u8) -> (r: String)
    requires
        1 <= n <= 4,
    ensures
        r@ == step_title(n),
{
    if n == 1 {
        String::from_str("Request Resource")
    } else if n == 2 {
        String::from_str("Sign Authorization")
    } else if n == 3 {
        String::from_str("Verify Payment")
    } else {
        String::from_str("Pay & Access Resource")
    }
}

fn make_step(n: u8, ok: bool, details: FlowDetails) -> (r: FlowStep)
    requires
        1 <= n <= 4,
    ensures
        is_step(r, n, if ok {
            "success"@
        } else {
            "error"@
        }),
        r.details == details,
{
    FlowStep {
        step: n,
        title: title(n),
        status: if ok {
            String::from_str("success")
        } else {
            String::from_str("error")
        },
        details,
    }
}

fn error_step(n: u8, prefix: &str, detail: &str) -> (r: FlowStep)
    requires
        1 <= n <= 4,
    ensures
        is_error_step(r, n, prefix@ + detail@),
{
    make_step(n, false, FlowDetails::Error(concat(prefix, detail)))
}

impl FlowStep {
    pub fn step_1_error(reason: String) -> (r: Self)
        ensures
            is_step(r, 1, "error"@),
            r.details == FlowDetails::Reason(reason),
    {
        make_step(1, false, FlowDetails::Reason(reason))
    }

    pub fn step_1_success(req: &PaymentRequired) -> (r: Self)
        ensures
            is_step(r, 1, "success"@),
            r.details matches FlowDetails::Requirements { amount, pay_to, scheme, network } && amount
                == req.amount && pay_to@ == req.pay_to@ && scheme@ == req.scheme@ && network@
                == req.network@,
    {
        make_step(
            1,
            true,
            FlowDetails::Requirements {
                amount: req.amount,
                pay_to: req.pay_to.clone(),
                scheme: req.scheme.clone(),
                network: req.network.clone(),
            },
        )
    }

    pub fn step_2_error(reason: String) -> (r: Self)
        ensures
            is_step(r, 2, "error"@),
            r.details == FlowDetails::Reason(reason),
    {
        make_step(2, false, FlowDetails::Reason(reason))
    }

    pub fn step_2_success(authorization: &CasperAuthorization) -> (r: Self)
        requires
            authorization_well_formed(*authorization),
        ensures
            is_step(r, 2, "success"@),
            authorization_shown(r.details, *authorization),
    {
        make_step(2, true, authorization_details(authorization))
    }

    pub fn step_3_error(reason: Option<String>) -> (r: Self)
        ensures
            is_step(r, 3, "error"@),
            r.details == (FlowDetails::Invalid { reason }),
    {
        make_step(3, false, FlowDetails::Invalid { reason })
    }

    pub fn step_3_success(payer: Option<String>) -> (r: Self)
        ensures
            is_step(r, 3, "success"@),
            r.details matches FlowDetails::Valid { payer: Some(p) } && p@ == "account-hash-"@
                + match payer {
                Some(x) => x@,
                None => Seq::<char>::empty(),
            },
    {
        let p = match payer {
            Some(x) => x,
            None => String::new(),
        };
        make_step(3, true, FlowDetails::Valid { payer: Some(concat("account-hash-", p.as_str())) })
    }

    pub fn step_4_error(reason: String) -> (r: Self)
        ensures
            is_step(r, 4, "error"@),
            r.details == FlowDetails::Reason(reason),
    {
        make_step(4, false, FlowDetails::Reason(reason))
    }

    pub fn step_4_payment_error(status: u16, body: String) -> (r: Self)
        ensures
            is_step(r, 4, "error"@),
            r.details == (FlowDetails::Status { status, body }),
    {
        make_step(4, false, FlowDetails::Status { status, body })
    }

    pub fn step_4_success(status: u16, body: String, payment_response: Option<SettleResponse>) -> (r:
        Self)
        ensures
            is_step(r, 4, "success"@),
            r.details == (FlowDetails::Settled { status, payment_response, body }),
    {
        make_step(4, true, FlowDetails::Settled { status, payment_response, body })
    }
}

/// The account-hash form in which the flow shows an address: `account-hash-` and the hex of
/// its hash (a Casper address without its tag byte, an Ethereum address whole).
pub open spec fn shown_address(a: Address) -> Seq<char> {
    "account-hash-"@ + hex_encoding(
        match a {
            Address::Casper(b) => b@.drop_first(),
            Address::Eth(b) => b@,
        },
    )
}

/// The first four bytes of a nonce, read big-endian.
pub open spec fn nonce_prefix(n: Seq<u8>) -> nat {
    be_value(n.take(4))
}

/// Whether `d` shows the authorization `auth`: the addresses of its transfer in account-hash
/// form, its amount and bounds, and the first four nonce bytes as a number.
pub open spec fn authorization_shown(d: FlowDetails, auth: CasperAuthorization) -> bool {
    exists|t: TransferWithAuthorization|
        authorization_matches(auth, t) && (d matches FlowDetails::Authorization {
            from,
            to,
            amount,
            valid_after,
            valid_before,
            nonce,
        } && from@ == shown_address(t.from) && to@ == shown_address(t.to) && amount
            == auth.amount && valid_after@ == auth.valid_after@ && valid_before@
            == auth.valid_before@ && nonce as nat == nonce_prefix(t.nonce@))
}

/// Whether `d` shows the fields of the authorization `auth` as they are sent.
pub open spec fn authorization_fields_shown(d: FlowDetails, auth: CasperAuthorization) -> bool {
    d matches FlowDetails::SignedAuthorization {
        from,
        to,
        amount,
        valid_after,
        valid_before,
        nonce,
    } && from@ == auth.from@ && to@ == auth.to@ && amount == auth.amount && valid_after@
        == auth.valid_after@ && valid_before@ == auth.valid_before@ && nonce@ == auth.nonce@
}

fn show_address(a: &Address) -> (r: String)
    ensures
        r@ == shown_address(*a),
{
    match a {
        Address::Casper(b) => {
            let rest = b.as_slice().split_at(1).1;
            assert(rest@ =~= b@.drop_first());
            let h = hex_encode(rest);
            concat("account-hash-", h.as_str())
        },
        Address::Eth(b) => {
            let h = hex_encode(b.as_slice());
            concat("account-hash-", h.as_str())
        },
    }
}

fn nonce_prefix_u32(n: &[u8; 32]) -> (r: u32)
    ensures
        r as nat == nonce_prefix(n@),
{
    let v: u32 = (n[0] as u32) * 16777216 + (n[1] as u32) * 65536 + (n[2] as u32) * 256
        + (n[3] as u32);
    proof {
        let s = n@;
        assert(s.take(0).len() == 0);
        assert(s.take(1).drop_last() =~= s.take(0));
        assert(s.take(2).drop_last() =~= s.take(1));
        assert(s.take(3).drop_last() =~= s.take(2));
        assert(s.take(4).drop_last() =~= s.take(3));
        assert(be_value(s.take(0)) == 0);
        assert(be_value(s.take(1)) == s[0]);
        assert(be_value(s.take(2)) == s[0] * 256 + s[1]);
        assert(be_value(s.take(3)) == (s[0] * 256 + s[1]) * 256 + s[2]);
        assert(be_value(s.take(4)) == ((s[0] * 256 + s[1]) * 256 + s[2]) * 256 + s[3]);
    }
    v
}

fn authorization_details(auth: &CasperAuthorization) -> (r: FlowDetails)
    requires
        authorization_well_formed(*auth),
    ensures
        authorization_shown(r, *auth),
{
    let t = match auth.to_transfer() {
        Ok(t) => t,
        Err(_) => {
            proof {
                assert(false);
            }
            return FlowDetails::Error(String::new());
        },
    };
    FlowDetails::Authorization {
        from: show_address(&t.from),
        to: show_address(&t.to),
        amount: auth.amount,
        valid_after: auth.valid_after,
        valid_before: auth.valid_before,
        nonce: nonce_prefix_u32(&t.nonce),
    }
}

fn authorization_fields(auth: &CasperAuthorization) -> (r: FlowDetails)
    ensures
        authorization_fields_shown(r, *auth),
{
    FlowDetails::SignedAuthorization {
        from: auth.from.clone(),
        to: auth.to.clone(),
        amount: auth.amount,
        valid_after: auth.valid_after,
        valid_before: auth.valid_before,
        nonce: auth.nonce.clone(),
    }
}

/// What the UI signs with.
pub struct UiState {
    pub secret_key: SigningKey,
    pub public_key: PublicKey,
    pub resource_url: String,
    pub facilitator_url: String,
    pub domain: X402Domain,
}

/// Where the flow stands.
#[derive(Clone, Copy, Debug, PartialEq, Eq)]
pub enum FlowStage {
    Start,
    AwaitingResource,
    AwaitingVerification,
    AwaitingPayment,
    Finished,
}

/// What came of the last action.
pub enum FlowEvent {
    /// The flow starts.
    Begin,
    /// The resource server could not be reached.
    ResourceUnreachable(String),
    /// The resource server answered `status`; `payment_required` is the requirements header
    /// if present, `requirements` what it decodes to (if it does). `nonce` and `now`
    /// (seconds) are for signing.
    ResourceAnswered {
        status: u16,
        payment_required: Option<String>,
        requirements: Option<PaymentRequired>,
        nonce: [u8; 32],
        now: u64,
    },
    /// The facilitator could not be reached.
    VerifyUnreachable(String),
    /// The facilitator's answer could not be read.
    VerifyUnreadable(String),
    /// The facilitator answered.
    VerifyAnswered(VerifyResponse),
    /// The payment could not be serialized.
    PayloadUnserializable(String),
    /// The paid request failed.
    PaymentUnreachable(String),
    /// The paid request was answered.
    PaymentAnswered { status: u16, transaction: Option<String>, body: String },
}

/// What to do next.
pub enum FlowAction {
    /// GET the resource without payment.
    FetchResource,
    /// POST this request to the facilitator's `/verify`.
    Verify(VerifyRequest),
    /// GET the resource with this payment in the payment header.
    Pay(PaymentPayload),
    /// Stop and report the steps.
    Finish,
}

/// The flow's state.
pub struct RunFlow {
    stage: FlowStage,
    steps: Vec<FlowStep>,
    payload: Option<PaymentPayload>,
}

/// Whether `steps` are numbered from 1 with their titles, are at most four, each succeeded
/// or failed, and all but the last succeeded.
pub open spec fn steps_numbered(steps: Seq<FlowStep>) -> bool {
    &&& steps.len() <= 4
    &&& forall|i: int|
        0 <= i < steps.len() ==> (#[trigger] steps[i]).step == i + 1 && steps[i].title@
            == step_title((i + 1) as u8) && (steps[i].status@ == "success"@ || steps[i].status@
            == "error"@)
    &&& forall|i: int| 0 <= i < steps.len() - 1 ==> (#[trigger] steps[i]).status@ == "success"@
}

/// Whether every step of `steps` succeeded.
pub open spec fn all_succeeded(steps: Seq<FlowStep>) -> bool {
    forall|i: int| 0 <= i < steps.len() ==> (#[trigger] steps[i]).status@ == "success"@
}

/// The reason the flow reports when signing for `requirements` at time `now` fails.
pub open spec fn signing_failure(requirements: PaymentRequired, now: u64) -> Seq<char> {
    if now == 0 {
        "validity window starts before the epoch"@
    } else if payee_account_hash(encode_utf8(requirements.pay_to@)) is None {
        pay_to_error(requirements.pay_to@)
    } else {
        "secret and public key types must match"@
    }
}

impl RunFlow {
    /// The steps are numbered and titled in order; until the flow is finished every step
    /// succeeded, and the stage fixes how many there are (none before the resource answered,
    /// two while waiting for verification, three while waiting for the payment). A flow
    /// waiting for verification holds the payment it will send.
    pub closed spec fn wf(self) -> bool {
        &&& steps_numbered(self.steps@)
        &&& self.stage != FlowStage::Finished ==> all_succeeded(self.steps@)
        &&& (self.stage == FlowStage::Start || self.stage == FlowStage::AwaitingResource)
            ==> self.steps@.len() == 0
        &&& self.stage == FlowStage::AwaitingVerification ==> self.steps@.len() == 2
            && self.payload is Some
        &&& self.stage == FlowStage::AwaitingPayment ==> self.steps@.len() == 3
    }

    pub closed spec fn spec_stage(self) -> FlowStage {
        self.stage
    }

    pub closed spec fn spec_steps(self) -> Seq<FlowStep> {
        self.steps@
    }

    /// The payment that was sent for verification and will be paid with.
    pub closed spec fn spec_payload(self) -> Option<PaymentPayload> {
        self.payload
    }

    /// A flow that has not started.
    pub fn new() -> (r: RunFlow)
        ensures
            r.wf(),
            r.spec_stage() == FlowStage::Start,
            r.spec_steps().len() == 0,
    {
        RunFlow { stage: FlowStage::Start, steps: Vec::new(), payload: None }
    }

    /// Steps reported so far.
    pub fn steps(&self) -> (r: &[FlowStep])
        ensures
            r@ == self.spec_steps(),
    {
        self.steps.as_slice()
    }

    /// Where the flow stands.
    pub fn stage(&self) -> (r: FlowStage)
        ensures
            r == self.spec_stage(),
    {
        self.stage
    }

    fn finish_with(&mut self, s: FlowStep) -> (a: FlowAction)
        requires
            steps_numbered(old(self).steps@),
            all_succeeded(old(self).steps@),
            old(self).steps@.len() < 4,
            is_step(s, (old(self).steps@.len() + 1) as u8, "success"@) || is_step(
                s,
                (old(self).steps@.len() + 1) as u8,
                "error"@,
            ),
        ensures
            final(self).wf(),
            a is Finish,
            final(self).spec_stage() == FlowStage::Finished,
            final(self).spec_steps() == old(self).spec_steps().push(s),
    {
        self.steps.push(s);
        self.stage = FlowStage::Finished;
        proof {
            assert(self.steps@.last() == s);
        }
        FlowAction::Finish
    }

    /// Takes the outcome of the last action and decides the next one. An event that does
    /// not belong to the current stage ends the flow without a new step.
    pub fn step(&mut self, event: FlowEvent, ui: &UiState) -> (a: FlowAction)
        requires
            old(self).wf(),
        ensures
            final(self).wf(),
            old(self).spec_steps().is_prefix_of(final(self).spec_steps()),
            old(self).spec_stage() == FlowStage::Start && event is Begin ==> a is FetchResource
                && final(self).spec_stage() == FlowStage::AwaitingResource
                && final(self).spec_steps() == old(self).spec_steps(),
            old(self).spec_stage() == FlowStage::AwaitingResource ==> match event {
                FlowEvent::ResourceUnreachable(e) => a is Finish && final(self).spec_steps().len()
                    == old(self).spec_steps().len() + 1 && is_error_step(
                    final(self).spec_steps().last(),
                    1,
                    "Failed to reach resource server: "@ + e@,
                ),
                FlowEvent::ResourceAnswered { status, payment_required, requirements, nonce, now } => {
                    if status != 402 {
                        a is Finish && final(self).spec_steps().len() == old(self).spec_steps().len()
                            + 1 && is_error_step(
                            final(self).spec_steps().last(),
                            1,
                            "Expected 402, got "@ + decimal(status as nat),
                        )
                    } else if payment_required is None {
                        a is Finish && final(self).spec_steps().len() == old(self).spec_steps().len()
                            + 1 && is_error_step(
                            final(self).spec_steps().last(),
                            1,
                            "Missing X-PAYMENT-REQUIRED header"@,
                        )
                    } else if requirements is None {
                        a is Finish && final(self).spec_steps().len() == old(self).spec_steps().len()
                            + 1 && is_error_step(
                            final(self).spec_steps().last(),
                            1,
                            "Failed to decode payment requirements"@,
                        )
                    } else {
                        final(self).spec_steps().len() == old(self).spec_steps().len() + 2 && is_step(
                            final(self).spec_steps()[old(self).spec_steps().len() as int],
                            1,
                            "success"@,
                        ) && (final(self).spec_steps()[old(self).spec_steps().len() as int].details matches FlowDetails::Requirements {
                            amount,
                            pay_to,
                            scheme,
                            network,
                        } && amount == requirements->0.amount && pay_to@ == requirements->0.pay_to@
                            && scheme@ == requirements->0.scheme@ && network@
                            == requirements->0.network@) && (a is Verify || a is Finish) && (a is Finish ==> final(self).spec_stage()
                            == FlowStage::Finished && is_error_step(
                            final(self).spec_steps().last(),
                            2,
                            signing_failure(requirements->0, now),
                        )) && (a matches FlowAction::Verify(req) ==> final(self).spec_stage()
                            == FlowStage::AwaitingVerification && is_step(
                            final(self).spec_steps().last(),
                            2,
                            "success"@,
                        ) && authorization_fields_shown(
                            final(self).spec_steps().last().details,
                            req.payment_payload.authorization,
                        ) && req.payment_requirements == requirements->0
                            && req.payment_payload.x402_version == requirements->0.x402_version
                            && req.payment_payload.scheme@ == requirements->0.scheme@
                            && req.payment_payload.network@ == requirements->0.network@
                            && req.payment_payload.asset@ == requirements->0.asset@
                            && final(self).spec_payload() == Some(req.payment_payload) && signed_for(
                            req.payment_payload.authorization,
                            ui.public_key.view(),
                            requirements->0,
                            nonce@,
                            now,
                            ui.domain,
                            ui.secret_key.spec_public_key() == ui.public_key.view(),
                        )) && (now >= 1 && payee_account_hash(
                            encode_utf8(requirements->0.pay_to@),
                        ) is Some && ui.secret_key.spec_public_key() == ui.public_key.view()
                            ==> a is Verify)
                    }
                },
                _ => a is Finish && final(self).spec_stage() == FlowStage::Finished
                    && final(self).spec_steps() == old(self).spec_steps(),
            },
            old(self).spec_stage() == FlowStage::AwaitingVerification ==> match event {
                FlowEvent::VerifyUnreachable(e) => a is Finish && final(self).spec_steps()
                    == old(self).spec_steps().push(final(self).spec_steps().last()) && is_error_step(
                    final(self).spec_steps().last(),
                    3,
                    "Facilitator unreachable: "@ + e@,
                ),
                FlowEvent::VerifyUnreadable(e) => a is Finish && final(self).spec_steps()
                    == old(self).spec_steps().push(final(self).spec_steps().last()) && is_error_step(
                    final(self).spec_steps().last(),
                    3,
                    "Invalid verify response: "@ + e@,
                ),
                FlowEvent::VerifyAnswered(resp) => final(self).spec_steps() == old(self).spec_steps().push(final(self).spec_steps().last()) && if resp.is_valid {
                    (a matches FlowAction::Pay(p) && old(self).spec_payload() == Some(p))
                        && final(self).spec_stage() == FlowStage::AwaitingPayment && is_step(
                        final(self).spec_steps().last(),
                        3,
                        "success"@,
                    ) && final(self).spec_steps().last().details == (FlowDetails::Valid {
                        payer: resp.payer,
                    })
                } else {
                    a is Finish && final(self).spec_stage() == FlowStage::Finished && is_step(
                        final(self).spec_steps().last(),
                        3,
                        "error"@,
                    ) && final(self).spec_steps().last().details == (FlowDetails::Invalid {
                        reason: resp.invalid_reason,
                    })
                },
                _ => a is Finish && final(self).spec_stage() == FlowStage::Finished
                    && final(self).spec_steps() == old(self).spec_steps(),
            },
            old(self).spec_stage() == FlowStage::AwaitingPayment ==> match event {
                FlowEvent::PayloadUnserializable(e) => a is Finish && final(self).spec_steps()
                    == old(self).spec_steps().push(final(self).spec_steps().last()) && is_error_step(
                    final(self).spec_steps().last(),
                    4,
                    "Serialization failed: "@ + e@,
                ),
                FlowEvent::PaymentUnreachable(e) => a is Finish && final(self).spec_steps()
                    == old(self).spec_steps().push(final(self).spec_steps().last()) && is_error_step(
                    final(self).spec_steps().last(),
                    4,
                    "Request failed: "@ + e@,
                ),
                FlowEvent::PaymentAnswered { status, transaction, body } => a is Finish && final(self).spec_steps() == old(self).spec_steps().push(final(self).spec_steps().last())
                    && if status == 200 {
                    is_step(final(self).spec_steps().last(), 4, "success"@) && (final(self).spec_steps().last().details matches FlowDetails::Paid {
                        status: s,
                        transaction: tx,
                        body: b,
                    } && s == status && b == body && tx@ == match transaction {
                        Some(t) => t@,
                        None => "(none)"@,
                    })
                } else {
                    is_step(final(self).spec_steps().last(), 4, "error"@) && final(self).spec_steps().last().details == (FlowDetails::Status { status, body })
                },
                _ => a is Finish && final(self).spec_stage() == FlowStage::Finished
                    && final(self).spec_steps() == old(self).spec_steps(),
            },
            old(self).spec_stage() == FlowStage::Finished ==> a is Finish && final(self).spec_steps()
                == old(self).spec_steps(),
    {
        match (self.stage, event) {
            (FlowStage::Start, FlowEvent::Begin) => {
                self.stage = FlowStage::AwaitingResource;
                FlowAction::FetchResource
            },
            (FlowStage::AwaitingResource, FlowEvent::ResourceUnreachable(e)) => {
                self.finish_with(error_step(1, "Failed to reach resource server: ", e.as_str()))
            },
            (
                FlowStage::AwaitingResource,
                FlowEvent::ResourceAnswered { status, payment_required, requirements, nonce, now },
            ) => {
                if status != 402 {
                    return self.finish_with(
                        error_step(1, "Expected 402, got ", decimal_string(status as u64).as_str()),
                    );
                }
                if payment_required.is_none() {
                    return self.finish_with(
                        make_step(
                            1,
                            false,
                            FlowDetails::Error(String::from_str("Missing X-PAYMENT-REQUIRED header")),
                        ),
                    );
                }
                let requirements = match requirements {
                    Some(r) => r,
                    None => {
                        return self.finish_with(
                            make_step(
                                1,
                                false,
                                FlowDetails::Error(
                                    String::from_str("Failed to decode payment requirements"),
                                ),
                            ),
                        );
                    },
                };
                self.steps.push(FlowStep::step_1_success(&requirements));
                if now == 0 {
                    return self.finish_with(
                        make_step(
                            2,
                            false,
                            FlowDetails::Error(
                                String::from_str("validity window starts before the epoch"),
                            ),
                        ),
                    );
                }
                let authorization = match sign_authorization(
                    &ui.secret_key,
                    &ui.public_key,
                    &ui.domain,
                    &requirements,
                    nonce,
                    now,
                ) {
                    Ok(auth) => auth,
                    Err(e) => {
                        return self.finish_with(make_step(2, false, FlowDetails::Error(e)));
                    },
                };
                self.steps.push(make_step(2, true, authorization_fields(&authorization)));
                let payload = PaymentPayload {
                    x402_version: requirements.x402_version,
                    scheme: requirements.scheme.clone(),
                    network: requirements.network.clone(),
                    asset: requirements.asset.clone(),
                    authorization,
                };
                let request = VerifyRequest {
                    payment_payload: payload.clone(),
                    payment_requirements: requirements,
                };
                self.payload = Some(payload);
                self.stage = FlowStage::AwaitingVerification;
                FlowAction::Verify(request)
            },
            (FlowStage::AwaitingVerification, FlowEvent::VerifyUnreachable(e)) => {
                self.finish_with(error_step(3, "Facilitator unreachable: ", e.as_str()))
            },
            (FlowStage::AwaitingVerification, FlowEvent::VerifyUnreadable(e)) => {
                self.finish_with(error_step(3, "Invalid verify response: ", e.as_str()))
            },
            (FlowStage::AwaitingVerification, FlowEvent::VerifyAnswered(resp)) => {
                if resp.is_valid {
                    self.steps.push(make_step(3, true, FlowDetails::Valid { payer: resp.payer }));
                    self.stage = FlowStage::AwaitingPayment;
                    match self.payload.take() {
                        Some(p) => FlowAction::Pay(p),
                        None => {
                            self.stage = FlowStage::Finished;
                            FlowAction::Finish
                        },
                    }
                } else {
                    self.finish_with(
                        make_step(3, false, FlowDetails::Invalid { reason: resp.invalid_reason }),
                    )
                }
            },
            (FlowStage::AwaitingPayment, FlowEvent::PayloadUnserializable(e)) => {
                self.finish_with(error_step(4, "Serialization failed: ", e.as_str()))
            },
            (FlowStage::AwaitingPayment, FlowEvent::PaymentUnreachable(e)) => {
                self.finish_with(error_step(4, "Request failed: ", e.as_str()))
            },
            (FlowStage::AwaitingPayment, FlowEvent::PaymentAnswered { status, transaction, body }) => {
                if status == 200 {
                    let tx = match transaction {
                        Some(t) => t,
                        None => String::from_str("(none)"),
                    };
                    self.finish_with(
                        make_step(4, true, FlowDetails::Paid { status, transaction: tx, body }),
                    )
                } else {
                    self.finish_with(make_step(4, false, FlowDetails::Status { status, body }))
                }
            },
            _ => {
                self.stage = FlowStage::Finished;
                FlowAction::Finish
            },
        }
    }
}

/// Over a whole run the flow reports at most four steps, numbered from 1 with their titles
/// ("Request Resource", "Sign Authorization", "Verify Payment", "Pay & Access Resource"),
/// each a success or an error, all of them successful but possibly the last; and a flow with
/// a failed step is finished (after which [`RunFlow::step`] asks for nothing more).
pub proof fn law_run_steps_are_numbered(f: RunFlow)
    requires
        f.wf(),
    ensures
        steps_numbered(f.spec_steps()),
        (exists|i: int| 0 <= i < f.spec_steps().len() && #[trigger] f.spec_steps()[i].status@
            != "success"@) ==> f.spec_stage() == FlowStage::Finished,
{
}

} // verus!
