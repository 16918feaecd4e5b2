//! The facilitator's decisions: off-chain verification of a payment authorization and the
//! answers to `/verify`, `/settle` and `/supported`.
use vstd::prelude::*;
use vstd::string::*;
use vstd::utf8::encode_utf8;
use crate::bytes::bytes32_eq;
use crate::crypto::{
    PublicKey, SignatureCheck, public_key_account_hash, public_key_error, signature_error,
    signature_parses, signature_verifies, verify_error, verify_signature,
};
use crate::eip712::{
    Address, TransferWithAuthorization, X402Domain, address_bytes, casper_address_to_bytes,
    format_casper_address, formatted_address, hash_typed_data, typed_data_hash, x402_domain,
};
use crate::serde_address::{address_text_bytes, address_text_error, deserialize, text_address};
use crate::text::{
    concat, decimal, decimal_string, hex_decode, hex_decode_error, hex_decoding, hex_encode,
    hex_encoding, is_hex,
};
use crate::types::{CasperAuthorization, PaymentRequired, SettleRequest, SettleResponse, VerifyRequest, VerifyResponse, authorization_matches, authorization_well_formed, transfer_error, lemma_address_bytes_injective, lemma_authorization_determines_transfer};
use crate::uint::{U256, be_bytes, be_value, lemma_be_value_be_bytes, lemma_pow256_8, lemma_pow256_mono};

verus! {

/// The 32-byte hash of a Casper address's raw bytes (tag `0x00` or `0x01`), if it is one.
pub open spec fn casper_hash(raw: Seq<u8>) -> Option<Seq<u8>> {
    if raw.len() == 33 && (raw[0] == 0 || raw[0] == 1) {
        Some(raw.drop_first())
    } else {
        None
    }
}

/// The checks of [`verify_authorization`], in order.
#[derive(Clone, Copy, Debug, PartialEq, Eq)]
pub enum Check {
    PayTo,
    To,
    Destination,
    Amount,
    NotYetValid,
    Expired,
    PublicKeyHex,
    PublicKey,
    From,
    KeyMismatch,
    SignatureHex,
    SignatureFormat,
    Signature,
}

/// The first check that `t` fails against the requirements (payee `pay_to`, given as address
/// hex, and `amount`) at time `now` (seconds), or `None` when it passes them all.
pub open spec fn first_failed_check(
    t: TransferWithAuthorization,
    public_key: Seq<u8>,
    signature: Seq<u8>,
    pay_to: Seq<u8>,
    amount: u64,
    now: u64,
    domain: X402Domain,
) -> Option<Check> {
    let payee = address_text_bytes(pay_to);
    let key = hex_decoding(public_key);
    let sig = hex_decoding(signature);
    if payee is None || casper_hash(payee->0) is None {
        Some(Check::PayTo)
    } else if casper_hash(address_bytes(t.to)) is None {
        Some(Check::To)
    } else if casper_hash(address_bytes(t.to)) != casper_hash(payee->0) {
        Some(Check::Destination)
    } else if t.value@ != be_bytes(amount as nat, 32) {
        Some(Check::Amount)
    } else if now <= be_value(t.valid_after@) {
        Some(Check::NotYetValid)
    } else if now >= be_value(t.valid_before@) {
        Some(Check::Expired)
    } else if !is_hex(public_key) {
        Some(Check::PublicKeyHex)
    } else if public_key_account_hash(key) is None {
        Some(Check::PublicKey)
    } else if casper_hash(address_bytes(t.from)) is None {
        Some(Check::From)
    } else if public_key_account_hash(key) != casper_hash(address_bytes(t.from)) {
        Some(Check::KeyMismatch)
    } else if !is_hex(signature) {
        Some(Check::SignatureHex)
    } else if !signature_parses(sig) {
        Some(Check::SignatureFormat)
    } else if !signature_verifies(typed_data_hash(domain, t), sig, key) {
        Some(Check::Signature)
    } else {
        None
    }
}

/// What an accepted authorization guarantees: it pays the required payee exactly the required
/// amount, `now` lies strictly inside its validity window, the public key is the payer's, and
/// the signature verifies over the EIP-712 digest of the transfer.
pub proof fn law_accepted_authorization_is_sound(
    t: TransferWithAuthorization,
    public_key: Seq<u8>,
    signature: Seq<u8>,
    pay_to: Seq<u8>,
    amount: u64,
    now: u64,
    domain: X402Domain,
)
    requires
        first_failed_check(t, public_key, signature, pay_to, amount, now, domain) is None,
    ensures
        address_text_bytes(pay_to) matches Some(payee) && casper_hash(payee) is Some
            && casper_hash(address_bytes(t.to)) == casper_hash(payee),
        be_value(t.value@) == amount,
        be_value(t.valid_after@) < now < be_value(t.valid_before@),
        casper_hash(address_bytes(t.from)) is Some,
        public_key_account_hash(hex_decoding(public_key)) == casper_hash(address_bytes(t.from)),
        signature_verifies(
            typed_data_hash(domain, t),
            hex_decoding(signature),
            hex_decoding(public_key),
        ),
{
    lemma_pow256_8();
    lemma_pow256_mono(8, 32);
    lemma_be_value_be_bytes(amount as nat, 32);
}

/// An authorization that meets the requirements is accepted: when the payee text names a
/// Casper account or contract whose 32-byte hash is that of the transfer's (Casper) payee, the
/// transfer's value is the required amount, `now` lies strictly inside its validity window,
/// the public key hex reads as the key of the transfer's (Casper) payer, and the signature hex
/// reads as a signature that verifies over the EIP-712 digest, no check fails.
pub proof fn law_valid_transfer_passes_checks(
    t: TransferWithAuthorization,
    public_key: Seq<u8>,
    signature: Seq<u8>,
    pay_to: Seq<u8>,
    amount: u64,
    now: u64,
    domain: X402Domain,
)
    requires
        address_text_bytes(pay_to) matches Some(payee) && payee.len() == 33 && (payee[0] == 0
            || payee[0] == 1) && address_bytes(t.to).len() == 33 && (address_bytes(t.to)[0] == 0
            || address_bytes(t.to)[0] == 1) && address_bytes(t.to).drop_first()
            == payee.drop_first(),
        be_value(t.value@) == amount,
        be_value(t.valid_after@) < now < be_value(t.valid_before@),
        is_hex(public_key),
        address_bytes(t.from).len() == 33,
        address_bytes(t.from)[0] == 0 || address_bytes(t.from)[0] == 1,
        public_key_account_hash(hex_decoding(public_key)) == Some(address_bytes(t.from).drop_first()),
        is_hex(signature),
        signature_parses(hex_decoding(signature)),
        signature_verifies(
            typed_data_hash(domain, t),
            hex_decoding(signature),
            hex_decoding(public_key),
        ),
    ensures
        first_failed_check(t, public_key, signature, pay_to, amount, now, domain) is None,
{
    crate::uint::law_be_bytes_round_trip(t.value@);
}

/// The text of `casper_address_to_bytes`'s error for the raw bytes of an address that is no
/// account or contract address.
pub open spec fn casper_bytes_error(raw: Seq<u8>) -> Seq<char> {
    if raw.len() == 33 {
        "invalid Casper address: unexpected tag byte"@
    } else {
        "expected Casper address, got Eth"@
    }
}

/// The reason [`verify_authorization`] gives when the transfer `t`, with public key and
/// signature hex `public_key` and `signature`, fails check `c` against the requirements
/// (payee address hex `pay_to`, `amount`) in `domain`.
pub open spec fn failure_text(
    c: Check,
    t: TransferWithAuthorization,
    public_key: Seq<u8>,
    signature: Seq<u8>,
    pay_to: Seq<u8>,
    amount: u64,
    domain: X402Domain,
) -> Seq<char> {
    match c {
        Check::PayTo => "invalid pay_to: "@ + match address_text_bytes(pay_to) {
            None => address_text_error(pay_to),
            Some(raw) => casper_bytes_error(raw),
        },
        Check::To => "invalid transfer.to address: "@ + casper_bytes_error(address_bytes(t.to)),
        Check::Destination => "payment destination mismatch: got "@ + formatted_address(t.to)
            + ", want "@ + formatted_address(text_address(pay_to)),
        Check::Amount => "amount mismatch: got "@ + hex_encoding(t.value@) + ", want "@ + decimal(
            amount as nat,
        ),
        Check::NotYetValid => "authorization not yet valid"@,
        Check::Expired => "authorization expired"@,
        Check::PublicKeyHex => "invalid public_key hex: "@ + hex_decode_error(public_key),
        Check::PublicKey => "cannot parse public key: "@ + public_key_error(
            hex_decoding(public_key),
        ),
        Check::From => "invalid from address: "@ + casper_bytes_error(address_bytes(t.from)),
        Check::KeyMismatch => "public key does not match from address"@,
        Check::SignatureHex => "invalid signature hex: "@ + hex_decode_error(signature),
        Check::SignatureFormat => "cannot parse signature: "@ + signature_error(
            hex_decoding(signature),
        ),
        Check::Signature => "signature verification failed: "@ + verify_error(
            typed_data_hash(domain, t),
            hex_decoding(signature),
            hex_decoding(public_key),
        ),
    }
}

/// Why an authorization was refused.
#[derive(Clone, Debug)]
pub enum VerifyError {
    InvalidPayTo(String),
    InvalidTo(String),
    DestinationMismatch { got: String, want: String },
    AmountMismatch { got: String, want: u64 },
    NotYetValid,
    Expired,
    InvalidPublicKeyHex(String),
    CannotParsePublicKey(String),
    InvalidFrom(String),
    PublicKeyMismatch,
    InvalidSignatureHex(String),
    CannotParseSignature(String),
    SignatureVerificationFailed(String),
}

/// The check that an error reports.
pub open spec fn error_check(e: VerifyError) -> Check {
    match e {
        VerifyError::InvalidPayTo(_) => Check::PayTo,
        VerifyError::InvalidTo(_) => Check::To,
        VerifyError::DestinationMismatch { .. } => Check::Destination,
        VerifyError::AmountMismatch { .. } => Check::Amount,
        VerifyError::NotYetValid => Check::NotYetValid,
        VerifyError::Expired => Check::Expired,
        VerifyError::InvalidPublicKeyHex(_) => Check::PublicKeyHex,
        VerifyError::CannotParsePublicKey(_) => Check::PublicKey,
        VerifyError::InvalidFrom(_) => Check::From,
        VerifyError::PublicKeyMismatch => Check::KeyMismatch,
        VerifyError::InvalidSignatureHex(_) => Check::SignatureHex,
        VerifyError::CannotParseSignature(_) => Check::SignatureFormat,
        VerifyError::SignatureVerificationFailed(_) => Check::Signature,
    }
}

/// The text of an error.
pub open spec fn error_text(e: VerifyError) -> Seq<char> {
    match e {
        VerifyError::InvalidPayTo(d) => "invalid pay_to: "@ + d@,
        VerifyError::InvalidTo(d) => "invalid transfer.to address: "@ + d@,
        VerifyError::DestinationMismatch { got, want } => "payment destination mismatch: got "@
            + got@ + ", want "@ + want@,
        VerifyError::AmountMismatch { got, want } => "amount mismatch: got "@ + got@ + ", want "@
            + decimal(want as nat),
        VerifyError::NotYetValid => "authorization not yet valid"@,
        VerifyError::Expired => "authorization expired"@,
        VerifyError::InvalidPublicKeyHex(d) => "invalid public_key hex: "@ + d@,
        VerifyError::CannotParsePublicKey(d) => "cannot parse public key: "@ + d@,
        VerifyError::InvalidFrom(d) => "invalid from address: "@ + d@,
        VerifyError::PublicKeyMismatch => "public key does not match from address"@,
        VerifyError::InvalidSignatureHex(d) => "invalid signature hex: "@ + d@,
        VerifyError::CannotParseSignature(d) => "cannot parse signature: "@ + d@,
        VerifyError::SignatureVerificationFailed(d) => "signature verification failed: "@ + d@,
    }
}

impl VerifyError {
    /// The human-readable reason.
    pub fn message(&self) -> (r: String)
        ensures
            r@ == error_text(*self),
    {
        match self {
            VerifyError::InvalidPayTo(d) => concat("invalid pay_to: ", d.as_str()),
            VerifyError::InvalidTo(d) => concat("invalid transfer.to address: ", d.as_str()),
            VerifyError::DestinationMismatch { got, want } => {
                let mut s = concat("payment destination mismatch: got ", got.as_str());
                s.append(", want ");
                s.append(want.as_str());
                s
            },
            VerifyError::AmountMismatch { got, want } => {
                let mut s = concat("amount mismatch: got ", got.as_str());
                s.append(", want ");
                s.append(decimal_string(*want).as_str());
                s
            },
            VerifyError::NotYetValid => String::from_str("authorization not yet valid"),
            VerifyError::Expired => String::from_str("authorization expired"),
            VerifyError::InvalidPublicKeyHex(d) => concat("invalid public_key hex: ", d.as_str()),
            VerifyError::CannotParsePublicKey(d) => concat("cannot parse public key: ", d.as_str()),
            VerifyError::InvalidFrom(d) => concat("invalid from address: ", d.as_str()),
            VerifyError::PublicKeyMismatch => String::from_str("public key does not match from address"),
            VerifyError::InvalidSignatureHex(d) => concat("invalid signature hex: ", d.as_str()),
            VerifyError::CannotParseSignature(d) => concat("cannot parse signature: ", d.as_str()),
            VerifyError::SignatureVerificationFailed(d) => concat(
                "signature verification failed: ",
                d.as_str(),
            ),
        }
    }
}

/// `amount` as a 32-byte big-endian word: 24 zero bytes, then its eight bytes.
fn required_value(amount: u64) -> (r: [u8; 32])
    ensures
        r@ == be_bytes(amount as nat, 32),
{
    U256::from_u64(amount).to_be_bytes()
}

/// Validate a transfer authorization against payment requirements, off-chain only.
/// `public_key` and `signature` are hex text; `now` is the current time in seconds.
/// Answers the payer's formatted address.
pub fn verify_authorization(
    transfer: &TransferWithAuthorization,
    public_key: &str,
    signature: &str,
    requirements: &PaymentRequired,
    now: u64,
    domain: &X402Domain,
) -> (r: Result<String, VerifyError>)
    ensures
        r is Ok <==> first_failed_check(
            *transfer,
            public_key.spec_bytes(),
            signature.spec_bytes(),
            encode_utf8(requirements.pay_to@),
            requirements.amount,
            now,
            *domain,
        ) is None,
        r matches Ok(payer) ==> payer@ == formatted_address(transfer.from),
        r matches Err(e) ==> Some(error_check(e)) == first_failed_check(
            *transfer,
            public_key.spec_bytes(),
            signature.spec_bytes(),
            encode_utf8(requirements.pay_to@),
            requirements.amount,
            now,
            *domain,
        ),
        r matches Err(e) ==> error_text(e) == failure_text(
            error_check(e),
            *transfer,
            public_key.spec_bytes(),
            signature.spec_bytes(),
            encode_utf8(requirements.pay_to@),
            requirements.amount,
            *domain,
        ),
{
    // 1. Check destination matches requirements
    let pay_to = match deserialize(requirements.pay_to.as_str()) {
        Ok(a) => a,
        Err(e) => {
            return Err(VerifyError::InvalidPayTo(e));
        },
    };
    let expected_to = match casper_address_to_bytes(&pay_to) {
        Ok(b) => b,
        Err(e) => {
            return Err(VerifyError::InvalidPayTo(String::from_str(e)));
        },
    };
    let actual_to = match casper_address_to_bytes(&transfer.to) {
        Ok(b) => b,
        Err(e) => {
            return Err(VerifyError::InvalidTo(String::from_str(e)));
        },
    };
    if !bytes32_eq(&actual_to, &expected_to) {
        proof {
            if actual_to@ == expected_to@ {
                assert(actual_to =~= expected_to);
            }
        }
        proof {
            let ta = text_address(encode_utf8(requirements.pay_to@));
            assert(Some(address_bytes(pay_to)) == address_text_bytes(encode_utf8(requirements.pay_to@)));
            lemma_address_bytes_injective(ta, pay_to);
        }
        return Err(
            VerifyError::DestinationMismatch {
                got: format_casper_address(&transfer.to),
                want: format_casper_address(&pay_to),
            },
        );
    }
    // 2. Check amount matches requirements
    let required = required_value(requirements.amount);
    if !bytes32_eq(&transfer.value, &required) {
        proof {
            if transfer.value@ == required@ {
                assert(transfer.value =~= required);
            }
        }
        return Err(
            VerifyError::AmountMismatch {
                got: hex_encode(transfer.value.as_slice()),
                want: requirements.amount,
            },
        );
    }
    // 3. Time window check
    let now_value = U256::from_u64(now);
    let valid_after = U256::from_be_bytes(&transfer.valid_after);
    let valid_before = U256::from_be_bytes(&transfer.valid_before);
    if !valid_after.lt(&now_value) {
        return Err(VerifyError::NotYetValid);
    }
    if !now_value.lt(&valid_before) {
        return Err(VerifyError::Expired);
    }
    // 4. Decode public key
    let pk_bytes = match hex_decode(public_key) {
        Ok(b) => b,
        Err(e) => {
            return Err(VerifyError::InvalidPublicKeyHex(e));
        },
    };
    let key = match PublicKey::from_bytes(pk_bytes.as_slice()) {
        Ok(k) => k,
        Err(e) => {
            return Err(VerifyError::CannotParsePublicKey(e));
        },
    };
    // 5. Verify public_key -> from address
    let derived_hash = key.account_hash();
    let from_bytes = match casper_address_to_bytes(&transfer.from) {
        Ok(b) => b,
        Err(e) => {
            return Err(VerifyError::InvalidFrom(String::from_str(e)));
        },
    };
    if !bytes32_eq(&derived_hash, &from_bytes) {
        proof {
            if derived_hash@ == from_bytes@ {
                assert(derived_hash =~= from_bytes);
            }
        }
        return Err(VerifyError::PublicKeyMismatch);
    }
    // 6. Build EIP-712 message and verify signature
    let message = hash_typed_data(domain, transfer);
    let sig_bytes = match hex_decode(signature) {
        Ok(b) => b,
        Err(e) => {
            return Err(VerifyError::InvalidSignatureHex(e));
        },
    };
    match verify_signature(message.as_slice(), sig_bytes.as_slice(), &key) {
        SignatureCheck::Malformed(e) => Err(VerifyError::CannotParseSignature(e)),
        SignatureCheck::Invalid(e) => Err(VerifyError::SignatureVerificationFailed(e)),
        SignatureCheck::Valid => Ok(format_casper_address(&transfer.from)),
    }
}


/// The check results of a request's authorization.
pub open spec fn request_failed_check(
    t: TransferWithAuthorization,
    auth: CasperAuthorization,
    requirements: PaymentRequired,
    now: u64,
    domain: X402Domain,
) -> Option<Check> {
    first_failed_check(
        t,
        encode_utf8(auth.public_key@),
        encode_utf8(auth.signature@),
        encode_utf8(requirements.pay_to@),
        requirements.amount,
        now,
        domain,
    )
}

/// The reason given for an authorization whose fields describe no transfer.
pub open spec fn unreadable_text(auth: CasperAuthorization) -> Seq<char> {
    "Cannot parse authorization from payload: "@ + transfer_error(auth)
}

/// The reason given when the transfer `t` of `auth` fails check `c` against `requirements`
/// in `domain`.
pub open spec fn request_failure_text(
    c: Check,
    t: TransferWithAuthorization,
    auth: CasperAuthorization,
    requirements: PaymentRequired,
    domain: X402Domain,
) -> Seq<char> {
    failure_text(
        c,
        t,
        encode_utf8(auth.public_key@),
        encode_utf8(auth.signature@),
        encode_utf8(requirements.pay_to@),
        requirements.amount,
        domain,
    )
}

/// Whether `resp` reports the check result `check` for the transfer `t` of `auth`: the
/// payer's formatted address on success, the failed check's reason otherwise.
pub open spec fn verdict_matches(
    resp: VerifyResponse,
    check: Option<Check>,
    t: TransferWithAuthorization,
    auth: CasperAuthorization,
    requirements: PaymentRequired,
    domain: X402Domain,
) -> bool {
    match check {
        None => resp.is_valid && resp.invalid_reason is None && (resp.payer matches Some(p) && p@
            == formatted_address(t.from)),
        Some(c) => !resp.is_valid && resp.payer is None && (resp.invalid_reason matches Some(m)
            && m@ == request_failure_text(c, t, auth, requirements, domain)),
    }
}

/// Answer to `/verify`: the HTTP status and the body. An authorization that cannot be read
/// is a bad request (400); otherwise the answer is 200 with the verdict.
pub fn verify_request(req: &VerifyRequest, now: u64, domain: &X402Domain) -> (r: (u16, VerifyResponse))
    ensures
        !authorization_well_formed(req.payment_payload.authorization) ==> r.0 == 400
            && !r.1.is_valid && r.1.payer is None && (r.1.invalid_reason matches Some(m) && m@
            == unreadable_text(req.payment_payload.authorization)),
        authorization_well_formed(req.payment_payload.authorization) ==> r.0 == 200 && exists|
            t: TransferWithAuthorization,
        |
            authorization_matches(req.payment_payload.authorization, t) && verdict_matches(
                r.1,
                request_failed_check(
                    t,
                    req.payment_payload.authorization,
                    req.payment_requirements,
                    now,
                    *domain,
                ),
                t,
                req.payment_payload.authorization,
                req.payment_requirements,
                *domain,
            ),
{
    let auth = &req.payment_payload.authorization;
    let transfer = match auth.to_transfer() {
        Ok(t) => t,
        Err(e) => {
            let m = concat("Cannot parse authorization from payload: ", e.as_str());
            assert(m@ == "Cannot parse authorization from payload: "@ + e@);
            return (400, VerifyResponse { is_valid: false, invalid_reason: Some(m), payer: None });
        },
    };
    match verify_authorization(
        &transfer,
        auth.public_key.as_str(),
        auth.signature.as_str(),
        &req.payment_requirements,
        now,
        domain,
    ) {
        Ok(payer) => (200, VerifyResponse { is_valid: true, invalid_reason: None, payer: Some(payer) }),
        Err(e) => {
            let m = e.message();
            (200, VerifyResponse { is_valid: false, invalid_reason: Some(m), payer: None })
        },
    }
}

/// A verified authorization, ready to be submitted on chain.
#[derive(Clone, Debug)]
pub struct SettleCall {
    pub transfer: TransferWithAuthorization,
    pub public_key: String,
    pub signature: String,
    pub payer: String,
}

/// First half of `/settle`: reads and verifies the authorization; a refusal is answered
/// with 400 and the reason, without touching the chain.
pub fn prepare_settlement(req: &SettleRequest, now: u64, domain: &X402Domain) -> (r: Result<
    SettleCall,
    (u16, SettleResponse),
>)
    ensures
        r matches Err(resp) ==> resp.0 == 400 && !resp.1.success && resp.1.transaction is None
            && resp.1.payer is None && resp.1.error_reason is Some,
        !authorization_well_formed(req.payment_payload.authorization) ==> (r matches Err(resp)
            && resp.1.error_reason matches Some(m) && m@ == unreadable_text(
            req.payment_payload.authorization,
        )),
        r matches Ok(call) ==> authorization_well_formed(req.payment_payload.authorization)
            && authorization_matches(req.payment_payload.authorization, call.transfer)
            && request_failed_check(
            call.transfer,
            req.payment_payload.authorization,
            req.payment_requirements,
            now,
            *domain,
        ) is None && call.payer@ == formatted_address(call.transfer.from) && call.public_key@
            == req.payment_payload.authorization.public_key@ && call.signature@
            == req.payment_payload.authorization.signature@,
        authorization_well_formed(req.payment_payload.authorization) ==> (r is Ok <==> exists|
            t: TransferWithAuthorization,
        |
            authorization_matches(req.payment_payload.authorization, t) && request_failed_check(
                t,
                req.payment_payload.authorization,
                req.payment_requirements,
                now,
                *domain,
            ) is None),
        authorization_well_formed(req.payment_payload.authorization) ==> (r matches Err(resp)
            ==> exists|t: TransferWithAuthorization|
            authorization_matches(req.payment_payload.authorization, t) && (request_failed_check(
                t,
                req.payment_payload.authorization,
                req.payment_requirements,
                now,
                *domain,
            ) matches Some(c) && resp.1.error_reason matches Some(m) && m@
                == request_failure_text(
                c,
                t,
                req.payment_payload.authorization,
                req.payment_requirements,
                *domain,
            ))),
{
    let auth = &req.payment_payload.authorization;
    let transfer = match auth.to_transfer() {
        Ok(t) => t,
        Err(e) => {
            let m = concat("Cannot parse authorization from payload: ", e.as_str());
            assert(m@ == "Cannot parse authorization from payload: "@ + e@);
            return Err(
                (
                    400,
                    SettleResponse {
                        success: false,
                        transaction: None,
                        error_reason: Some(m),
                        payer: None,
                    },
                ),
            );
        },
    };
    proof {
        lemma_authorization_determines_transfer(*auth);
    }
    match verify_authorization(
        &transfer,
        auth.public_key.as_str(),
        auth.signature.as_str(),
        &req.payment_requirements,
        now,
        domain,
    ) {
        Ok(payer) => Ok(
            SettleCall {
                transfer,
                public_key: auth.public_key.clone(),
                signature: auth.signature.clone(),
                payer,
            },
        ),
        Err(e) => {
            let m = e.message();
            assert(error_check(e) == request_failed_check(
                transfer,
                *auth,
                req.payment_requirements,
                now,
                *domain,
            )->0 && m@ == error_text(e));
            Err(
                (
                    400,
                    SettleResponse {
                        success: false,
                        transaction: None,
                        error_reason: Some(m),
                        payer: None,
                    },
                ),
            )
        },
    }
}

/// Second half of `/settle`: the answer once the chain call returned (the transaction id, or
/// the error's text).
pub fn settle_response(call_result: Result<String, String>, payer: String) -> (r: (u16, SettleResponse))
    ensures
        call_result matches Ok(tx) ==> r.0 == 200 && r.1.success && r.1.transaction == Some(tx)
            && r.1.error_reason is None && r.1.payer == Some(payer),
        call_result matches Err(e) ==> r.0 == 500 && !r.1.success && r.1.transaction is None
            && r.1.error_reason == Some(e) && r.1.payer is None,
{
    match call_result {
        Ok(tx) => (
            200,
            SettleResponse { success: true, transaction: Some(tx), error_reason: None, payer: Some(payer) },
        ),
        Err(e) => (
            500,
            SettleResponse { success: false, transaction: None, error_reason: Some(e), payer: None },
        ),
    }
}


/// Why the domain configuration is unusable.
#[derive(Clone, Debug, PartialEq, Eq)]
pub enum DomainConfigError {
    /// The token address does not start with `hash-`.
    InvalidContractFormat,
    /// What follows `hash-` is not hexadecimal.
    InvalidAddressFormat,
    /// The decoded hash does not have 32 bytes (its length).
    WrongLength(usize),
}

/// The ASCII bytes of `hash-`.
pub open spec fn hash_prefix() -> Seq<u8> {
    seq![104u8, 97, 115, 104, 45]
}

/// The x402 domain configured by a token address written `hash-{hex}` and a chain name.
pub fn x402_domain_from_config(x402_token_address: &str, chain_name: &str) -> (r: Result<
    X402Domain,
    DomainConfigError,
>)
    ensures
        ({
            let b = x402_token_address.spec_bytes();
            let rest = b.skip(5);
            &&& (b.len() < 5 || b.take(5) != hash_prefix()) ==> r
                == Err::<X402Domain, DomainConfigError>(DomainConfigError::InvalidContractFormat)
            &&& (b.len() >= 5 && b.take(5) == hash_prefix() && !is_hex(rest)) ==> r
                == Err::<X402Domain, DomainConfigError>(DomainConfigError::InvalidAddressFormat)
            &&& (b.len() >= 5 && b.take(5) == hash_prefix() && is_hex(rest) && hex_decoding(rest).len()
                != 32) ==> r == Err::<X402Domain, DomainConfigError>(
                DomainConfigError::WrongLength(hex_decoding(rest).len() as usize),
            )
            &&& (b.len() >= 5 && b.take(5) == hash_prefix() && is_hex(rest) && hex_decoding(rest).len()
                == 32) ==> (r matches Ok(d) && d.separator_hash@ == crate::eip712::x402_domain_hash(
                chain_name@,
                hex_decoding(rest),
            ))
        }),
{
    let b = x402_token_address.as_bytes();
    if b.len() < 5 || b[0] != 104 || b[1] != 97 || b[2] != 115 || b[3] != 104 || b[4] != 45 {
        proof {
            if b@.len() >= 5 && b@.take(5) == hash_prefix() {
                assert(b@.take(5)[0] == 104u8 && b@.take(5)[4] == 45u8);
                assert(b@.take(5)[1] == 97u8 && b@.take(5)[2] == 115u8 && b@.take(5)[3] == 104u8);
            }
        }
        return Err(DomainConfigError::InvalidContractFormat);
    }
    assert(b@.take(5) =~= hash_prefix());
    let rest = b.split_at(5).1;
    assert(rest@ =~= b@.skip(5));
    let decoded = match crate::text::hex_decode_bytes(rest) {
        Ok(v) => v,
        Err(_) => {
            return Err(DomainConfigError::InvalidAddressFormat);
        },
    };
    if decoded.len() != 32 {
        return Err(DomainConfigError::WrongLength(decoded.len()));
    }
    let address = crate::uint::bytes32_from_vec(&decoded);
    Ok(x402_domain(chain_name, address))
}

/// A payment kind that the facilitator supports.
#[derive(Clone, Debug)]
pub struct SupportedKind {
    pub x402_version: u8,
    pub scheme: String,
    pub network: String,
    pub asset: String,
    pub fee_payer: String,
    pub decimals: u8,
    pub symbol: String,
    pub name: String,
    pub version: String,
}

/// Answer to `/supported`: the one kind, exact payments on `casper:nctl` in `asset`.
pub fn supported_kind(asset: String) -> (r: SupportedKind)
    ensures
        r.x402_version == 2,
        r.scheme@ == "exact"@,
        r.network@ == "casper:nctl"@,
        r.asset@ == asset@,
        r.fee_payer@ == "..."@,
        r.decimals == 9,
        r.symbol@ == "CSPR"@,
        r.name@ == "Casper"@,
        r.version@ == "2"@,
{
    SupportedKind {
        x402_version: 2,
        scheme: String::from_str("exact"),
        network: String::from_str("casper:nctl"),
        asset,
        fee_payer: String::from_str("..."),
        decimals: 9,
        symbol: String::from_str("CSPR"),
        name: String::from_str("Casper"),
        version: String::from_str("2"),
    }
}

/// The arguments of the on-chain `transfer_with_authorization` call.
#[derive(Clone, Debug)]
pub struct ContractCall {
    pub from: String,
    pub to: String,
    pub amount: U256,
    pub valid_after: U256,
    pub valid_before: U256,
    pub nonce: Vec<u8>,
    pub public_key_hex: String,
    pub signature: Vec<u8>,
}

/// Prepares the on-chain call for a verified authorization: addresses in their formatted
/// form, the 32-byte words read big-endian, the signature decoded from hex.
pub fn contract_call(
    from: Address,
    to: Address,
    value: [u8; 32],
    valid_after: [u8; 32],
    valid_before: [u8; 32],
    nonce: [u8; 32],
    public_key_hex: String,
    signature_hex: &str,
) -> (r: Result<ContractCall, String>)
    ensures
        r is Ok <==> is_hex(signature_hex.spec_bytes()),
        r matches Err(e) ==> e@ == "Invalid signature hex"@,
        r matches Ok(c) ==> {
            &&& c.from@ == formatted_address(from)
            &&& c.to@ == formatted_address(to)
            &&& c.amount@ == be_value(value@)
            &&& c.valid_after@ == be_value(valid_after@)
            &&& c.valid_before@ == be_value(valid_before@)
            &&& c.nonce@ == nonce@
            &&& c.public_key_hex@ == public_key_hex@
            &&& c.signature@ == hex_decoding(signature_hex.spec_bytes())
        },
{
    let from_str = format_casper_address(&from);
    let to_str = format_casper_address(&to);
    let amount = U256::from_be_bytes(&value);
    let valid_after = U256::from_be_bytes(&valid_after);
    let valid_before = U256::from_be_bytes(&valid_before);
    let signature = match hex_decode(signature_hex) {
        Ok(b) => b,
        Err(_) => {
            return Err(String::from_str("Invalid signature hex"));
        },
    };
    Ok(
        ContractCall {
            from: from_str,
            to: to_str,
            amount,
            valid_after,
            valid_before,
            nonce: crate::bytes::to_vec(nonce.as_slice()),
            public_key_hex,
            signature,
        },
    )
}

} // verus!
