//! The paying client: turning payment requirements into a signed authorization.
use vstd::prelude::*;
use vstd::string::*;
use vstd::utf8::encode_utf8;
use crate::crypto::{
    PublicKey, SigningKey, public_key_account_hash, signature_parses, signature_verifies,
};
use crate::eip712::{
    Address, TransferWithAuthorization, X402Domain, address_bytes, casper_address_from_bytes,
    format_casper_address, formatted_address, hash_typed_data, typed_data_hash,
};
use crate::serde_address::{
    address_text_bytes, deserialize, law_address_hex_round_trip, serialize, text_address,
};
use crate::facilitator::{Check, first_failed_check, request_failed_check};
use crate::text::{concat, hex_encode, hex_encoding, lemma_hex_ascii, lemma_hex_round_trip};
use crate::types::{
    CasperAuthorization, PaymentRequired, authorization_matches, authorization_well_formed,
    lemma_address_bytes_injective,
};
use crate::uint::{
    U256, be_bytes, lemma_be_value_be_bytes, lemma_pow256_8, lemma_pow256_mono, lemma_u256_modulus,
};

verus! {

/// The account hash that the payee text names: address hex of a Casper account address
/// (tag `0x00`).
pub open spec fn payee_account_hash(pay_to: Seq<u8>) -> Option<Seq<u8>> {
    match address_text_bytes(pay_to) {
        Some(raw) => if raw.len() == 33 && raw[0] == 0 {
            Some(raw.drop_first())
        } else {
            None
        },
        None => None,
    }
}

/// The reason a client refuses to pay to `pay_to` when it names no account: the text itself
/// when it is no address hex, else the address in its formatted form.
pub open spec fn pay_to_error(pay_to: Seq<char>) -> Seq<char> {
    "Invalid pay_to address: "@ + match address_text_bytes(encode_utf8(pay_to)) {
        None => pay_to,
        Some(_) => formatted_address(text_address(encode_utf8(pay_to))),
    }
}

/// The transfer that a client signs for `requirements` at time `now` (seconds): from the
/// key's account to the payee's account, the required amount, valid from `now - 1` to
/// `now + max_timeout_secs`.
pub open spec fn authorized_transfer(
    t: TransferWithAuthorization,
    key_hash: Seq<u8>,
    payee_hash: Seq<u8>,
    requirements: PaymentRequired,
    nonce: Seq<u8>,
    now: u64,
) -> bool {
    &&& t.from is Casper && address_bytes(t.from) == seq![0u8] + key_hash
    &&& t.to is Casper && address_bytes(t.to) == seq![0u8] + payee_hash
    &&& t.value@ == be_bytes(requirements.amount as nat, 32)
    &&& t.valid_after@ == be_bytes((now - 1) as nat, 32)
    &&& t.valid_before@ == be_bytes((now + requirements.max_timeout_secs) as nat, 32)
    &&& t.nonce@ == nonce
}

/// Whether `auth` is an authorization signed with the key serialized as `public_key` for
/// `requirements`, with `nonce`, at time `now`, in `domain`: its fields are the hex texts and
/// numbers of the transfer that [`authorized_transfer`] describes, and its signature is hex
/// text of a well-formed signature which, when `verified`, verifies under `public_key` over
/// the EIP-712 digest of that transfer in `domain`.
pub open spec fn signed_for(
    auth: CasperAuthorization,
    public_key: Seq<u8>,
    requirements: PaymentRequired,
    nonce: Seq<u8>,
    now: u64,
    domain: X402Domain,
    verified: bool,
) -> bool {
    exists|t: TransferWithAuthorization|
        {
            &&& payee_account_hash(encode_utf8(requirements.pay_to@)) matches Some(payee)
                && public_key_account_hash(public_key) matches Some(key_hash)
                && authorized_transfer(t, key_hash, payee, requirements, nonce, now)
            &&& auth.from@ == hex_encoding(address_bytes(t.from))
            &&& auth.to@ == hex_encoding(address_bytes(t.to))
            &&& auth.amount == requirements.amount
            &&& auth.valid_after@ == t.valid_after@
            &&& auth.valid_before@ == t.valid_before@
            &&& auth.nonce@ == hex_encoding(nonce)
            &&& auth.public_key@ == hex_encoding(public_key)
            &&& exists|sig: Seq<u8>|
                {
                    &&& auth.signature@ == hex_encoding(sig)
                    &&& signature_parses(sig)
                    &&& verified ==> signature_verifies(typed_data_hash(domain, t), sig, public_key)
                }
        }
}

/// Sign a payment authorization for `requirements` with a fresh `nonce` at time `now`
/// (seconds since the Unix epoch) and return it as a `CasperAuthorization`. The signature is
/// over the EIP-712 digest of the transfer in `domain`; when `public_key` is the key of
/// `secret_key`, it verifies under it.
pub fn sign_authorization(
    secret_key: &SigningKey,
    public_key: &PublicKey,
    domain: &X402Domain,
    requirements: &PaymentRequired,
    nonce: [u8; 32],
    now: u64,
) -> (r: Result<CasperAuthorization, String>)
    requires
        now >= 1,
    ensures
        payee_account_hash(encode_utf8(requirements.pay_to@)) is None ==> (r matches Err(e) && e@
            == pay_to_error(requirements.pay_to@)),
        payee_account_hash(encode_utf8(requirements.pay_to@)) is Some ==> (r is Ok || (r matches Err(
            e) && e@ == "secret and public key types must match"@)),
        payee_account_hash(encode_utf8(requirements.pay_to@)) is Some && secret_key.spec_public_key()
            == public_key.view() ==> r is Ok,
        r matches Ok(auth) ==> signed_for(
            auth,
            public_key.view(),
            *requirements,
            nonce@,
            now,
            *domain,
            secret_key.spec_public_key() == public_key.view(),
        ),
{
    // Derive the payer's account
    let from_hash = public_key.account_hash();
    // The payee must be an account
    let to_hash = match deserialize(requirements.pay_to.as_str()) {
        Ok(Address::Casper(b)) => {
            if b[0] == 0 {
                let mut h: [u8; 32] = [0u8; 32];
                let mut i: usize = 0;
                while i < 32
                    invariant
                        i <= 32,
                        forall|k: int| 0 <= k < i ==> h@[k] == b@[k + 1],
                    decreases 32 - i,
                {
                    h[i] = b[i + 1];
                    i = i + 1;
                }
                assert(h@ =~= b@.drop_first());
                h
            } else {
                proof {
                    lemma_address_bytes_injective(
                        text_address(encode_utf8(requirements.pay_to@)),
                        Address::Casper(b),
                    );
                }
                let shown = format_casper_address(&Address::Casper(b));
                return Err(concat("Invalid pay_to address: ", shown.as_str()));
            }
        },
        Ok(a) => {
            proof {
                lemma_address_bytes_injective(text_address(encode_utf8(requirements.pay_to@)), a);
            }
            let shown = format_casper_address(&a);
            return Err(concat("Invalid pay_to address: ", shown.as_str()));
        },
        Err(_) => {
            return Err(concat("Invalid pay_to address: ", requirements.pay_to.as_str()));
        },
    };
    // Time window
    proof {
        lemma_u256_modulus();
    }
    let valid_after = U256::from_u64(now - 1).to_be_bytes();
    let valid_before = U256::from_u64(now).saturating_add(
        &U256::from_u64(requirements.max_timeout_secs),
    ).to_be_bytes();
    // Build and sign the message
    let from_addr = casper_address_from_bytes(from_hash);
    let to_addr = casper_address_from_bytes(to_hash);
    let transfer = TransferWithAuthorization {
        from: from_addr,
        to: to_addr,
        value: U256::from_u64(requirements.amount).to_be_bytes(),
        valid_after,
        valid_before,
        nonce,
    };
    let message = hash_typed_data(domain, &transfer);
    let signature = match secret_key.sign(message.as_slice(), public_key) {
        Some(s) => s,
        None => {
            return Err(String::from_str("secret and public key types must match"));
        },
    };
    let auth = CasperAuthorization {
        from: serialize(&from_addr),
        to: serialize(&to_addr),
        amount: requirements.amount,
        valid_after,
        valid_before,
        nonce: hex_encode(nonce.as_slice()),
        public_key: hex_encode(public_key.as_bytes()),
        signature: hex_encode(signature.as_slice()),
    };
    Ok(auth)
}

/// What the client writes, the facilitator reads back: an authorization whose fields are
/// written from the transfer `t` (as [`sign_authorization`] writes them) is well formed and
/// reads back as `t`.
pub proof fn law_signed_authorization_reads_back(auth: CasperAuthorization, t: TransferWithAuthorization)
    requires
        auth.from@ == hex_encoding(address_bytes(t.from)),
        auth.to@ == hex_encoding(address_bytes(t.to)),
        t.value@ == be_bytes(auth.amount as nat, 32),
        t.valid_after@ == auth.valid_after@,
        t.valid_before@ == auth.valid_before@,
        auth.nonce@ == hex_encoding(t.nonce@),
    ensures
        authorization_well_formed(auth),
        authorization_matches(auth, t),
{
    law_address_hex_round_trip(t.from);
    law_address_hex_round_trip(t.to);
    lemma_hex_ascii(t.nonce@);
    lemma_hex_round_trip(t.nonce@);
}

/// A freshly signed authorization, checked by the facilitator against the same requirements
/// at any second `at` of its validity window (from the signing time `now` up to, not
/// including, `now + max_timeout_secs`), passes every check but the verification of the
/// signature itself: the payee, the amount, the validity window, the key, the payer and the
/// signature's format all agree.
pub proof fn law_fresh_authorization_passes_checks(
    t: TransferWithAuthorization,
    public_key: Seq<u8>,
    signature: Seq<u8>,
    key_hash: Seq<u8>,
    payee: Seq<u8>,
    requirements: PaymentRequired,
    nonce: Seq<u8>,
    now: u64,
    at: u64,
    domain: X402Domain,
)
    requires
        public_key_account_hash(public_key) == Some(key_hash),
        payee_account_hash(encode_utf8(requirements.pay_to@)) == Some(payee),
        authorized_transfer(t, key_hash, payee, requirements, nonce, now),
        1 <= now <= at,
        at < now + requirements.max_timeout_secs,
        signature_parses(signature),
    ensures
        signature_verifies(typed_data_hash(domain, t), signature, public_key) ==> first_failed_check(
            t,
            encode_utf8(hex_encoding(public_key)),
            encode_utf8(hex_encoding(signature)),
            encode_utf8(requirements.pay_to@),
            requirements.amount,
            at,
            domain,
        ) is None,
        ({
            let check = first_failed_check(
                t,
                encode_utf8(hex_encoding(public_key)),
                encode_utf8(hex_encoding(signature)),
                encode_utf8(requirements.pay_to@),
                requirements.amount,
                at,
                domain,
            );
            check is None || check == Some(Check::Signature)
        }),
{
    lemma_hex_ascii(public_key);
    lemma_hex_round_trip(public_key);
    lemma_hex_ascii(signature);
    lemma_hex_round_trip(signature);
    lemma_pow256_8();
    lemma_pow256_mono(8, 32);
    lemma_u256_modulus();
    lemma_be_value_be_bytes((now - 1) as nat, 32);
    lemma_be_value_be_bytes((now + requirements.max_timeout_secs) as nat, 32);
    let raw = address_text_bytes(encode_utf8(requirements.pay_to@))->0;
    assert((seq![0u8] + payee) =~= raw);
    assert((seq![0u8] + key_hash).drop_first() =~= key_hash);
    assert((seq![0u8] + payee).drop_first() =~= payee);
    assert(key_hash.len() == 32) by {
        assert(address_bytes(t.from).len() == 33);
    }
}

/// An authorization the client signs is accepted by the facilitator throughout its validity
/// window: when the key pair matches, the authorization reads back as a transfer that passes
/// every check of the facilitator against the same requirements at any second `at` from the
/// signing time `now` up to, not including, `now + max_timeout_secs`.
pub proof fn law_signed_authorization_is_accepted(
    auth: CasperAuthorization,
    public_key: Seq<u8>,
    requirements: PaymentRequired,
    nonce: Seq<u8>,
    now: u64,
    at: u64,
    domain: X402Domain,
)
    requires
        signed_for(auth, public_key, requirements, nonce, now, domain, true),
        1 <= now <= at,
        at < now + requirements.max_timeout_secs,
    ensures
        authorization_well_formed(auth),
        exists|t: TransferWithAuthorization|
            authorization_matches(auth, t) && request_failed_check(
                t,
                auth,
                requirements,
                at,
                domain,
            ) is None,
{
    let t = choose|t: TransferWithAuthorization|
        {
            &&& payee_account_hash(encode_utf8(requirements.pay_to@)) matches Some(payee)
                && public_key_account_hash(public_key) matches Some(key_hash)
                && authorized_transfer(t, key_hash, payee, requirements, nonce, now)
            &&& auth.from@ == hex_encoding(address_bytes(t.from))
            &&& auth.to@ == hex_encoding(address_bytes(t.to))
            &&& auth.amount == requirements.amount
            &&& auth.valid_after@ == t.valid_after@
            &&& auth.valid_before@ == t.valid_before@
            &&& auth.nonce@ == hex_encoding(nonce)
            &&& auth.public_key@ == hex_encoding(public_key)
            &&& exists|sig: Seq<u8>|
                {
                    &&& auth.signature@ == hex_encoding(sig)
                    &&& signature_parses(sig)
                    &&& true ==> signature_verifies(typed_data_hash(domain, t), sig, public_key)
                }
        };
    let sig = choose|sig: Seq<u8>|
        {
            &&& auth.signature@ == hex_encoding(sig)
            &&& signature_parses(sig)
            &&& true ==> signature_verifies(typed_data_hash(domain, t), sig, public_key)
        };
    let payee = payee_account_hash(encode_utf8(requirements.pay_to@))->0;
    let key_hash = public_key_account_hash(public_key)->0;
    law_signed_authorization_reads_back(auth, t);
    law_fresh_authorization_passes_checks(
        t,
        public_key,
        sig,
        key_hash,
        payee,
        requirements,
        nonce,
        now,
        at,
        domain,
    );
}

} // verus!
