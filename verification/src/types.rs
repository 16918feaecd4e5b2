//! The x402 messages exchanged between client, resource server and facilitator.
use vstd::prelude::*;
use vstd::string::*;
use vstd::utf8::encode_utf8;
use crate::eip712::{Address, TransferWithAuthorization, address_bytes};
use crate::serde_address::{address_text_bytes, address_text_error, deserialize};
use crate::text::{concat, hex_decode, hex_decode_error, hex_decoding, is_hex};
use crate::uint::{U256, be_bytes};

verus! {

/// Sent by the resource server in the `X-PAYMENT-REQUIRED` header (base64-encoded JSON).
#[derive(Debug)]
pub struct PaymentRequired {
    pub x402_version: u8,
    pub scheme: String,
    pub network: String,
    pub asset: String,
    pub amount: u64,
    pub pay_to: String,
    pub max_timeout_secs: u64,
    pub resource: String,
}

/// The signed authorization: addresses, nonce, key and signature as hex text of their bytes;
/// the validity bounds (seconds) as 32-byte big-endian words, as they are signed.
#[derive(Debug)]
pub struct CasperAuthorization {
    pub from: String,
    pub to: String,
    pub amount: u64,
    pub valid_after: [u8; 32],
    pub valid_before: [u8; 32],
    pub nonce: String,
    pub public_key: String,
    pub signature: String,
}

/// Payload the client attaches in the `X-PAYMENT` header.
#[derive(Debug)]
pub struct PaymentPayload {
    pub x402_version: u8,
    pub scheme: String,
    pub network: String,
    pub asset: String,
    pub authorization: CasperAuthorization,
}


impl Clone for PaymentRequired {
    fn clone(&self) -> (r: Self)
        ensures
            r == *self,
    {
        PaymentRequired {
            x402_version: self.x402_version,
            scheme: self.scheme.clone(),
            network: self.network.clone(),
            asset: self.asset.clone(),
            amount: self.amount,
            pay_to: self.pay_to.clone(),
            max_timeout_secs: self.max_timeout_secs,
            resource: self.resource.clone(),
        }
    }
}

impl Clone for CasperAuthorization {
    fn clone(&self) -> (r: Self)
        ensures
            r == *self,
    {
        CasperAuthorization {
            from: self.from.clone(),
            to: self.to.clone(),
            amount: self.amount,
            valid_after: self.valid_after,
            valid_before: self.valid_before,
            nonce: self.nonce.clone(),
            public_key: self.public_key.clone(),
            signature: self.signature.clone(),
        }
    }
}

impl Clone for PaymentPayload {
    fn clone(&self) -> (r: Self)
        ensures
            r == *self,
    {
        PaymentPayload {
            x402_version: self.x402_version,
            scheme: self.scheme.clone(),
            network: self.network.clone(),
            asset: self.asset.clone(),
            authorization: self.authorization.clone(),
        }
    }
}

#[derive(Debug)]
pub struct VerifyRequest {
    pub payment_payload: PaymentPayload,
    pub payment_requirements: PaymentRequired,
}

#[derive(Debug)]
pub struct VerifyResponse {
    pub is_valid: bool,
    pub invalid_reason: Option<String>,
    pub payer: Option<String>,
}

#[derive(Debug)]
pub struct SettleRequest {
    pub payment_payload: PaymentPayload,
    pub payment_requirements: PaymentRequired,
}

#[derive(Debug)]
pub struct SettleResponse {
    pub success: bool,
    pub transaction: Option<String>,
    pub error_reason: Option<String>,
    pub payer: Option<String>,
}

/// Whether the fields of `auth` describe a transfer: both addresses are address hex, the
/// nonce is 32 bytes of hex.
pub open spec fn authorization_well_formed(auth: CasperAuthorization) -> bool {
    &&& address_text_bytes(encode_utf8(auth.from@)) is Some
    &&& address_text_bytes(encode_utf8(auth.to@)) is Some
    &&& is_hex(encode_utf8(auth.nonce@))
    &&& hex_decoding(encode_utf8(auth.nonce@)).len() == 32
}

/// The EIP-712 message that a well-formed authorization stands for.
pub open spec fn authorization_matches(auth: CasperAuthorization, t: TransferWithAuthorization) -> bool {
    &&& Some(address_bytes(t.from)) == address_text_bytes(encode_utf8(auth.from@))
    &&& Some(address_bytes(t.to)) == address_text_bytes(encode_utf8(auth.to@))
    &&& t.value@ == be_bytes(auth.amount as nat, 32)
    &&& t.valid_after@ == auth.valid_after@
    &&& t.valid_before@ == auth.valid_before@
    &&& t.nonce@ == hex_decoding(encode_utf8(auth.nonce@))
}

/// Why the fields of `auth` describe no transfer (meaningful when they do not): the first
/// unreadable field, with the reader's own error.
pub open spec fn transfer_error(auth: CasperAuthorization) -> Seq<char> {
    let from = encode_utf8(auth.from@);
    let to = encode_utf8(auth.to@);
    let nonce = encode_utf8(auth.nonce@);
    if address_text_bytes(from) is None {
        "invalid from address: "@ + address_text_error(from)
    } else if address_text_bytes(to) is None {
        "invalid to address: "@ + address_text_error(to)
    } else if !is_hex(nonce) {
        "invalid nonce hex: "@ + hex_decode_error(nonce)
    } else {
        "nonce must be 32 bytes"@
    }
}

impl CasperAuthorization {
    /// The EIP-712 message this authorization signs: the addresses read from their hex, the
    /// amount as a 32-byte big-endian word, the validity bounds as they are, the nonce from
    /// its hex.
    pub fn to_transfer(&self) -> (r: Result<TransferWithAuthorization, String>)
        ensures
            r is Ok <==> authorization_well_formed(*self),
            r matches Ok(t) ==> authorization_matches(*self, t),
            r matches Err(e) ==> e@ == transfer_error(*self),
    {
        let from = match deserialize(self.from.as_str()) {
            Ok(a) => a,
            Err(e) => {
                return Err(concat("invalid from address: ", e.as_str()));
            },
        };
        let to = match deserialize(self.to.as_str()) {
            Ok(a) => a,
            Err(e) => {
                return Err(concat("invalid to address: ", e.as_str()));
            },
        };
        let nonce_bytes = match hex_decode(self.nonce.as_str()) {
            Ok(b) => b,
            Err(e) => {
                return Err(concat("invalid nonce hex: ", e.as_str()));
            },
        };
        if nonce_bytes.len() != 32 {
            return Err(String::from_str("nonce must be 32 bytes"));
        }
        let nonce = crate::uint::bytes32_from_vec(&nonce_bytes);
        Ok(
            TransferWithAuthorization {
                from,
                to,
                value: U256::from_u64(self.amount).to_be_bytes(),
                valid_after: self.valid_after,
                valid_before: self.valid_before,
                nonce,
            },
        )
    }
}


/// An address is determined by its raw bytes.
pub proof fn lemma_address_bytes_injective(a: Address, b: Address)
    requires
        address_bytes(a) == address_bytes(b),
    ensures
        a == b,
{
    match (a, b) {
        (Address::Eth(x), Address::Eth(y)) => {
            assert(x =~= y);
        },
        (Address::Casper(x), Address::Casper(y)) => {
            assert(x =~= y);
        },
        (Address::Eth(x), Address::Casper(y)) => {
            assert(address_bytes(a).len() == 20);
        },
        (Address::Casper(x), Address::Eth(y)) => {
            assert(address_bytes(a).len() == 33);
        },
    }
}

/// An authorization stands for at most one EIP-712 message.
pub proof fn lemma_authorization_determines_transfer(auth: CasperAuthorization)
    ensures
        forall|t1: TransferWithAuthorization, t2: TransferWithAuthorization|
            authorization_matches(auth, t1) && authorization_matches(auth, t2) ==> t1 == t2,
{
    assert forall|t1: TransferWithAuthorization, t2: TransferWithAuthorization|
        authorization_matches(auth, t1) && authorization_matches(auth, t2) implies t1 == t2 by {
        lemma_address_bytes_injective(t1.from, t2.from);
        lemma_address_bytes_injective(t1.to, t2.to);
        assert(t1.value =~= t2.value);
        assert(t1.valid_after =~= t2.valid_after);
        assert(t1.valid_before =~= t2.valid_before);
        assert(t1.nonce =~= t2.nonce);
    }
}

} // verus!
