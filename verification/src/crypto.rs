//! Casper public keys, account hashes and signatures, through `casper_types`.
use vstd::prelude::*;
use vstd::string::*;
use casper_types::bytesrepr::{FromBytes, ToBytes};

verus! {

/// The account hash of the public key serialized as `bytes` (tag byte, then the raw key),
/// or `None` when `bytes` does not start with a well-formed public key.
pub uninterp spec fn public_key_account_hash(bytes: Seq<u8>) -> Option<Seq<u8>>;

/// Whether `bytes` starts with a well-formed serialized signature.
pub uninterp spec fn signature_parses(bytes: Seq<u8>) -> bool;

/// Whether the signature serialized as `signature` is a valid signature of `message`
/// under the public key serialized as `public_key`.
pub uninterp spec fn signature_verifies(
    message: Seq<u8>,
    signature: Seq<u8>,
    public_key: Seq<u8>,
) -> bool;

/// The debug text of the error that `FromBytes::from_bytes` reports when no public key can be
/// read from `bytes`.
pub uninterp spec fn public_key_error(bytes: Seq<u8>) -> Seq<char>;

/// The debug text of the error that `FromBytes::from_bytes` reports when no signature can be
/// read from `bytes`.
pub uninterp spec fn signature_error(bytes: Seq<u8>) -> Seq<char>;

/// The debug text of the error that `casper_types::crypto::verify` reports for `message`
/// under the signature and key read from `signature` and `public_key` (or, when no key can
/// be read, that of the key's deserialization error).
pub uninterp spec fn verify_error(message: Seq<u8>, signature: Seq<u8>, public_key: Seq<u8>) -> Seq<char>;

/// Calls `casper_types::PublicKey::to_account_hash` on the key that `FromBytes::from_bytes`
/// reads from `bytes` (trailing bytes are ignored, as `from_bytes` leaves them over).
/// Claimed: the result is the named account hash of `bytes`, and `Err` comes exactly when no
/// key can be read, carrying the named debug text [`public_key_error`] of `bytes`.
#[verifier::external_body]
fn decode_public_key(bytes: &[u8]) -> (r: Result<[u8; 32], String>)
    ensures
        r is Ok <==> public_key_account_hash(bytes@) is Some,
        r matches Ok(h) ==> public_key_account_hash(bytes@) == Some(h@),
        r matches Err(e) ==> e@ == public_key_error(bytes@),
{
    match casper_types::PublicKey::from_bytes(bytes) {
        Ok((key, _)) => Ok(key.to_account_hash().value()),
        Err(e) => Err(format!("{:?}", e)),
    }
}

/// Calls `casper_types::crypto::verify` on the signature and the key that
/// `FromBytes::from_bytes` reads from `signature` and `public_key`. Claimed: the outer result
/// is `Ok` exactly when the signature bytes deserialize; the inner one is `Ok` exactly when
/// the named verification holds (a key that does not deserialize verifies nothing). The
/// errors carry the named debug texts [`signature_error`] and [`verify_error`].
#[verifier::external_body]
fn check_signature(message: &[u8], signature: &[u8], public_key: &[u8]) -> (r: Result<
    Result<(), String>,
    String,
>)
    ensures
        r is Ok <==> signature_parses(signature@),
        r matches Ok(v) ==> (v is Ok <==> signature_verifies(message@, signature@, public_key@)),
        r matches Err(e) ==> e@ == signature_error(signature@),
        r matches Ok(Err(e)) ==> e@ == verify_error(message@, signature@, public_key@),
{
    let sig = match casper_types::crypto::Signature::from_bytes(signature) {
        Ok((sig, _)) => sig,
        Err(e) => return Err(format!("{:?}", e)),
    };
    let key = match casper_types::PublicKey::from_bytes(public_key) {
        Ok((key, _)) => key,
        Err(e) => return Ok(Err(format!("{:?}", e))),
    };
    Ok(casper_types::crypto::verify(message, &sig, &key).map_err(|e| format!("{:?}", e)))
}

/// The serialized public key (tag byte, then the raw key) that belongs to the secret key with
/// algorithm `algorithm` (1: Ed25519, 2: secp256k1) and raw bytes `secret`, or `None` when
/// the bytes make no such key.
pub uninterp spec fn derived_public_key(algorithm: u8, secret: Seq<u8>) -> Option<Seq<u8>>;

/// Calls `casper_types::PublicKey::from(&SecretKey)` on the secret key that
/// `SecretKey::ed25519_from_bytes` (algorithm 1) or `SecretKey::secp256k1_from_bytes`
/// (algorithm 2) builds from `secret`, and serializes it with `ToBytes::to_bytes`. Claimed: the
/// result is the named public key, which deserializes again.
#[verifier::external_body]
fn derive_public_key(algorithm: u8, secret: &[u8]) -> (r: Option<Vec<u8>>)
    ensures
        r is Some <==> derived_public_key(algorithm, secret@) is Some,
        r matches Some(p) ==> derived_public_key(algorithm, secret@) == Some(p@)
            && public_key_account_hash(p@) is Some,
{
    let key = match algorithm {
        1 => casper_types::SecretKey::ed25519_from_bytes(secret).ok()?,
        2 => casper_types::SecretKey::secp256k1_from_bytes(secret).ok()?,
        _ => return None,
    };
    casper_types::PublicKey::from(&key).to_bytes().ok()
}

/// Calls `casper_types::crypto::sign` with the secret key built as in [`derive_public_key`] and
/// the key that `FromBytes::from_bytes` reads from `public_key`, and serializes the signature
/// with `ToBytes::to_bytes`. `None` when either key cannot be built or their algorithms differ
/// (where `sign` would panic). Claimed: the bytes deserialize again as a signature, and when
/// `public_key` is the key of the secret key, a signature comes back and verifies over
/// `message` under it (a signature made with a key pair verifies under its public key).
#[verifier::external_body]
fn sign_message(
    message: &[u8],
    algorithm: u8,
    secret: &[u8],
    public_key: &[u8],
) -> (r: Option<Vec<u8>>)
    ensures
        r matches Some(s) ==> signature_parses(s@),
        r is Some || derived_public_key(algorithm, secret@) != Some(public_key@),
        r matches Some(s) ==> (derived_public_key(algorithm, secret@) == Some(public_key@)
            ==> signature_verifies(message@, s@, public_key@)),
{
    let key = match algorithm {
        1 => casper_types::SecretKey::ed25519_from_bytes(secret).ok()?,
        2 => casper_types::SecretKey::secp256k1_from_bytes(secret).ok()?,
        _ => return None,
    };
    let public = casper_types::PublicKey::from_bytes(public_key).ok()?.0;
    match (&key, &public) {
        (casper_types::SecretKey::Ed25519(_), casper_types::PublicKey::Ed25519(_)) => {},
        (casper_types::SecretKey::Secp256k1(_), casper_types::PublicKey::Secp256k1(_)) => {},
        _ => return None,
    }
    casper_types::crypto::sign(message, &key, &public).to_bytes().ok()
}

/// A secret key held as plain values: its algorithm (1: Ed25519, 2: secp256k1) and raw bytes,
/// together with the public key that belongs to it.
pub struct SigningKey {
    algorithm: u8,
    secret: Vec<u8>,
    public: Vec<u8>,
}

impl SigningKey {
    #[verifier::type_invariant]
    spec fn well_formed(self) -> bool {
        &&& derived_public_key(self.algorithm, self.secret@) == Some(self.public@)
        &&& public_key_account_hash(self.public@) is Some
    }

    /// The algorithm tag.
    pub closed spec fn spec_algorithm(self) -> u8 {
        self.algorithm
    }

    /// The raw secret bytes.
    pub closed spec fn spec_secret(self) -> Seq<u8> {
        self.secret@
    }

    /// The serialized public key of the secret key.
    pub closed spec fn spec_public_key(self) -> Seq<u8> {
        self.public@
    }

    /// The key with algorithm `algorithm` (1: Ed25519, 2: secp256k1) and raw bytes `secret`;
    /// `Err` when the bytes make no such key.
    pub fn from_bytes(algorithm: u8, secret: &[u8]) -> (r: Result<SigningKey, String>)
        ensures
            r is Ok <==> derived_public_key(algorithm, secret@) is Some,
            r matches Ok(k) ==> k.spec_algorithm() == algorithm && k.spec_secret() == secret@
                && derived_public_key(algorithm, secret@) == Some(k.spec_public_key()),
            r matches Err(e) ==> e@ == "invalid secret key"@,
    {
        match derive_public_key(algorithm, secret) {
            Some(public) => Ok(SigningKey { algorithm, secret: crate::bytes::to_vec(secret), public }),
            None => Err(String::from_str("invalid secret key")),
        }
    }

    /// The algorithm tag.
    pub fn algorithm(&self) -> (r: u8)
        ensures
            r == self.spec_algorithm(),
    {
        self.algorithm
    }

    /// The raw secret bytes.
    pub fn secret_bytes(&self) -> (r: &[u8])
        ensures
            r@ == self.spec_secret(),
    {
        self.secret.as_slice()
    }

    /// The public key that belongs to this key.
    pub fn public_key(&self) -> (r: PublicKey)
        ensures
            r.view() == self.spec_public_key(),
            derived_public_key(self.spec_algorithm(), self.spec_secret()) == Some(r.view()),
    {
        proof {
            use_type_invariant(self);
        }
        match PublicKey::from_bytes(self.public.as_slice()) {
            Ok(k) => k,
            Err(_) => {
                proof {
                    assert(false);
                }
                PublicKey { bytes: Vec::new(), account_hash: [0u8; 32] }
            },
        }
    }

    /// Signs `message`; `None` when `public_key` is not of this key's algorithm.
    pub(crate) fn sign(&self, message: &[u8], public_key: &PublicKey) -> (r: Option<Vec<u8>>)
        ensures
            r matches Some(s) ==> signature_parses(s@),
            self.spec_public_key() == public_key.view() ==> (r matches Some(s)
                && signature_verifies(message@, s@, public_key.view())),
    {
        proof {
            use_type_invariant(self);
        }
        sign_message(message, self.algorithm, self.secret.as_slice(), public_key.as_bytes())
    }
}

/// A serialized Casper public key that is known to deserialize, with its account hash.
pub struct PublicKey {
    bytes: Vec<u8>,
    account_hash: [u8; 32],
}

impl PublicKey {
    #[verifier::type_invariant]
    spec fn well_formed(self) -> bool {
        public_key_account_hash(self.bytes@) == Some(self.account_hash@)
    }

    /// The serialized key.
    pub closed spec fn view(self) -> Seq<u8> {
        self.bytes@
    }

    /// Reads a serialized public key (tag byte, then the raw key); `Err` carries the
    /// deserialization error's debug text.
    pub fn from_bytes(bytes: &[u8]) -> (r: Result<PublicKey, String>)
        ensures
            r is Ok <==> public_key_account_hash(bytes@) is Some,
            r matches Ok(k) ==> k.view() == bytes@,
            r matches Err(e) ==> e@ == public_key_error(bytes@),
    {
        match decode_public_key(bytes) {
            Ok(h) => {
                let mut v: Vec<u8> = Vec::new();
                let mut i: usize = 0;
                while i < bytes.len()
                    invariant
                        i <= bytes@.len(),
                        v@ == bytes@.subrange(0, i as int),
                    decreases bytes@.len() - i,
                {
                    v.push(bytes[i]);
                    i = i + 1;
                    assert(v@ =~= bytes@.subrange(0, i as int));
                }
                assert(v@ =~= bytes@);
                Ok(PublicKey { bytes: v, account_hash: h })
            },
            Err(e) => Err(e),
        }
    }

    /// The account hash of the key.
    pub fn account_hash(&self) -> (r: [u8; 32])
        ensures
            public_key_account_hash(self.view()) == Some(r@),
    {
        proof {
            use_type_invariant(self);
        }
        self.account_hash
    }

    /// The serialized key.
    pub fn as_bytes(&self) -> (r: &[u8])
        ensures
            r@ == self.view(),
    {
        self.bytes.as_slice()
    }
}

/// Result of checking a signature.
#[derive(Clone, Debug, PartialEq, Eq)]
pub enum SignatureCheck {
    /// The signature verifies.
    Valid,
    /// The signature bytes do not deserialize (debug text of the error).
    Malformed(String),
    /// The signature deserializes but does not verify (debug text of the error).
    Invalid(String),
}

/// Checks `signature` over `message` against `public_key`.
pub fn verify_signature(message: &[u8], signature: &[u8], public_key: &PublicKey) -> (r:
    SignatureCheck)
    ensures
        r is Malformed <==> !signature_parses(signature@),
        r matches SignatureCheck::Malformed(e) ==> e@ == signature_error(signature@),
        r matches SignatureCheck::Invalid(e) ==> e@ == verify_error(
            message@,
            signature@,
            public_key.view(),
        ),
        r is Valid <==> signature_parses(signature@) && signature_verifies(
            message@,
            signature@,
            public_key.view(),
        ),
{
    match check_signature(message, signature, public_key.as_bytes()) {
        Err(e) => SignatureCheck::Malformed(e),
        Ok(Err(e)) => SignatureCheck::Invalid(e),
        Ok(Ok(())) => SignatureCheck::Valid,
    }
}

} // verus!
