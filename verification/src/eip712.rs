//! EIP-712 typed data for x402 transfer authorizations on Casper, and the address
//! helpers around it (through `casper_eip_712`).
use vstd::prelude::*;
use vstd::utf8::encode_utf8;
use vstd::string::*;
use crate::bytes::push_all;
use crate::text::{concat, hex_encode, hex_encoding};
use crate::uint::zeros;

verus! {

/// Tag byte for a Casper account-hash address.
pub const ACCOUNT_TAG: u8 = 0x00;

/// Tag byte for a Casper contract (package) hash address.
pub const CONTRACT_TAG: u8 = 0x01;

/// An address field of an EIP-712 message: a 20-byte Ethereum address or a 33-byte Casper
/// address (tag byte, then the 32-byte hash).
#[derive(Clone, Copy, Debug, PartialEq, Eq)]
pub enum Address {
    Eth([u8; 20]),
    Casper([u8; 33]),
}

/// The raw bytes of an address.
pub open spec fn address_bytes(a: Address) -> Seq<u8> {
    match a {
        Address::Eth(b) => b@,
        Address::Casper(b) => b@,
    }
}

/// Create a Casper `Address` from raw 32-byte account-hash bytes (tag byte `0x00`).
pub fn casper_address_from_bytes(account_hash_bytes: [u8; 32]) -> (r: Address)
    ensures
        r is Casper,
        address_bytes(r) == seq![ACCOUNT_TAG] + account_hash_bytes@,
{
    casper_address_from_parts(ACCOUNT_TAG, account_hash_bytes)
}

/// Create a Casper `Address` from raw 32-byte contract-hash bytes (tag byte `0x01`).
pub fn casper_contract_address_from_bytes(contract_hash_bytes: [u8; 32]) -> (r: Address)
    ensures
        r is Casper,
        address_bytes(r) == seq![CONTRACT_TAG] + contract_hash_bytes@,
{
    casper_address_from_parts(CONTRACT_TAG, contract_hash_bytes)
}

/// Create a Casper `Address` from a tag byte and 32 raw bytes.
pub fn casper_address_from_parts(tag: u8, hash_bytes: [u8; 32]) -> (r: Address)
    ensures
        r is Casper,
        address_bytes(r) == seq![tag] + hash_bytes@,
{
    let mut arr: [u8; 33] = [0u8; 33];
    arr[0] = tag;
    let mut i: usize = 0;
    while i < 32
        invariant
            i <= 32,
            arr@[0] == tag,
            forall|k: int| 0 <= k < i ==> arr@[k + 1] == hash_bytes@[k],
        decreases 32 - i,
    {
        arr[i + 1] = hash_bytes[i];
        i = i + 1;
    }
    assert(arr@ =~= seq![tag] + hash_bytes@);
    Address::Casper(arr)
}

/// Whether `a` is a Casper address with an account or contract tag.
pub open spec fn has_known_tag(a: Address) -> bool {
    a matches Address::Casper(b) && (b[0] == ACCOUNT_TAG || b[0] == CONTRACT_TAG)
}

/// Extract the raw 32-byte hash from a Casper `Address` (account or contract).
///
/// Accepts tag bytes `0x00` (account) and `0x01` (contract).
pub fn casper_address_to_bytes(addr: &Address) -> (r: Result<[u8; 32], &'static str>)
    ensures
        has_known_tag(*addr) ==> (r matches Ok(h) && h@ == address_bytes(*addr).drop_first()),
        (*addr is Casper && !has_known_tag(*addr)) ==> r == Err::<[u8; 32], &'static str>(
            "invalid Casper address: unexpected tag byte",
        ),
        *addr is Eth ==> r == Err::<[u8; 32], &'static str>("expected Casper address, got Eth"),
{
    match addr {
        Address::Casper(b) => {
            if b[0] == ACCOUNT_TAG || b[0] == CONTRACT_TAG {
                let mut bytes: [u8; 32] = [0u8; 32];
                let mut i: usize = 0;
                while i < 32
                    invariant
                        i <= 32,
                        forall|k: int| 0 <= k < i ==> bytes@[k] == b@[k + 1],
                    decreases 32 - i,
                {
                    bytes[i] = b[i + 1];
                    i = i + 1;
                }
                assert(bytes@ =~= b@.drop_first());
                Ok(bytes)
            } else {
                Err("invalid Casper address: unexpected tag byte")
            }
        },
        Address::Eth(_) => Err("expected Casper address, got Eth"),
    }
}

/// Return the tag byte of a Casper `Address`.
pub fn casper_address_tag(addr: &Address) -> (r: Result<u8, &'static str>)
    ensures
        has_known_tag(*addr) ==> r == Ok::<u8, &'static str>(address_bytes(*addr)[0]),
        (*addr is Casper && !has_known_tag(*addr)) ==> r == Err::<u8, &'static str>(
            "invalid Casper address: unexpected tag byte",
        ),
        *addr is Eth ==> r == Err::<u8, &'static str>("expected Casper address, got Eth"),
{
    match addr {
        Address::Casper(b) => {
            if b[0] == ACCOUNT_TAG || b[0] == CONTRACT_TAG {
                Ok(b[0])
            } else {
                Err("invalid Casper address: unexpected tag byte")
            }
        },
        Address::Eth(_) => Err("expected Casper address, got Eth"),
    }
}

/// An account or contract address gives back the parts it was made from:
/// [`casper_address_tag`] answers its tag and [`casper_address_to_bytes`] its hash.
pub proof fn law_casper_address_parts_round_trip(a: Address, tag: u8, hash: Seq<u8>)
    requires
        a is Casper,
        address_bytes(a) == seq![tag] + hash,
        tag == ACCOUNT_TAG || tag == CONTRACT_TAG,
    ensures
        has_known_tag(a),
        address_bytes(a)[0] == tag,
        address_bytes(a).drop_first() == hash,
{
    assert((seq![tag] + hash).drop_first() =~= hash);
}

/// The human-readable form of an address: `account-hash-{hex}`, `hash-{hex}`,
/// `unknown-{tag}-{hex}` or `0x{hex}`.
pub open spec fn formatted_address(a: Address) -> Seq<char> {
    match a {
        Address::Casper(b) => {
            let hex = hex_encoding(b@.drop_first());
            if b[0] == ACCOUNT_TAG {
                "account-hash-"@ + hex
            } else if b[0] == CONTRACT_TAG {
                "hash-"@ + hex
            } else {
                "unknown-"@ + hex_encoding(seq![b[0]]) + "-"@ + hex
            }
        },
        Address::Eth(b) => "0x"@ + hex_encoding(b@),
    }
}

/// Format an `Address` as a human-readable string:
/// - Casper, tag `0x00` (account) → `account-hash-{hex}`
/// - Casper, tag `0x01` (contract) → `hash-{hex}`
/// - Casper, any other tag → `unknown-{tag}-{hex}`
/// - Ethereum → `0x{hex}`
pub fn format_casper_address(addr: &Address) -> (r: String)
    ensures
        r@ == formatted_address(*addr),
{
    match addr {
        Address::Casper(b) => {
            let rest = b.as_slice().split_at(1).1;
            assert(rest@ =~= b@.drop_first());
            let hex = hex_encode(rest);
            if b[0] == ACCOUNT_TAG {
                concat("account-hash-", hex.as_str())
            } else if b[0] == CONTRACT_TAG {
                concat("hash-", hex.as_str())
            } else {
                let tag_bytes: [u8; 1] = [b[0]];
                assert(tag_bytes@ =~= seq![b[0]]);
                let tag = hex_encode(tag_bytes.as_slice());
                let mut s = concat("unknown-", tag.as_str());
                s.append("-");
                s.append(hex.as_str());
                s
            }
        },
        Address::Eth(b) => {
            let hex = hex_encode(b.as_slice());
            concat("0x", hex.as_str())
        },
    }
}

// ---------------------------------------------------------------------------------------
// Hashing
// ---------------------------------------------------------------------------------------

/// Keccak-256 digest of `data`.
pub uninterp spec fn keccak(data: Seq<u8>) -> Seq<u8>;

/// The separator hash of the EIP-712 domain with name `name`, version `version` and two
/// custom fields, the string field `string_field` with value `string_value` and then the
/// bytes32 field `bytes_field` with value `bytes_value`.
pub uninterp spec fn domain_separator_hash(
    name: Seq<char>,
    version: Seq<char>,
    string_field: Seq<char>,
    string_value: Seq<char>,
    bytes_field: Seq<char>,
    bytes_value: Seq<u8>,
) -> Seq<u8>;

/// Calls `casper_eip_712::keccak256`. Claimed: the result is the named digest of `data`.
#[verifier::external_body]
fn keccak256(data: &[u8]) -> (r: [u8; 32])
    ensures
        r@ == keccak(data@),
{
    casper_eip_712::keccak256(data)
}

/// The 32-byte EIP-712 slot of an address: an Ethereum address left-padded with 12 zero
/// bytes, a Casper address hashed with Keccak-256.
pub open spec fn encoded_address(a: Address) -> Seq<u8> {
    match a {
        Address::Eth(b) => zeros(12) + b@,
        Address::Casper(b) => keccak(b@),
    }
}

/// Calls `casper_eip_712::encode_address`. Claimed (as its source shows): 12 zero bytes and
/// the 20 bytes for an Ethereum address, the Keccak-256 digest of the 33 bytes for a
/// Casper address.
#[verifier::external_body]
fn encode_address(addr: Address) -> (r: [u8; 32])
    ensures
        r@ == encoded_address(addr),
{
    let outside = match addr {
        Address::Eth(b) => casper_eip_712::Address::Eth(b),
        Address::Casper(b) => casper_eip_712::Address::Casper(b),
    };
    casper_eip_712::encode_address(outside)
}

/// Calls `casper_eip_712::encode_uint256`, the identity on a 32-byte big-endian word.
#[verifier::external_body]
fn encode_uint256(value: [u8; 32]) -> (r: [u8; 32])
    ensures
        r == value,
{
    casper_eip_712::encode_uint256(value)
}

/// Calls `casper_eip_712::encode_bytes32`, the identity on 32 bytes.
#[verifier::external_body]
fn encode_bytes32(value: [u8; 32]) -> (r: [u8; 32])
    ensures
        r == value,
{
    casper_eip_712::encode_bytes32(value)
}

/// The hash of an EIP-712 domain separator.
#[derive(Clone, Copy, Debug, PartialEq, Eq)]
pub struct X402Domain {
    pub separator_hash: [u8; 32],
}

/// Calls `casper_eip_712::DomainBuilder` (`name`, `version`, the two custom fields in this
/// order, `build`) and keeps the domain's separator hash. Claimed: the hash is the named
/// [`domain_separator_hash`] of the arguments.
#[verifier::external_body]
fn domain_separator(
    name: &str,
    version: &str,
    string_field: &str,
    string_value: &str,
    bytes_field: &str,
    bytes_value: [u8; 32],
) -> (r: [u8; 32])
    ensures
        r@ == domain_separator_hash(
            name@,
            version@,
            string_field@,
            string_value@,
            bytes_field@,
            bytes_value@,
        ),
{
    casper_eip_712::DomainBuilder::new()
        .name(name)
        .version(version)
        .custom_field(string_field, casper_eip_712::DomainFieldValue::String(string_value.into()))
        .custom_field(bytes_field, casper_eip_712::DomainFieldValue::Bytes32(bytes_value))
        .build()
        .separator_hash()
}

/// The separator hash of the x402 EIP-712 domain for `chain_id` and the token's package hash.
pub open spec fn x402_domain_hash(chain_id: Seq<char>, x402_token_address: Seq<u8>) -> Seq<u8> {
    domain_separator_hash(
        "Cep18x402"@,
        "1"@,
        "chain_id"@,
        chain_id,
        "contract_package_hash"@,
        x402_token_address,
    )
}

/// Build the EIP-712 domain separator for x402: name `Cep18x402`, version `1`, and the custom
/// fields `chain_id` (string) and `contract_package_hash` (bytes32).
pub fn x402_domain(chain_id: &str, x402_token_address: [u8; 32]) -> (r: X402Domain)
    ensures
        r.separator_hash@ == x402_domain_hash(chain_id@, x402_token_address@),
{
    let separator_hash = domain_separator(
        "Cep18x402",
        "1",
        "chain_id",
        chain_id,
        "contract_package_hash",
        x402_token_address,
    );
    X402Domain { separator_hash }
}

/// EIP-3009/x402-style transfer authorization for Casper.
#[derive(Clone, Copy, Debug, PartialEq, Eq)]
pub struct TransferWithAuthorization {
    pub from: Address,
    pub to: Address,
    /// U256, big-endian
    pub value: [u8; 32],
    /// U256 timestamp, big-endian
    pub valid_after: [u8; 32],
    /// U256 timestamp, big-endian
    pub valid_before: [u8; 32],
    pub nonce: [u8; 32],
}

/// The canonical EIP-712 type string.
pub open spec fn transfer_type_string() -> Seq<char> {
    "TransferAuthorization(address from,address to,uint256 value,uint256 valid_after,uint256 valid_before,bytes32 nonce)"@
}

/// The canonical EIP-712 type string of [`TransferWithAuthorization`].
pub fn type_string() -> (r: &'static str)
    ensures
        r@ == transfer_type_string(),
{
    "TransferAuthorization(address from,address to,uint256 value,uint256 valid_after,uint256 valid_before,bytes32 nonce)"
}

/// Keccak-256 of the UTF-8 type string.
pub open spec fn transfer_type_hash() -> Seq<u8> {
    keccak(encode_utf8(transfer_type_string()))
}

/// The ABI encoding of the fields: six 32-byte slots.
pub open spec fn encoded_data(t: TransferWithAuthorization) -> Seq<u8> {
    encoded_address(t.from) + encoded_address(t.to) + t.value@ + t.valid_after@ + t.valid_before@
        + t.nonce@
}

/// The EIP-712 encoding of a transfer lists its fields in the order of the type string: the
/// encoded `from` and `to` addresses, then four 32-byte slots holding `value`, `valid_after`,
/// `valid_before` and `nonce`, each exactly its 32 bytes (big-endian words as they are).
pub proof fn law_encoded_data_slots(t: TransferWithAuthorization)
    ensures
        ({
            let e = encoded_data(t);
            let n = e.len() as int;
            let a = encoded_address(t.from).len() as int;
            let b = encoded_address(t.to).len() as int;
            &&& n == a + b + 128
            &&& e.subrange(0, a) == encoded_address(t.from)
            &&& e.subrange(a, a + b) == encoded_address(t.to)
            &&& e.subrange(n - 128, n - 96) == t.value@
            &&& e.subrange(n - 96, n - 64) == t.valid_after@
            &&& e.subrange(n - 64, n - 32) == t.valid_before@
            &&& e.subrange(n - 32, n) == t.nonce@
        }),
{
    let e = encoded_data(t);
    let n = e.len() as int;
    let a = encoded_address(t.from).len() as int;
    let b = encoded_address(t.to).len() as int;
    assert(e.subrange(0, a) =~= encoded_address(t.from));
    assert(e.subrange(a, a + b) =~= encoded_address(t.to));
    assert(e.subrange(n - 128, n - 96) =~= t.value@);
    assert(e.subrange(n - 96, n - 64) =~= t.valid_after@);
    assert(e.subrange(n - 64, n - 32) =~= t.valid_before@);
    assert(e.subrange(n - 32, n) =~= t.nonce@);
}

/// `hashStruct = keccak256(typeHash ‖ encodeData)`.
pub open spec fn struct_hash(t: TransferWithAuthorization) -> Seq<u8> {
    keccak(transfer_type_hash() + encoded_data(t))
}

/// The EIP-712 digest: `keccak256(0x19 ‖ 0x01 ‖ domainSeparator ‖ hashStruct)`.
pub open spec fn typed_data_hash(domain: X402Domain, t: TransferWithAuthorization) -> Seq<u8> {
    keccak(seq![0x19u8, 0x01u8] + domain.separator_hash@ + struct_hash(t))
}

impl TransferWithAuthorization {
    /// Keccak-256 of the type string.
    pub fn type_hash() -> (r: [u8; 32])
        ensures
            r@ == transfer_type_hash(),
    {
        keccak256(type_string().as_bytes())
    }

    /// ABI-encode the struct fields (without the type hash prefix).
    pub fn encode_data(&self) -> (r: Vec<u8>)
        ensures
            r@ == encoded_data(*self),
            r@.len() == 192,
            r@.subrange(0, 32) == encoded_address(self.from),
            r@.subrange(32, 64) == encoded_address(self.to),
            r@.subrange(64, 96) == self.value@,
            r@.subrange(96, 128) == self.valid_after@,
            r@.subrange(128, 160) == self.valid_before@,
            r@.subrange(160, 192) == self.nonce@,
    {
        let mut data: Vec<u8> = Vec::new();
        push_all(&mut data, encode_address(self.from).as_slice());
        push_all(&mut data, encode_address(self.to).as_slice());
        push_all(&mut data, encode_uint256(self.value).as_slice());
        push_all(&mut data, encode_uint256(self.valid_after).as_slice());
        push_all(&mut data, encode_uint256(self.valid_before).as_slice());
        push_all(&mut data, encode_bytes32(self.nonce).as_slice());
        assert(data@ =~= encoded_data(*self));
        assert(data@.subrange(0, 32) =~= encoded_address(self.from));
        assert(data@.subrange(32, 64) =~= encoded_address(self.to));
        assert(data@.subrange(64, 96) =~= self.value@);
        assert(data@.subrange(96, 128) =~= self.valid_after@);
        assert(data@.subrange(128, 160) =~= self.valid_before@);
        assert(data@.subrange(160, 192) =~= self.nonce@);
        data
    }

    /// `keccak256(typeHash ‖ encodeData)`.
    pub fn hash_struct(&self) -> (r: [u8; 32])
        ensures
            r@ == struct_hash(*self),
    {
        let mut data: Vec<u8> = Vec::new();
        push_all(&mut data, Self::type_hash().as_slice());
        push_all(&mut data, self.encode_data().as_slice());
        keccak256(data.as_slice())
    }
}

/// Compute the final EIP-712 typed data digest.
pub fn hash_typed_data(domain: &X402Domain, message: &TransferWithAuthorization) -> (r: [u8; 32])
    ensures
        r@ == typed_data_hash(*domain, *message),
{
    let mut data: Vec<u8> = Vec::new();
    data.push(0x19u8);
    data.push(0x01u8);
    push_all(&mut data, domain.separator_hash.as_slice());
    push_all(&mut data, message.hash_struct().as_slice());
    assert(data@ =~= seq![0x19u8, 0x01u8] + domain.separator_hash@ + struct_hash(*message));
    keccak256(data.as_slice())
}

} // verus!
