use casper_eip_712::Eip712Struct;
use casper_x402::eip712::{
    casper_address_from_bytes, casper_address_from_parts, casper_address_tag,
    casper_address_to_bytes, casper_contract_address_from_bytes, format_casper_address,
    hash_typed_data, type_string, x402_domain, Address, TransferWithAuthorization, ACCOUNT_TAG,
    CONTRACT_TAG,
};
use casper_x402::serde_address::{deserialize, serialize};

fn hash_of(seed: u8) -> [u8; 32] {
    let mut h = [0u8; 32];
    for (i, b) in h.iter_mut().enumerate() {
        *b = seed.wrapping_add(i as u8);
    }
    h
}

#[test]
fn address_constructors_set_the_tag() {
    let h = hash_of(3);
    let Address::Casper(a) = casper_address_from_bytes(h) else { panic!("not Casper") };
    assert_eq!(a[0], ACCOUNT_TAG);
    assert_eq!(&a[1..], &h);
    let Address::Casper(c) = casper_contract_address_from_bytes(h) else { panic!("not Casper") };
    assert_eq!(c[0], CONTRACT_TAG);
    assert_eq!(&c[1..], &h);
    let Address::Casper(p) = casper_address_from_parts(7, h) else { panic!("not Casper") };
    assert_eq!(p[0], 7);
}

#[test]
fn address_parts_round_trip() {
    let h = hash_of(9);
    let a = casper_address_from_bytes(h);
    assert_eq!(casper_address_to_bytes(&a), Ok(h));
    assert_eq!(casper_address_tag(&a), Ok(ACCOUNT_TAG));
    let c = casper_contract_address_from_bytes(h);
    assert_eq!(casper_address_to_bytes(&c), Ok(h));
    assert_eq!(casper_address_tag(&c), Ok(CONTRACT_TAG));
}

#[test]
fn address_to_bytes_errors() {
    let unknown = casper_address_from_parts(2, [0; 32]);
    assert_eq!(
        casper_address_to_bytes(&unknown),
        Err("invalid Casper address: unexpected tag byte")
    );
    assert_eq!(casper_address_tag(&unknown), Err("invalid Casper address: unexpected tag byte"));
    let eth = Address::Eth([1; 20]);
    assert_eq!(casper_address_to_bytes(&eth), Err("expected Casper address, got Eth"));
    assert_eq!(casper_address_tag(&eth), Err("expected Casper address, got Eth"));
}

#[test]
fn format_addresses() {
    let h = [0xabu8; 32];
    let hex = "ab".repeat(32);
    assert_eq!(format_casper_address(&casper_address_from_bytes(h)), format!("account-hash-{}", hex));
    assert_eq!(format_casper_address(&casper_contract_address_from_bytes(h)), format!("hash-{}", hex));
    assert_eq!(
        format_casper_address(&casper_address_from_parts(0x1f, h)),
        format!("unknown-1f-{}", hex)
    );
    assert_eq!(format_casper_address(&Address::Eth([0x0a; 20])), format!("0x{}", "0a".repeat(20)));
}

#[test]
fn address_hex_round_trip() {
    for a in [
        casper_address_from_bytes(hash_of(1)),
        casper_contract_address_from_bytes(hash_of(200)),
        Address::Eth([0xfe; 20]),
    ] {
        let text = serialize(&a);
        assert_eq!(deserialize(&text), Ok(a));
    }
    assert_eq!(serialize(&Address::Eth([0x01; 20])), "01".repeat(20));
}

#[test]
fn deserialize_errors() {
    assert_eq!(deserialize("zz").unwrap_err(), "invalid digit found in string");
    assert_eq!(
        deserialize("abcd").unwrap_err(),
        "invalid address length 2: expected 20 (Eth) or 33 (Casper)"
    );
    assert_eq!(
        deserialize("").unwrap_err(),
        "invalid address length 0: expected 20 (Eth) or 33 (Casper)"
    );
    assert_eq!(deserialize("abc").unwrap_err(), "odd number of hexadecimal digits");
    assert_eq!(deserialize("a\u{e9}b").unwrap_err(), "address hex is not ASCII");
    assert!(deserialize(&"00".repeat(32)).is_err());
}

#[test]
fn deserialize_reads_chunks_as_numbers() {
    // `u8::from_str_radix` accepts a leading `+` in a chunk.
    let mut text = "+1".to_string();
    text.push_str(&"00".repeat(19));
    let Ok(Address::Eth(b)) = deserialize(&text) else { panic!("not Eth") };
    assert_eq!(b[0], 1);
}

#[test]
fn type_string_is_canonical() {
    assert_eq!(
        type_string(),
        "TransferAuthorization(address from,address to,uint256 value,uint256 valid_after,uint256 valid_before,bytes32 nonce)"
    );
}

/// The same message, written against the outside crate's own trait.
struct Reference {
    from: casper_eip_712::Address,
    to: casper_eip_712::Address,
    value: [u8; 32],
    valid_after: [u8; 32],
    valid_before: [u8; 32],
    nonce: [u8; 32],
}

impl Eip712Struct for Reference {
    fn type_string() -> &'static str {
        "TransferAuthorization(address from,address to,uint256 value,uint256 valid_after,uint256 valid_before,bytes32 nonce)"
    }

    fn encode_data(&self) -> Vec<u8> {
        let mut data = Vec::with_capacity(6 * 32);
        data.extend(casper_eip_712::encode_address(self.from));
        data.extend(casper_eip_712::encode_address(self.to));
        data.extend(casper_eip_712::encode_uint256(self.value));
        data.extend(casper_eip_712::encode_uint256(self.valid_after));
        data.extend(casper_eip_712::encode_uint256(self.valid_before));
        data.extend(casper_eip_712::encode_bytes32(self.nonce));
        data
    }
}

fn sample() -> (TransferWithAuthorization, Reference) {
    let from = hash_of(1);
    let to = hash_of(50);
    let mut value = [0u8; 32];
    value[31] = 100;
    let mut after = [0u8; 32];
    after[30] = 1;
    let before = [0x7f; 32];
    let nonce = hash_of(99);
    let mut from33 = [0u8; 33];
    from33[1..].copy_from_slice(&from);
    let mut to33 = [0u8; 33];
    to33[1..].copy_from_slice(&to);
    (
        TransferWithAuthorization {
            from: casper_address_from_bytes(from),
            to: casper_address_from_bytes(to),
            value,
            valid_after: after,
            valid_before: before,
            nonce,
        },
        Reference {
            from: casper_eip_712::Address::Casper(from33),
            to: casper_eip_712::Address::Casper(to33),
            value,
            valid_after: after,
            valid_before: before,
            nonce,
        },
    )
}

#[test]
fn encode_data_matches_outside_crate() {
    let (t, r) = sample();
    let data = t.encode_data();
    assert_eq!(data.len(), 192);
    assert_eq!(data, r.encode_data());
    // Casper addresses are hashed, not copied.
    assert_ne!(&data[..32], &hash_of(1));
    assert_eq!(&data[64..96], &t.value);
}

#[test]
fn type_hash_and_struct_hash_match_outside_crate() {
    let (t, r) = sample();
    assert_eq!(TransferWithAuthorization::type_hash(), Reference::type_hash());
    assert_eq!(TransferWithAuthorization::type_hash(), casper_eip_712::keccak256(type_string().as_bytes()));
    assert_eq!(t.hash_struct(), r.hash_struct());
}

#[test]
fn typed_data_hash_matches_outside_crate() {
    let (t, r) = sample();
    let token = hash_of(77);
    let domain = x402_domain("casper-net-1", token);
    let reference_domain = casper_eip_712::DomainBuilder::new()
        .name("Cep18x402")
        .version("1")
        .custom_field("chain_id", casper_eip_712::DomainFieldValue::String("casper-net-1".into()))
        .custom_field("contract_package_hash", casper_eip_712::DomainFieldValue::Bytes32(token))
        .build();
    assert_eq!(domain.separator_hash, reference_domain.separator_hash());
    assert_eq!(hash_typed_data(&domain, &t), casper_eip_712::hash_typed_data(&reference_domain, &r));
}

#[test]
fn domain_depends_on_chain_and_token() {
    let a = x402_domain("casper-net-1", [1; 32]);
    let b = x402_domain("casper-test", [1; 32]);
    let c = x402_domain("casper-net-1", [2; 32]);
    assert_ne!(a, b);
    assert_ne!(a, c);
    assert_eq!(a, x402_domain("casper-net-1", [1; 32]));
}

#[test]
fn eth_address_encodes_left_padded() {
    let mut t = sample().0;
    t.from = Address::Eth([0x55; 20]);
    let data = t.encode_data();
    assert_eq!(&data[..12], &[0u8; 12]);
    assert_eq!(&data[12..32], &[0x55; 20]);
}
