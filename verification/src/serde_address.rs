//! Addresses as hexadecimal text of their raw bytes, the form they take in JSON messages.
use vstd::prelude::*;
use vstd::string::*;
use vstd::utf8::encode_utf8;
use crate::eip712::{Address, address_bytes};
use crate::text::{
    ascii_bytes, decimal, decimal_string, hex_decoding, hex_encode, hex_encoding, hex_value,
    lemma_hex_ascii, lemma_hex_round_trip,
};

verus! {

/// The hexadecimal text of an address's raw bytes (20 for Ethereum, 33 for Casper).
pub fn serialize(addr: &Address) -> (r: String)
    ensures
        r@ == hex_encoding(address_bytes(*addr)),
{
    match addr {
        Address::Eth(b) => hex_encode(b.as_slice()),
        Address::Casper(b) => hex_encode(b.as_slice()),
    }
}

/// The byte that a two-byte chunk of text stands for when read as an unsigned base-16
/// number: an optional `+` and one digit, or two digits.
pub open spec fn hex_pair_value(c0: u8, c1: u8) -> Option<u8> {
    if c0 == 43 {
        hex_value(c1)
    } else if hex_value(c0) is Some && hex_value(c1) is Some {
        Some((hex_value(c0)->0 * 16 + hex_value(c1)->0) as u8)
    } else {
        None
    }
}

/// Whether every two-byte chunk of `s` reads as a byte.
pub open spec fn hex_pairs_valid(s: Seq<u8>) -> bool {
    forall|i: int| 0 <= i < s.len() / 2 ==> (#[trigger] hex_pair_value(s[2 * i], s[2 * i + 1])) is Some
}

/// The bytes of the two-byte chunks of `s`.
pub open spec fn hex_pairs(s: Seq<u8>) -> Seq<u8> {
    Seq::new(s.len() / 2, |i: int| hex_pair_value(s[2 * i], s[2 * i + 1])->0)
}

/// Whether `b` is a UTF-8 continuation byte (so not the start of a character).
pub open spec fn is_continuation(b: u8) -> bool {
    0x80 <= b < 0xc0
}

/// Whether `text` can be cut into two-byte chunks at character boundaries.
pub open spec fn splits_into_pairs(text: Seq<u8>) -> bool {
    text.len() % 2 == 0 && forall|i: int|
        0 <= i < text.len() / 2 ==> !is_continuation(#[trigger] text[2 * i])
}

/// Reads an address from the hexadecimal text of its raw bytes; the byte count picks the
/// kind (20: Ethereum, 33: Casper). Each two-character chunk is read as a base-16 number;
/// text of odd length, or that cannot be cut into two-character chunks, is an error.
pub fn deserialize(text: &str) -> (r: Result<Address, String>)
    ensures
        r is Ok <==> address_text_bytes(text.spec_bytes()) is Some,
        r matches Ok(a) ==> Some(address_bytes(a)) == address_text_bytes(text.spec_bytes()),
        r matches Err(e) ==> e@ == address_text_error(text.spec_bytes()),
{
    let b = text.as_bytes();
    if b.len() % 2 != 0 {
        return Err(String::from_str("odd number of hexadecimal digits"));
    }
    let mut i: usize = 0;
    while i < b.len() / 2
        invariant
            i <= b@.len() / 2,
            b@.len() % 2 == 0,
            b@ == text.spec_bytes(),
            forall|k: int| 0 <= k < i ==> !is_continuation(#[trigger] b@[2 * k]),
        decreases b@.len() / 2 - i,
    {
        if 0x80 <= b[2 * i] && b[2 * i] < 0xc0 {
            assert(!splits_into_pairs(b@)) by {
                assert(is_continuation(b@[2 * (i as int)]));
            }
            return Err(String::from_str("address hex is not ASCII"));
        }
        i = i + 1;
    }
    assert(splits_into_pairs(b@));
    let s = text.as_bytes();
    let mut bytes: Vec<u8> = Vec::new();
    let mut i: usize = 0;
    while i < s.len() / 2
        invariant
            i <= s@.len() / 2,
            s@ == text.spec_bytes(),
            splits_into_pairs(s@),
            bytes@.len() == i,
            forall|k: int| 0 <= k < i ==> (#[trigger] hex_pair_value(s@[2 * k], s@[2 * k + 1])) is Some,
            forall|k: int| 0 <= k < i ==> bytes@[k] == hex_pair_value(s@[2 * k], s@[2 * k + 1])->0,
        decreases s@.len() / 2 - i,
    {
        let c0 = s[2 * i];
        let c1 = s[2 * i + 1];
        let v = match pair_value(c0, c1) {
            Some(v) => v,
            None => {
                return Err(String::from_str("invalid digit found in string"));
            },
        };
        bytes.push(v);
        i = i + 1;
    }
    assert(bytes@ =~= hex_pairs(s@));
    if bytes.len() == 20 {
        let mut arr: [u8; 20] = [0u8; 20];
        let mut k: usize = 0;
        while k < 20
            invariant
                k <= 20,
                bytes@.len() == 20,
                forall|j: int| 0 <= j < k ==> arr@[j] == bytes@[j],
            decreases 20 - k,
        {
            arr[k] = bytes[k];
            k = k + 1;
        }
        assert(arr@ =~= bytes@);
        Ok(Address::Eth(arr))
    } else if bytes.len() == 33 {
        let mut arr: [u8; 33] = [0u8; 33];
        let mut k: usize = 0;
        while k < 33
            invariant
                k <= 33,
                bytes@.len() == 33,
                forall|j: int| 0 <= j < k ==> arr@[j] == bytes@[j],
            decreases 33 - k,
        {
            arr[k] = bytes[k];
            k = k + 1;
        }
        assert(arr@ =~= bytes@);
        Ok(Address::Casper(arr))
    } else {
        let mut m = String::from_str("invalid address length ");
        m.append(decimal_string(bytes.len() as u64).as_str());
        m.append(": expected 20 (Eth) or 33 (Casper)");
        Err(m)
    }
}


/// The raw address bytes written as hexadecimal text `text` (see [`deserialize`]), or
/// `None` when the text is not such an address.
pub open spec fn address_text_bytes(text: Seq<u8>) -> Option<Seq<u8>> {
    if splits_into_pairs(text) && hex_pairs_valid(text) && (hex_pairs(text).len() == 20
        || hex_pairs(text).len() == 33) {
        Some(hex_pairs(text))
    } else {
        None
    }
}

/// The address that the address hex `text` names (meaningful when it names one: raw bytes
/// determine the address, see `lemma_address_bytes_injective`).
pub open spec fn text_address(text: Seq<u8>) -> Address {
    choose|a: Address| Some(address_bytes(a)) == address_text_bytes(text)
}

/// Why the text `text` is no address hex (see [`deserialize`]).
pub open spec fn address_text_error(text: Seq<u8>) -> Seq<char> {
    if text.len() % 2 != 0 {
        "odd number of hexadecimal digits"@
    } else if !splits_into_pairs(text) {
        "address hex is not ASCII"@
    } else if !hex_pairs_valid(text) {
        "invalid digit found in string"@
    } else {
        "invalid address length "@ + decimal(hex_pairs(text).len())
            + ": expected 20 (Eth) or 33 (Casper)"@
    }
}

/// Reading back the hexadecimal text of an address gives the address:
/// [`deserialize`] undoes [`serialize`].
pub proof fn law_address_hex_round_trip(a: Address)
    ensures
        address_text_bytes(encode_utf8(hex_encoding(address_bytes(a)))) == Some(address_bytes(a)),
{
    let b = address_bytes(a);
    lemma_hex_ascii(b);
    lemma_hex_round_trip(b);
    let e = encode_utf8(hex_encoding(b));
    assert(e == ascii_bytes(hex_encoding(b)));
    assert forall|i: int| 0 <= i < e.len() / 2 implies !is_continuation(#[trigger] e[2 * i]) by {
        assert(hex_value(e[2 * i]) is Some);
    }
    assert forall|i: int| 0 <= i < e.len() / 2 implies (#[trigger] hex_pair_value(
        e[2 * i],
        e[2 * i + 1],
    )) == Some((hex_value(e[2 * i])->0 * 16 + hex_value(e[2 * i + 1])->0) as u8) by {
        assert(hex_value(e[2 * i]) is Some);
        assert(hex_value(e[2 * i + 1]) is Some);
    }
    assert(hex_pairs(e) =~= hex_decoding(e));
}

fn digit_value(c: u8) -> (r: Option<u8>)
    ensures
        r == hex_value(c),
{
    if 48 <= c && c <= 57 {
        Some(c - 48)
    } else if 65 <= c && c <= 70 {
        Some(c - 55)
    } else if 97 <= c && c <= 102 {
        Some(c - 87)
    } else {
        None
    }
}

fn pair_value(c0: u8, c1: u8) -> (r: Option<u8>)
    ensures
        r == hex_pair_value(c0, c1),
{
    if c0 == 43 {
        digit_value(c1)
    } else {
        match (digit_value(c0), digit_value(c1)) {
            (Some(h), Some(l)) => Some(h * 16 + l),
            _ => None,
        }
    }
}

} // verus!
