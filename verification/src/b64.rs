//! Base64 (standard alphabet, with padding) for the payment headers, through `base64`.
use vstd::prelude::*;
use vstd::string::*;
use crate::text::{ascii_bytes, lemma_ascii_utf8};
use vstd::utf8::{char_u32_cast, encode_utf8, is_ascii_chars};
use vstd::arithmetic::div_mod::lemma_fundamental_div_mod;
use base64::Engine;

verus! {

/// The standard base64 alphabet.
pub open spec fn base64_alphabet() -> Seq<char> {
    seq![
        'A', 'B', 'C', 'D', 'E', 'F', 'G', 'H', 'I', 'J', 'K', 'L', 'M', 'N', 'O', 'P', 'Q', 'R',
        'S', 'T', 'U', 'V', 'W', 'X', 'Y', 'Z', 'a', 'b', 'c', 'd', 'e', 'f', 'g', 'h', 'i', 'j',
        'k', 'l', 'm', 'n', 'o', 'p', 'q', 'r', 's', 't', 'u', 'v', 'w', 'x', 'y', 'z', '0', '1',
        '2', '3', '4', '5', '6', '7', '8', '9', '+', '/'
    ]
}

/// The standard padded base64 encoding of `d`: every three bytes become four characters, a
/// final group of one or two bytes is padded with `=`.
pub open spec fn base64_encoding(d: Seq<u8>) -> Seq<char>
    decreases d.len(),
{
    let a = base64_alphabet();
    let b0 = d[0] as int;
    let b1 = d[1] as int;
    let b2 = d[2] as int;
    if d.len() == 0 {
        Seq::empty()
    } else if d.len() == 1 {
        seq![a[b0 / 4], a[(b0 % 4) * 16], '=', '=']
    } else if d.len() == 2 {
        seq![a[b0 / 4], a[(b0 % 4) * 16 + b1 / 16], a[(b1 % 16) * 4], '=']
    } else {
        seq![a[b0 / 4], a[(b0 % 4) * 16 + b1 / 16], a[(b1 % 16) * 4 + b2 / 64], a[b2 % 64]]
            + base64_encoding(d.skip(3))
    }
}

/// The position of `c` in the base64 alphabet.
pub open spec fn sextet_value(c: char) -> int {
    if 'A' <= c <= 'Z' {
        c as int - 65
    } else if 'a' <= c <= 'z' {
        c as int - 71
    } else if '0' <= c <= '9' {
        c as int + 4
    } else if c == '+' {
        62
    } else {
        63
    }
}

proof fn lemma_alphabet(k: int)
    requires
        0 <= k < 64,
    ensures
        sextet_value(base64_alphabet()[k]) == k,
        (base64_alphabet()[k] as u32) < 128,
        base64_alphabet()[k] != '=',
{
}

/// Calls `base64::engine::general_purpose::STANDARD.encode`. Claimed: the result is the
/// padded standard encoding [`base64_encoding`].
#[verifier::external_body]
fn standard_encode(data: &[u8]) -> (r: String)
    ensures
        r@ == base64_encoding(data@),
{
    base64::engine::general_purpose::STANDARD.encode(data)
}

/// Calls `base64::engine::general_purpose::STANDARD.decode`. Claimed: with canonical padding
/// required and trailing bits refused, the input is accepted exactly when it is the encoding
/// of some bytes, and the result is such bytes (`None` stands for the crate's error).
#[verifier::external_body]
fn standard_decode(text: &[u8]) -> (r: Option<Vec<u8>>)
    ensures
        r matches Some(d) ==> ascii_bytes(base64_encoding(d@)) == text@,
        r is None ==> forall|d: Seq<u8>| ascii_bytes(#[trigger] base64_encoding(d)) != text@,
{
    base64::engine::general_purpose::STANDARD.decode(text).ok()
}

/// The base64 text of `json`'s UTF-8 bytes, as sent in a payment header.
pub fn encode_header(json: &str) -> (r: String)
    ensures
        r@ == base64_encoding(json.spec_bytes()),
        is_ascii_chars(r@),
        encode_utf8(r@) == ascii_bytes(base64_encoding(json.spec_bytes())),
{
    let r = standard_encode(json.as_bytes());
    proof {
        lemma_encoding_shape(json.spec_bytes());
        lemma_ascii_utf8(r@);
    }
    r
}

/// The bytes carried by a base64 header value.
pub fn decode_header(header: &[u8]) -> (r: Result<Vec<u8>, String>)
    ensures
        r matches Ok(d) ==> ascii_bytes(base64_encoding(d@)) == header@,
        r is Err ==> forall|d: Seq<u8>| ascii_bytes(#[trigger] base64_encoding(d)) != header@,
        r matches Err(e) ==> e@ == "Cannot base64-decode header"@,
{
    match standard_decode(header) {
        Some(d) => Ok(d),
        None => Err(String::from_str("Cannot base64-decode header")),
    }
}

/// Base64 text is ASCII; it is empty exactly for empty input, else at least four characters
/// long, with padding in its third and fourth places exactly for one and two input bytes.
pub proof fn lemma_encoding_shape(d: Seq<u8>)
    ensures
        is_ascii_chars(base64_encoding(d)),
        d.len() == 0 <==> base64_encoding(d).len() == 0,
        d.len() > 0 ==> base64_encoding(d).len() >= 4,
        d.len() > 0 ==> (base64_encoding(d)[2] == '=' <==> d.len() == 1),
        d.len() > 0 ==> (base64_encoding(d)[3] == '=' <==> d.len() <= 2),
    decreases d.len(),
{
    let e = base64_encoding(d);
    let b0 = d[0] as int;
    let b1 = d[1] as int;
    let b2 = d[2] as int;
    if d.len() == 0 {
    } else {
        lemma_alphabet(b0 / 4);
        if d.len() == 1 {
            lemma_alphabet((b0 % 4) * 16);
        } else if d.len() == 2 {
            lemma_alphabet((b0 % 4) * 16 + b1 / 16);
            lemma_alphabet((b1 % 16) * 4);
        } else {
            lemma_alphabet((b0 % 4) * 16 + b1 / 16);
            lemma_alphabet((b1 % 16) * 4 + b2 / 64);
            lemma_alphabet(b2 % 64);
            lemma_encoding_shape(d.skip(3));
        }
        assert forall|i: int| 0 <= i < e.len() implies '\0' <= #[trigger] e[i] <= '\u{7f}' by {
            if d.len() >= 3 && i >= 4 {
                assert(e[i] == base64_encoding(d.skip(3))[i - 4]);
            }
        }
    }
}

proof fn lemma_ascii_bytes_injective(x: Seq<char>, y: Seq<char>)
    requires
        is_ascii_chars(x),
        is_ascii_chars(y),
        ascii_bytes(x) == ascii_bytes(y),
    ensures
        x == y,
{
    assert(x.len() == ascii_bytes(x).len());
    assert(y.len() == ascii_bytes(y).len());
    assert forall|i: int| 0 <= i < x.len() implies x[i] == y[i] by {
        assert(ascii_bytes(x)[i] == x[i] as u8);
        assert(ascii_bytes(y)[i] == y[i] as u8);
        let a = x[i] as u32;
        let b = y[i] as u32;
        assert(a < 128 && b < 128);
        assert(x[i] as u8 == a as u8 && y[i] as u8 == b as u8);
        assert(a as u8 == b as u8 && a < 128 && b < 128 ==> a == b) by (bit_vector);
        char_u32_cast(x[i], a);
        char_u32_cast(y[i], b);
    }
    assert(x =~= y);
}

proof fn lemma_head(d: Seq<u8>)
    requires
        d.len() > 0,
    ensures
        sextet_value(base64_encoding(d)[0]) == d[0] / 4,
        d.len() == 1 ==> sextet_value(base64_encoding(d)[1]) == (d[0] % 4) * 16,
        d.len() >= 2 ==> sextet_value(base64_encoding(d)[1]) == (d[0] % 4) * 16 + d[1] / 16,
        d.len() == 2 ==> sextet_value(base64_encoding(d)[2]) == (d[1] % 16) * 4,
        d.len() >= 3 ==> sextet_value(base64_encoding(d)[2]) == (d[1] % 16) * 4 + d[2] / 64,
        d.len() >= 3 ==> sextet_value(base64_encoding(d)[3]) == d[2] % 64,
        d.len() >= 3 ==> base64_encoding(d).skip(4) == base64_encoding(d.skip(3)),
{
    let b0 = d[0] as int;
    let b1 = d[1] as int;
    let b2 = d[2] as int;
    lemma_alphabet(b0 / 4);
    if d.len() == 1 {
        lemma_alphabet((b0 % 4) * 16);
    } else if d.len() == 2 {
        lemma_alphabet((b0 % 4) * 16 + b1 / 16);
        lemma_alphabet((b1 % 16) * 4);
    } else {
        lemma_alphabet((b0 % 4) * 16 + b1 / 16);
        lemma_alphabet((b1 % 16) * 4 + b2 / 64);
        lemma_alphabet(b2 % 64);
        assert(base64_encoding(d).skip(4) =~= base64_encoding(d.skip(3)));
    }
}

proof fn lemma_place_values(a: int, b: int, c: int, d: int, m: int)
    by (nonlinear_arith)
    requires
        m > 0,
        0 <= b < m,
        0 <= d < m,
        a * m + b == c * m + d,
    ensures
        a == c,
        b == d,
{
}

proof fn lemma_div_mod_unique(x: int, y: int, m: int)
    requires
        m > 0,
        x / m == y / m,
        x % m == y % m,
    ensures
        x == y,
{
    lemma_fundamental_div_mod(x, m);
    lemma_fundamental_div_mod(y, m);
}

proof fn lemma_encoding_injective(d1: Seq<u8>, d2: Seq<u8>)
    requires
        base64_encoding(d1) == base64_encoding(d2),
    ensures
        d1 == d2,
    decreases d1.len(),
{
    lemma_encoding_shape(d1);
    lemma_encoding_shape(d2);
    if d1.len() == 0 {
        assert(d1 =~= d2);
    } else {
        lemma_head(d1);
        lemma_head(d2);
        let x0 = d1[0] as int;
        let x1 = d1[1] as int;
        let x2 = d1[2] as int;
        let y0 = d2[0] as int;
        let y1 = d2[1] as int;
        let y2 = d2[2] as int;
        if d1.len() == 1 {
            lemma_place_values(x0 % 4, 0, y0 % 4, 0, 16);
            lemma_div_mod_unique(x0, y0, 4);
            assert(d1 =~= d2);
        } else {
            lemma_place_values(x0 % 4, x1 / 16, y0 % 4, y1 / 16, 16);
            lemma_div_mod_unique(x0, y0, 4);
            if d1.len() == 2 {
                lemma_place_values(x1 % 16, 0, y1 % 16, 0, 4);
                lemma_div_mod_unique(x1, y1, 16);
                assert(d1 =~= d2);
            } else {
                lemma_place_values(x1 % 16, x2 / 64, y1 % 16, y2 / 64, 4);
                lemma_div_mod_unique(x1, y1, 16);
                lemma_div_mod_unique(x2, y2, 64);
                lemma_encoding_injective(d1.skip(3), d2.skip(3));
                assert(d1 =~= seq![d1[0], d1[1], d1[2]] + d1.skip(3));
                assert(d2 =~= seq![d2[0], d2[1], d2[2]] + d2.skip(3));
            }
        }
    }
}

/// Reading back a payment header gives exactly the bytes written into it: two byte strings
/// with the same base64 header text are equal, so [`decode_header`] undoes [`encode_header`]
/// (and it never refuses the text of an encoding).
pub proof fn law_header_round_trip(written: Seq<u8>, read: Seq<u8>)
    requires
        ascii_bytes(base64_encoding(read)) == ascii_bytes(base64_encoding(written)),
    ensures
        read == written,
{
    lemma_encoding_shape(read);
    lemma_encoding_shape(written);
    lemma_ascii_bytes_injective(base64_encoding(read), base64_encoding(written));
    lemma_encoding_injective(read, written);
}

} // verus!
