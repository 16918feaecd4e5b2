//! Text encodings: lowercase hexadecimal (through the `hex` crate) and decimal numbers.
use vstd::prelude::*;
use vstd::string::*;
use vstd::utf8::{encode_utf8, is_ascii_chars, is_ascii_chars_encode_utf8};

verus! {

/// The sixteen lowercase hexadecimal digits.
pub open spec fn hex_digits() -> Seq<char> {
    seq!['0', '1', '2', '3', '4', '5', '6', '7', '8', '9', 'a', 'b', 'c', 'd', 'e', 'f']
}

/// The lowercase hexadecimal encoding of `b`: two digits per byte, high nibble first.
pub open spec fn hex_encoding(b: Seq<u8>) -> Seq<char> {
    Seq::new(
        2 * b.len(),
        |i: int|
            if i % 2 == 0 {
                hex_digits()[(b[i / 2] / 16) as int]
            } else {
                hex_digits()[(b[i / 2] % 16) as int]
            },
    )
}

/// The value of an ASCII hexadecimal digit (either case).
pub open spec fn hex_value(c: u8) -> Option<u8> {
    if 48 <= c <= 57 {
        Some((c - 48) as u8)
    } else if 65 <= c <= 70 {
        Some((c - 55) as u8)
    } else if 97 <= c <= 102 {
        Some((c - 87) as u8)
    } else {
        None
    }
}

/// Whether `s` is an even number of hexadecimal digits.
pub open spec fn is_hex(s: Seq<u8>) -> bool {
    s.len() % 2 == 0 && forall|i: int| 0 <= i < s.len() ==> (#[trigger] hex_value(s[i])) is Some
}

/// The bytes that the hexadecimal digits `s` stand for.
pub open spec fn hex_decoding(s: Seq<u8>) -> Seq<u8> {
    Seq::new(
        s.len() / 2,
        |i: int| (hex_value(s[2 * i])->0 * 16 + hex_value(s[2 * i + 1])->0) as u8,
    )
}

/// Calls `hex::encode`. Claimed: the result is the lowercase encoding [`hex_encoding`].
#[verifier::external_body]
fn hex_encode_bytes(data: &[u8]) -> (r: String)
    ensures
        r@ == hex_encoding(data@),
{
    hex::encode(data)
}

/// The text (`Display` form) of the error that `hex::decode` reports for `data`.
pub uninterp spec fn hex_decode_error(data: Seq<u8>) -> Seq<char>;

/// Calls `hex::decode`. Claimed: it succeeds exactly on [`is_hex`] input, with
/// [`hex_decoding`]; otherwise the text of its error is the named [`hex_decode_error`] of the
/// input.
#[verifier::external_body]
pub(crate) fn hex_decode_bytes(data: &[u8]) -> (r: Result<Vec<u8>, String>)
    ensures
        r is Ok <==> is_hex(data@),
        r matches Ok(v) ==> v@ == hex_decoding(data@),
        r matches Err(e) ==> e@ == hex_decode_error(data@),
{
    hex::decode(data).map_err(|e| format!("{}", e))
}

/// Lowercase hexadecimal encoding of `data`.
pub fn hex_encode(data: &[u8]) -> (r: String)
    ensures
        r@ == hex_encoding(data@),
        r@.len() == 2 * data@.len(),
{
    hex_encode_bytes(data)
}

/// Decodes hexadecimal text (either case); `Err` holds the description of the first problem.
pub fn hex_decode(text: &str) -> (r: Result<Vec<u8>, String>)
    ensures
        r is Ok <==> is_hex(text.spec_bytes()),
        r matches Ok(v) ==> v@ == hex_decoding(text.spec_bytes()),
        r matches Err(e) ==> e@ == hex_decode_error(text.spec_bytes()),
{
    hex_decode_bytes(text.as_bytes())
}

/// Decoding an encoding gives back the bytes.
pub proof fn lemma_hex_round_trip(b: Seq<u8>)
    ensures
        is_hex(ascii_bytes(hex_encoding(b))),
        hex_decoding(ascii_bytes(hex_encoding(b))) == b,
{
    let e = ascii_bytes(hex_encoding(b));
    assert forall|i: int| 0 <= i < e.len() implies (#[trigger] hex_value(e[i])) is Some by {
        let byte = b[i / 2];
        assert(byte / 16 < 16 && byte % 16 < 16);
    }
    assert forall|i: int| 0 <= i < b.len() implies #[trigger] hex_decoding(e)[i] == b[i] by {
        let byte = b[i];
        assert((2 * i) / 2 == i);
        assert((2 * i + 1) / 2 == i);
        assert((2 * i) % 2 == 0);
        assert((2 * i + 1) % 2 == 1);
        assert(byte == (byte / 16) * 16 + byte % 16);
    }
    assert(hex_decoding(e) =~= b);
}

/// The byte values of a sequence of ASCII characters.
pub open spec fn ascii_bytes(s: Seq<char>) -> Seq<u8> {
    Seq::new(s.len(), |i: int| s[i] as u8)
}

/// The UTF-8 bytes of ASCII characters are their values.
pub proof fn lemma_ascii_utf8(s: Seq<char>)
    requires
        is_ascii_chars(s),
    ensures
        encode_utf8(s) == ascii_bytes(s),
{
    is_ascii_chars_encode_utf8(s);
    assert(encode_utf8(s) =~= ascii_bytes(s));
}

/// Hexadecimal text is ASCII, so its UTF-8 bytes are its characters.
pub proof fn lemma_hex_ascii(b: Seq<u8>)
    ensures
        is_ascii_chars(hex_encoding(b)),
        encode_utf8(hex_encoding(b)) == ascii_bytes(hex_encoding(b)),
{
    let e = hex_encoding(b);
    assert forall|i: int| 0 <= i < e.len() implies '\0' <= #[trigger] e[i] <= '\u{7f}' by {
        let byte = b[i / 2];
        assert(byte / 16 < 16 && byte % 16 < 16);
    }
    lemma_ascii_utf8(e);
}

/// Whether `b` is an ASCII decimal digit.
pub open spec fn is_digit(b: u8) -> bool {
    48 <= b <= 57
}

/// Whether every byte of `s` is a decimal digit.
pub open spec fn all_digits(s: Seq<u8>) -> bool {
    forall|i: int| 0 <= i < s.len() ==> is_digit(#[trigger] s[i])
}

/// The number written by the decimal digits `s`.
pub open spec fn digits_value(s: Seq<u8>) -> nat
    decreases s.len(),
{
    if s.len() == 0 {
        0
    } else {
        (digits_value(s.drop_last()) * 10 + (s.last() - 48)) as nat
    }
}

/// `s` without one leading `+`.
pub open spec fn unsigned_digits(s: Seq<u8>) -> Seq<u8> {
    if s.len() > 0 && s[0] == 43 {
        s.drop_first()
    } else {
        s
    }
}

/// The value of an unsigned integer literal as Rust's `from_str` reads it: an optional `+`
/// and one or more decimal digits; `None` when malformed or above `max`.
pub open spec fn parse_unsigned(s: Seq<u8>, max: nat) -> Option<nat> {
    let d = unsigned_digits(s);
    if d.len() > 0 && all_digits(d) && digits_value(d) <= max {
        Some(digits_value(d))
    } else {
        None
    }
}

proof fn lemma_digits_value_prefix(s: Seq<u8>, k: int)
    requires
        0 <= k <= s.len(),
        forall|i: int| 0 <= i < s.len() ==> is_digit(#[trigger] s[i]),
    ensures
        digits_value(s.take(k)) <= digits_value(s),
    decreases s.len() - k,
{
    if k < s.len() {
        lemma_digits_value_prefix(s, k + 1);
        assert(s.take(k + 1).drop_last() =~= s.take(k));
    } else {
        assert(s.take(k) =~= s);
    }
}

/// Reads an unsigned decimal number (see [`parse_unsigned`]) no larger than `u64::MAX`.
pub fn parse_u64(s: &str) -> (r: Option<u64>)
    ensures
        r matches Some(v) ==> parse_unsigned(s.spec_bytes(), u64::MAX as nat) == Some(v as nat),
        r is None ==> parse_unsigned(s.spec_bytes(), u64::MAX as nat) is None,
{
    let bytes = s.as_bytes();
    let ghost d = unsigned_digits(bytes@);
    let start: usize = if bytes.len() > 0 && bytes[0] == 43 {
        1
    } else {
        0
    };
    assert(d =~= bytes@.subrange(start as int, bytes@.len() as int));
    if start >= bytes.len() {
        return None;
    }
    let mut i: usize = start;
    while i < bytes.len()
        invariant
            start <= i <= bytes@.len(),
            d == bytes@.subrange(start as int, bytes@.len() as int),
            d == unsigned_digits(s.spec_bytes()),
            forall|k: int| 0 <= k < i - start ==> is_digit(#[trigger] d[k]),
        decreases bytes@.len() - i,
    {
        if bytes[i] < 48 || bytes[i] > 57 {
            assert(!is_digit(d[i - start]));
            assert(!all_digits(d));
            return None;
        }
        i = i + 1;
    }
    assert(all_digits(d));
    let mut acc: u64 = 0;
    let mut j: usize = start;
    while j < bytes.len()
        invariant
            start <= j <= bytes@.len(),
            d == bytes@.subrange(start as int, bytes@.len() as int),
            d == unsigned_digits(s.spec_bytes()),
            all_digits(d),
            acc == digits_value(d.take(j - start)),
        decreases bytes@.len() - j,
    {
        assert(d.take(j - start + 1).drop_last() =~= d.take(j - start));
        assert(d.take(j - start + 1).last() == bytes@[j as int]);
        let digit: u64 = (bytes[j] - 48) as u64;
        if acc > 1844674407370955161 || (acc == 1844674407370955161 && digit > 5) {
            proof {
                lemma_digits_value_prefix(d, j - start + 1);
                assert(digits_value(d.take(j - start + 1)) == acc * 10 + digit);
                assert(digits_value(d) > u64::MAX);
            }
            return None;
        }
        acc = acc * 10 + digit;
        j = j + 1;
    }
    assert(d.take(d.len() as int) =~= d);
    Some(acc)
}

/// Reads an unsigned decimal number (see [`parse_unsigned`]) no larger than `u16::MAX`.
pub fn parse_u16(s: &str) -> (r: Option<u16>)
    ensures
        r matches Some(v) ==> parse_unsigned(s.spec_bytes(), u16::MAX as nat) == Some(v as nat),
        r is None ==> parse_unsigned(s.spec_bytes(), u16::MAX as nat) is None,
{
    match parse_u64(s) {
        Some(v) => if v <= 65535 {
            Some(v as u16)
        } else {
            None
        },
        None => None,
    }
}

/// The decimal digits of `n`, most significant first, without leading zeros.
pub open spec fn decimal(n: nat) -> Seq<char>
    decreases n,
{
    if n < 10 {
        seq![hex_digits()[n as int]]
    } else {
        decimal(n / 10).push(hex_digits()[(n % 10) as int])
    }
}

/// The one-character string of hexadecimal digit `d`.
pub fn digit_str(d: u64) -> (r: &'static str)
    requires
        d < 16,
    ensures
        r@ == seq![hex_digits()[d as int]],
{
    let table = "0123456789abcdef";
    proof {
        reveal_strlit("0123456789abcdef");
        assert(table@ =~= hex_digits());
    }
    table.substring_char(d as usize, (d + 1) as usize)
}

/// Appends the decimal digits of `n`.
pub fn push_decimal(out: &mut String, n: u64)
    ensures
        final(out)@ == old(out)@ + decimal(n as nat),
    decreases n,
{
    if n >= 10 {
        push_decimal(out, n / 10);
    }
    out.append(digit_str(n % 10));
    proof {
        if n >= 10 {
            assert(out@ =~= old(out)@ + decimal(n as nat));
        } else {
            assert(out@ =~= old(out)@ + decimal(n as nat));
        }
    }
}

/// The decimal digits of `n`, like `n.to_string()`.
pub fn decimal_string(n: u64) -> (r: String)
    ensures
        r@ == decimal(n as nat),
{
    let mut s = String::new();
    push_decimal(&mut s, n);
    assert(s@ =~= decimal(n as nat));
    s
}

/// The concatenation `a ++ b` as a new string.
pub fn concat(a: &str, b: &str) -> (r: String)
    ensures
        r@ == a@ + b@,
{
    let mut s = String::from_str(a);
    s.append(b);
    s
}

/// Decimal text is ASCII digits, so its UTF-8 bytes are its characters.
proof fn lemma_decimal_digits(n: nat)
    ensures
        is_ascii_chars(decimal(n)),
        all_digits(ascii_bytes(decimal(n))),
        ascii_bytes(decimal(n)).len() > 0,
        digits_value(ascii_bytes(decimal(n))) == n,
    decreases n,
{
    let d = decimal(n);
    let a = ascii_bytes(d);
    if n < 10 {
        assert(a.drop_last().len() == 0);
        assert(digits_value(a.drop_last()) == 0);
        assert(a.last() == 48 + n);
    } else {
        lemma_decimal_digits(n / 10);
        let p = decimal(n / 10);
        assert(a.drop_last() =~= ascii_bytes(p));
        assert(a.last() == 48 + n % 10);
        assert(n == (n / 10) * 10 + n % 10);
        assert forall|i: int| 0 <= i < a.len() implies is_digit(#[trigger] a[i]) by {
            if i < p.len() {
                assert(a[i] == ascii_bytes(p)[i]);
            }
        }
    }
}

/// Reading back the decimal text of a number gives the number: [`parse_u64`] undoes
/// [`decimal_string`] (and [`parse_u16`] does on numbers up to `u16::MAX`).
pub proof fn law_decimal_round_trip(n: nat, max: nat)
    requires
        n <= max,
    ensures
        parse_unsigned(encode_utf8(decimal(n)), max) == Some(n),
{
    lemma_decimal_digits(n);
    lemma_ascii_utf8(decimal(n));
    let a = ascii_bytes(decimal(n));
    assert(is_digit(a[0]));
    assert(unsigned_digits(a) == a);
}

} // verus!
