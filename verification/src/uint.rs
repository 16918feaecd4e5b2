//! Fixed-width byte encodings of naturals and a 256-bit unsigned integer
//! (four little-endian 64-bit words, the layout used by Casper's `U256`).
use vstd::prelude::*;
use vstd::arithmetic::div_mod::{
    lemma_div_denominator, lemma_div_multiples_vanish_fancy, lemma_fundamental_div_mod,
    lemma_mod_multiples_vanish,
};

verus! {

/// `256^n`.
pub open spec fn pow256(n: nat) -> nat
    decreases n,
{
    if n == 0 {
        1
    } else {
        256 * pow256((n - 1) as nat)
    }
}

/// The `n` low-order bytes of `v`, least significant first.
pub open spec fn le_bytes(v: nat, n: nat) -> Seq<u8>
    decreases n,
{
    if n == 0 {
        Seq::empty()
    } else {
        seq![(v % 256) as u8] + le_bytes(v / 256, (n - 1) as nat)
    }
}

/// The `n` low-order bytes of `v`, most significant first.
pub open spec fn be_bytes(v: nat, n: nat) -> Seq<u8>
    decreases n,
{
    if n == 0 {
        Seq::empty()
    } else {
        be_bytes(v / 256, (n - 1) as nat).push((v % 256) as u8)
    }
}

/// The natural number whose big-endian encoding is `s`.
pub open spec fn be_value(s: Seq<u8>) -> nat
    decreases s.len(),
{
    if s.len() == 0 {
        0
    } else {
        (be_value(s.drop_last()) * 256 + s.last()) as nat
    }
}

/// The natural number whose little-endian encoding is `s`.
pub open spec fn le_value(s: Seq<u8>) -> nat
    decreases s.len(),
{
    if s.len() == 0 {
        0
    } else {
        (s[0] + 256 * le_value(s.drop_first())) as nat
    }
}

/// `n` zero bytes.
pub open spec fn zeros(n: nat) -> Seq<u8> {
    Seq::new(n, |i: int| 0u8)
}

pub proof fn lemma_pow256_pos(n: nat)
    ensures
        pow256(n) > 0,
    decreases n,
{
    if n > 0 {
        lemma_pow256_pos((n - 1) as nat);
    }
}

pub proof fn lemma_pow256_8()
    ensures
        pow256(8) == 0x1_0000_0000_0000_0000,
{
    reveal_with_fuel(pow256, 9);
}

pub proof fn lemma_le_bytes_len(v: nat, n: nat)
    ensures
        le_bytes(v, n).len() == n,
    decreases n,
{
    if n > 0 {
        lemma_le_bytes_len(v / 256, (n - 1) as nat);
    }
}

pub proof fn lemma_be_bytes_len(v: nat, n: nat)
    ensures
        be_bytes(v, n).len() == n,
    decreases n,
{
    if n > 0 {
        lemma_be_bytes_len(v / 256, (n - 1) as nat);
    }
}

/// Splitting an encoding: the first `n` bytes encode `v`, the next `m` encode `v / 256^n`.
pub proof fn lemma_le_bytes_split(v: nat, n: nat, m: nat)
    ensures
        le_bytes(v, n + m) == le_bytes(v, n) + le_bytes(v / pow256(n), m),
    decreases n,
{
    if n == 0 {
        assert(pow256(0) == 1);
        assert(v / 1 == v);
        assert(le_bytes(v, 0) + le_bytes(v / pow256(0), m) =~= le_bytes(v, m));
    } else {
        let n1 = (n - 1) as nat;
        lemma_le_bytes_split(v / 256, n1, m);
        lemma_pow256_pos(n1);
        lemma_div_denominator(v as int, 256, pow256(n1) as int);
        assert(n1 + m + 1 == n + m);
        assert(le_bytes(v, n + m) == seq![(v % 256) as u8] + le_bytes(v / 256, (n1 + m) as nat));
        assert(le_bytes(v, n + m) =~= le_bytes(v, n) + le_bytes(v / pow256(n), m));
    }
}

/// Only the residue modulo `256^n` matters for an `n`-byte encoding.
pub proof fn lemma_le_bytes_low(q: nat, r: nat, n: nat)
    requires
        r < pow256(n),
    ensures
        le_bytes(pow256(n) * q + r, n) == le_bytes(r, n),
    decreases n,
{
    if n > 0 {
        let n1 = (n - 1) as nat;
        let p1 = pow256(n1);
        lemma_pow256_pos(n1);
        let v = pow256(n) * q + r;
        assert(pow256(n) * q == 256 * (p1 * q)) by (nonlinear_arith)
            requires
                pow256(n) == 256 * p1,
        ;
        lemma_mod_multiples_vanish((p1 * q) as int, r as int, 256);
        lemma_fundamental_div_mod(r as int, 256);
        assert(v == 256 * (p1 * q + r / 256) + r % 256);
        lemma_div_multiples_vanish_fancy((p1 * q + r / 256) as int, (r % 256) as int, 256);
        assert(v / 256 == p1 * q + r / 256);
        assert(r / 256 < p1) by (nonlinear_arith)
            requires
                r < 256 * p1,
        ;
        lemma_le_bytes_low(q, r / 256, n1);
    }
}

pub proof fn lemma_be_bytes_split(v: nat, n: nat, m: nat)
    ensures
        be_bytes(v, n + m) == be_bytes(v / pow256(m), n) + be_bytes(v, m),
    decreases m,
{
    if m == 0 {
        assert(pow256(0) == 1);
        assert(v / 1 == v);
        assert(be_bytes(v / pow256(0), n) + be_bytes(v, 0) =~= be_bytes(v, n));
    } else {
        let m1 = (m - 1) as nat;
        lemma_be_bytes_split(v / 256, n, m1);
        lemma_pow256_pos(m1);
        lemma_div_denominator(v as int, 256, pow256(m1) as int);
        assert(n + m1 + 1 == n + m);
        assert(be_bytes(v, n + m) == be_bytes(v / 256, (n + m1) as nat).push((v % 256) as u8));
        assert(be_bytes(v, n + m) =~= be_bytes(v / pow256(m), n) + be_bytes(v, m));
    }
}

/// Byte `i` of the little-endian encoding of `v` is the base-256 digit `i` of `v`.
pub proof fn lemma_le_bytes_index(v: nat, n: nat, i: nat)
    requires
        i < n,
    ensures
        le_bytes(v, n).len() == n,
        le_bytes(v, n)[i as int] == ((v / pow256(i)) % 256) as u8,
    decreases n,
{
    lemma_le_bytes_len(v, n);
    let n1 = (n - 1) as nat;
    assert(le_bytes(v, n) == seq![(v % 256) as u8] + le_bytes(v / 256, n1));
    if i == 0 {
        assert(pow256(0) == 1);
        assert(v / 1 == v);
    } else {
        let i1 = (i - 1) as nat;
        lemma_le_bytes_len(v / 256, n1);
        lemma_le_bytes_index(v / 256, n1, i1);
        lemma_pow256_pos(i1);
        lemma_div_denominator(v as int, 256, pow256(i1) as int);
        assert(pow256(i) == 256 * pow256(i1));
        assert(le_bytes(v, n)[i as int] == le_bytes(v / 256, n1)[i1 as int]);
    }
}

/// Decoding an encoding gives back the encoded value when it fits.
pub proof fn lemma_be_value_be_bytes(v: nat, n: nat)
    requires
        v < pow256(n),
    ensures
        be_value(be_bytes(v, n)) == v,
    decreases n,
{
    if n > 0 {
        let n1 = (n - 1) as nat;
        lemma_pow256_pos(n1);
        assert(v / 256 < pow256(n1)) by (nonlinear_arith)
            requires
                v < 256 * pow256(n1),
        ;
        lemma_be_value_be_bytes(v / 256, n1);
        lemma_be_bytes_len(v / 256, n1);
        let s = be_bytes(v, n);
        assert(s.drop_last() =~= be_bytes(v / 256, n1));
        lemma_fundamental_div_mod(v as int, 256);
    }
}

/// Encoding the value of a big-endian byte sequence gives back the sequence:
/// [`U256::to_be_bytes`] undoes [`U256::from_be_bytes`].
pub proof fn law_be_bytes_round_trip(s: Seq<u8>)
    ensures
        be_bytes(be_value(s), s.len()) == s,
    decreases s.len(),
{
    if s.len() > 0 {
        let d = s.drop_last();
        law_be_bytes_round_trip(d);
        let v = be_value(s);
        lemma_div_multiples_vanish_fancy(be_value(d) as int, s.last() as int, 256);
        lemma_mod_multiples_vanish(be_value(d) as int, s.last() as int, 256);
        assert(v / 256 == be_value(d));
        assert(v % 256 == s.last());
        assert(be_bytes(v, s.len()) =~= s);
    }
}

pub proof fn lemma_le_value_le_bytes(v: nat, n: nat)
    requires
        v < pow256(n),
    ensures
        le_value(le_bytes(v, n)) == v,
    decreases n,
{
    if n > 0 {
        let n1 = (n - 1) as nat;
        lemma_pow256_pos(n1);
        assert(v / 256 < pow256(n1)) by (nonlinear_arith)
            requires
                v < 256 * pow256(n1),
        ;
        lemma_le_value_le_bytes(v / 256, n1);
        let s = le_bytes(v, n);
        assert(s.drop_first() =~= le_bytes(v / 256, n1));
        lemma_fundamental_div_mod(v as int, 256);
    }
}


pub proof fn lemma_be_bytes_low(q: nat, r: nat, n: nat)
    requires
        r < pow256(n),
    ensures
        be_bytes(pow256(n) * q + r, n) == be_bytes(r, n),
    decreases n,
{
    if n > 0 {
        let n1 = (n - 1) as nat;
        let p1 = pow256(n1);
        lemma_pow256_pos(n1);
        let v = pow256(n) * q + r;
        assert(pow256(n) * q == 256 * (p1 * q)) by (nonlinear_arith)
            requires
                pow256(n) == 256 * p1,
        ;
        lemma_mod_multiples_vanish((p1 * q) as int, r as int, 256);
        lemma_fundamental_div_mod(r as int, 256);
        assert(v == 256 * (p1 * q + r / 256) + r % 256);
        lemma_div_multiples_vanish_fancy((p1 * q + r / 256) as int, (r % 256) as int, 256);
        assert(v / 256 == p1 * q + r / 256);
        assert(r / 256 < p1) by (nonlinear_arith)
            requires
                r < 256 * p1,
        ;
        lemma_be_bytes_low(q, r / 256, n1);
    }
}

/// Peeling the low word off a little-endian encoding.
pub proof fn lemma_le_bytes_word(w: u64, q: nat, m: nat)
    ensures
        le_bytes((w + 0x1_0000_0000_0000_0000 * q) as nat, 8 + m) == le_bytes(w as nat, 8)
            + le_bytes(q, m),
{
    let v = (w + 0x1_0000_0000_0000_0000 * q) as nat;
    lemma_pow256_8();
    lemma_le_bytes_split(v, 8, m);
    lemma_div_multiples_vanish_fancy(q as int, w as int, 0x1_0000_0000_0000_0000);
    lemma_le_bytes_low(q, w as nat, 8);
}

/// Peeling the low word off a big-endian encoding.
pub proof fn lemma_be_bytes_word(w: u64, q: nat, m: nat)
    ensures
        be_bytes((w + 0x1_0000_0000_0000_0000 * q) as nat, m + 8) == be_bytes(q, m) + be_bytes(
            w as nat,
            8,
        ),
{
    let v = (w + 0x1_0000_0000_0000_0000 * q) as nat;
    lemma_pow256_8();
    lemma_be_bytes_split(v, m, 8);
    lemma_div_multiples_vanish_fancy(q as int, w as int, 0x1_0000_0000_0000_0000);
    lemma_be_bytes_low(q, w as nat, 8);
}

pub proof fn lemma_u256_le_words(a: U256)
    ensures
        le_bytes(a@, 32) == le_bytes(a.w0 as nat, 8) + le_bytes(a.w1 as nat, 8) + le_bytes(
            a.w2 as nat,
            8,
        ) + le_bytes(a.w3 as nat, 8),
{
    let q2 = (a.w2 + 0x1_0000_0000_0000_0000 * a.w3) as nat;
    let q1 = (a.w1 + 0x1_0000_0000_0000_0000 * q2) as nat;
    lemma_le_bytes_word(a.w0, q1, 24);
    lemma_le_bytes_word(a.w1, q2, 16);
    lemma_le_bytes_word(a.w2, a.w3 as nat, 8);
    assert(le_bytes(a@, 32) =~= le_bytes(a.w0 as nat, 8) + le_bytes(a.w1 as nat, 8) + le_bytes(
        a.w2 as nat,
        8,
    ) + le_bytes(a.w3 as nat, 8));
}

pub proof fn lemma_u256_be_words(a: U256)
    ensures
        be_bytes(a@, 32) == be_bytes(a.w3 as nat, 8) + be_bytes(a.w2 as nat, 8) + be_bytes(
            a.w1 as nat,
            8,
        ) + be_bytes(a.w0 as nat, 8),
{
    let q2 = (a.w2 + 0x1_0000_0000_0000_0000 * a.w3) as nat;
    let q1 = (a.w1 + 0x1_0000_0000_0000_0000 * q2) as nat;
    lemma_be_bytes_word(a.w0, q1, 24);
    lemma_be_bytes_word(a.w1, q2, 16);
    lemma_be_bytes_word(a.w2, a.w3 as nat, 8);
    assert(be_bytes(a@, 32) =~= be_bytes(a.w3 as nat, 8) + be_bytes(a.w2 as nat, 8) + be_bytes(
        a.w1 as nat,
        8,
    ) + be_bytes(a.w0 as nat, 8));
}

pub proof fn lemma_be_value_concat(s1: Seq<u8>, s2: Seq<u8>)
    ensures
        be_value(s1 + s2) == be_value(s1) * pow256(s2.len()) + be_value(s2),
    decreases s2.len(),
{
    if s2.len() == 0 {
        assert(s1 + s2 =~= s1);
        assert(pow256(0) == 1);
        assert(be_value(s1) * 1 == be_value(s1));
    } else {
        let s2p = s2.drop_last();
        lemma_be_value_concat(s1, s2p);
        assert((s1 + s2).drop_last() =~= s1 + s2p);
        let p = pow256(s2p.len());
        assert(pow256(s2.len()) == 256 * p);
        assert((s1 + s2).last() == s2.last());
        assert(be_value(s1 + s2) == be_value((s1 + s2).drop_last()) * 256 + (s1 + s2).last());
        assert(be_value(s2) == be_value(s2p) * 256 + s2.last());
        assert((be_value(s1) * p + be_value(s2p)) * 256 + s2.last() == be_value(s1) * (256 * p)
            + (be_value(s2p) * 256 + s2.last())) by (nonlinear_arith);
    }
}

/// Appends the eight-byte little-endian encoding of `x`.
pub fn push_le_u64(out: &mut Vec<u8>, x: u64)
    ensures
        final(out)@ == old(out)@ + le_bytes(x as nat, 8),
{
    let mut rem: u64 = x;
    let mut j: usize = 0;
    while j < 8
        invariant
            j <= 8,
            old(out)@ + le_bytes(x as nat, 8) == out@ + le_bytes(rem as nat, (8 - j) as nat),
        decreases 8 - j,
    {
        let ghost before = out@;
        assert(le_bytes(rem as nat, (8 - j) as nat) == seq![(rem % 256) as u8] + le_bytes(
            (rem / 256) as nat,
            (8 - j - 1) as nat,
        ));
        out.push((rem % 256) as u8);
        rem = rem / 256;
        j = j + 1;
        assert(old(out)@ + le_bytes(x as nat, 8) =~= out@ + le_bytes(rem as nat, (8 - j) as nat));
    }
    assert(le_bytes(rem as nat, 0) =~= Seq::<u8>::empty());
    assert(old(out)@ + le_bytes(x as nat, 8) =~= out@);
}

/// Appends the eight-byte big-endian encoding of `x`.
pub fn push_be_u64(out: &mut Vec<u8>, x: u64)
    ensures
        final(out)@ == old(out)@ + be_bytes(x as nat, 8),
{
    let mut buf: [u8; 8] = [0u8; 8];
    let mut rem: u64 = x;
    let mut j: usize = 8;
    while j > 0
        invariant
            j <= 8,
            forall|k: int| j <= k < 8 ==> buf@[k] == be_bytes(x as nat, 8)[k],
            be_bytes(x as nat, 8) == be_bytes(rem as nat, j as nat) + buf@.subrange(j as int, 8),
        decreases j,
    {
        proof {
            lemma_be_bytes_len(rem as nat, j as nat);
            lemma_be_bytes_len((rem / 256) as nat, (j - 1) as nat);
        }
        let ghost old_buf = buf@;
        assert(be_bytes(rem as nat, j as nat) == be_bytes((rem / 256) as nat, (j - 1) as nat).push(
            (rem % 256) as u8,
        ));
        buf[j - 1] = (rem % 256) as u8;
        rem = rem / 256;
        j = j - 1;
        assert(buf@.subrange(j as int, 8) =~= seq![buf@[j as int]] + old_buf.subrange(
            (j + 1) as int,
            8,
        ));
        assert(be_bytes(x as nat, 8) =~= be_bytes(rem as nat, j as nat) + buf@.subrange(j as int, 8));
    }
    let mut k: usize = 0;
    while k < 8
        invariant
            k <= 8,
            buf@.len() == 8,
            be_bytes(x as nat, 8) == buf@,
            out@ == old(out)@ + buf@.subrange(0, k as int),
        decreases 8 - k,
    {
        out.push(buf[k]);
        k = k + 1;
        assert(out@ =~= old(out)@ + buf@.subrange(0, k as int));
    }
    assert(buf@.subrange(0, 8) =~= buf@);
}


pub proof fn lemma_pow256_mono(a: nat, b: nat)
    requires
        a <= b,
    ensures
        pow256(a) <= pow256(b),
    decreases b,
{
    if a < b {
        lemma_pow256_mono(a, (b - 1) as nat);
        lemma_pow256_pos((b - 1) as nat);
    }
}

/// Copies a 32-element vector into an array.
pub fn bytes32_from_vec(v: &Vec<u8>) -> (r: [u8; 32])
    requires
        v@.len() == 32,
    ensures
        r@ == v@,
{
    let mut r: [u8; 32] = [0u8; 32];
    let mut i: usize = 0;
    while i < 32
        invariant
            i <= 32,
            v@.len() == 32,
            forall|k: int| 0 <= k < i ==> r@[k] == v@[k],
        decreases 32 - i,
    {
        r[i] = v[i];
        i = i + 1;
    }
    assert(r@ =~= v@);
    r
}

/// The big-endian value of the eight bytes of `b` starting at `start`.
fn be_word(b: &[u8; 32], start: usize) -> (w: u64)
    requires
        start + 8 <= 32,
    ensures
        w == be_value(b@.subrange(start as int, start + 8)),
{
    let mut acc: u64 = 0;
    let mut k: usize = 0;
    while k < 8
        invariant
            k <= 8,
            start + 8 <= 32,
            acc == be_value(b@.subrange(start as int, start + k)),
            acc < pow256(k as nat),
        decreases 8 - k,
    {
        proof {
            lemma_pow256_mono((k + 1) as nat, 8);
            lemma_pow256_8();
            assert(acc * 256 + 255 < pow256((k + 1) as nat)) by (nonlinear_arith)
                requires
                    acc < pow256(k as nat),
                    pow256((k + 1) as nat) == 256 * pow256(k as nat),
            ;
        }
        let byte = b[start + k];
        let ghost prev = b@.subrange(start as int, start + k);
        acc = acc * 256 + byte as u64;
        k = k + 1;
        assert(b@.subrange(start as int, start + k).drop_last() =~= prev);
    }
    acc
}

/// The value of a word sequence: `w[0] + 2^64 * (w[1] + 2^64 * (...))`.
pub open spec fn words_value(w0: u64, w1: u64, w2: u64, w3: u64) -> nat {
    (w0 + 0x1_0000_0000_0000_0000 * (w1 + 0x1_0000_0000_0000_0000 * (w2
        + 0x1_0000_0000_0000_0000 * w3))) as nat
}

/// One more than the largest value a `U256` holds.
pub open spec fn u256_modulus() -> nat {
    pow256(32)
}

/// A 256-bit unsigned integer made of four 64-bit words, least significant first.
#[derive(Clone, Copy, Debug, PartialEq, Eq)]
pub struct U256 {
    pub w0: u64,
    pub w1: u64,
    pub w2: u64,
    pub w3: u64,
}

impl View for U256 {
    type V = nat;

    open spec fn view(&self) -> nat {
        words_value(self.w0, self.w1, self.w2, self.w3)
    }
}

pub proof fn lemma_u256_modulus()
    ensures
        u256_modulus() == 0x1_0000_0000_0000_0000_0000_0000_0000_0000_0000_0000_0000_0000_0000_0000_0000_0000,
{
    reveal_with_fuel(pow256, 33);
}

pub proof fn lemma_u256_bound(a: U256)
    ensures
        a@ < u256_modulus(),
{
    lemma_u256_modulus();
}

/// Reading back the 32-byte big-endian encoding of a `U256` gives its value:
/// [`U256::from_be_bytes`] undoes [`U256::to_be_bytes`].
pub proof fn law_u256_be_round_trip(a: U256)
    ensures
        be_value(be_bytes(a@, 32)) == a@,
{
    lemma_u256_bound(a);
    lemma_be_value_be_bytes(a@, 32);
}

impl U256 {
    /// Zero.
    pub fn zero() -> (r: U256)
        ensures
            r@ == 0,
    {
        U256 { w0: 0, w1: 0, w2: 0, w3: 0 }
    }

    /// The value `x`.
    pub fn from_u64(x: u64) -> (r: U256)
        ensures
            r@ == x,
    {
        U256 { w0: x, w1: 0, w2: 0, w3: 0 }
    }

    /// The largest value, `2^256 - 1`.
    pub fn max_value() -> (r: U256)
        ensures
            r@ == u256_modulus() - 1,
    {
        proof {
            lemma_u256_modulus();
        }
        U256 {
            w0: 0xffff_ffff_ffff_ffff,
            w1: 0xffff_ffff_ffff_ffff,
            w2: 0xffff_ffff_ffff_ffff,
            w3: 0xffff_ffff_ffff_ffff,
        }
    }

    pub fn is_zero(&self) -> (r: bool)
        ensures
            r == (self@ == 0),
    {
        self.w0 == 0 && self.w1 == 0 && self.w2 == 0 && self.w3 == 0
    }

    /// Numeric equality.
    pub fn eq(&self, other: &U256) -> (r: bool)
        ensures
            r == (self@ == other@),
    {
        self.w0 == other.w0 && self.w1 == other.w1 && self.w2 == other.w2 && self.w3 == other.w3
    }

    /// `self < other`.
    pub fn lt(&self, other: &U256) -> (r: bool)
        ensures
            r == (self@ < other@),
    {
        if self.w3 != other.w3 {
            self.w3 < other.w3
        } else if self.w2 != other.w2 {
            self.w2 < other.w2
        } else if self.w1 != other.w1 {
            self.w1 < other.w1
        } else {
            self.w0 < other.w0
        }
    }


    /// Appends the 32-byte little-endian encoding.
    pub fn push_le_bytes(&self, out: &mut Vec<u8>)
        ensures
            final(out)@ == old(out)@ + le_bytes(self@, 32),
    {
        push_le_u64(out, self.w0);
        push_le_u64(out, self.w1);
        push_le_u64(out, self.w2);
        push_le_u64(out, self.w3);
        proof {
            lemma_u256_le_words(*self);
            assert(out@ =~= old(out)@ + le_bytes(self@, 32));
        }
    }

    /// Appends the 32-byte big-endian encoding.
    pub fn push_be_bytes(&self, out: &mut Vec<u8>)
        ensures
            final(out)@ == old(out)@ + be_bytes(self@, 32),
    {
        push_be_u64(out, self.w3);
        push_be_u64(out, self.w2);
        push_be_u64(out, self.w1);
        push_be_u64(out, self.w0);
        proof {
            lemma_u256_be_words(*self);
            assert(out@ =~= old(out)@ + be_bytes(self@, 32));
        }
    }

    /// The 32-byte big-endian encoding.
    pub fn to_be_bytes(&self) -> (r: [u8; 32])
        ensures
            r@ == be_bytes(self@, 32),
    {
        let mut v: Vec<u8> = Vec::new();
        self.push_be_bytes(&mut v);
        proof {
            lemma_be_bytes_len(self@, 32);
        }
        bytes32_from_vec(&v)
    }

    /// The value of a 32-byte big-endian encoding.
    pub fn from_be_bytes(b: &[u8; 32]) -> (r: U256)
        ensures
            r@ == be_value(b@),
    {
        let w3 = be_word(b, 0);
        let w2 = be_word(b, 8);
        let w1 = be_word(b, 16);
        let w0 = be_word(b, 24);
        proof {
            let s0 = b@.subrange(0, 8);
            let s1 = b@.subrange(8, 16);
            let s2 = b@.subrange(16, 24);
            let s3 = b@.subrange(24, 32);
            assert(b@ =~= s0 + s1 + s2 + s3);
            lemma_be_value_concat(s0 + s1 + s2, s3);
            lemma_be_value_concat(s0 + s1, s2);
            lemma_be_value_concat(s0, s1);
            lemma_pow256_8();
        }
        U256 { w0, w1, w2, w3 }
    }

    /// `self + other`, or `None` when the sum does not fit in 256 bits.
    pub fn checked_add(&self, other: &U256) -> (r: Option<U256>)
        ensures
            r matches Some(s) ==> s@ == self@ + other@,
            r is None <==> self@ + other@ >= u256_modulus(),
    {
        proof {
            lemma_u256_modulus();
        }
        let b: u128 = 0x1_0000_0000_0000_0000;
        let s0: u128 = self.w0 as u128 + other.w0 as u128;
        let (r0, c0): (u64, u128) = if s0 >= b {
            ((s0 - b) as u64, 1)
        } else {
            (s0 as u64, 0)
        };
        let s1: u128 = self.w1 as u128 + other.w1 as u128 + c0;
        let (r1, c1): (u64, u128) = if s1 >= b {
            ((s1 - b) as u64, 1)
        } else {
            (s1 as u64, 0)
        };
        let s2: u128 = self.w2 as u128 + other.w2 as u128 + c1;
        let (r2, c2): (u64, u128) = if s2 >= b {
            ((s2 - b) as u64, 1)
        } else {
            (s2 as u64, 0)
        };
        let s3: u128 = self.w3 as u128 + other.w3 as u128 + c2;
        if s3 >= b {
            None
        } else {
            Some(U256 { w0: r0, w1: r1, w2: r2, w3: s3 as u64 })
        }
    }

    /// `self - other`, or `None` when `other > self`.
    pub fn checked_sub(&self, other: &U256) -> (r: Option<U256>)
        ensures
            r matches Some(s) ==> s@ == self@ - other@,
            r is None <==> self@ < other@,
    {
        let b: u128 = 0x1_0000_0000_0000_0000;
        let (r0, c0): (u64, u64) = if self.w0 >= other.w0 {
            (self.w0 - other.w0, 0)
        } else {
            ((self.w0 as u128 + b - other.w0 as u128) as u64, 1)
        };
        let (r1, c1): (u64, u64) = if self.w1 as u128 >= other.w1 as u128 + c0 as u128 {
            ((self.w1 as u128 - other.w1 as u128 - c0 as u128) as u64, 0)
        } else {
            ((self.w1 as u128 + b - other.w1 as u128 - c0 as u128) as u64, 1)
        };
        let (r2, c2): (u64, u64) = if self.w2 as u128 >= other.w2 as u128 + c1 as u128 {
            ((self.w2 as u128 - other.w2 as u128 - c1 as u128) as u64, 0)
        } else {
            ((self.w2 as u128 + b - other.w2 as u128 - c1 as u128) as u64, 1)
        };
        if self.w3 as u128 >= other.w3 as u128 + c2 as u128 {
            Some(
                U256 {
                    w0: r0,
                    w1: r1,
                    w2: r2,
                    w3: (self.w3 as u128 - other.w3 as u128 - c2 as u128) as u64,
                },
            )
        } else {
            None
        }
    }

    /// The value as a `u64`, or `None` when it does not fit in 64 bits.
    pub fn to_u64(&self) -> (r: Option<u64>)
        ensures
            r is Some <==> self@ <= u64::MAX,
            r matches Some(v) ==> v == self@,
    {
        if self.w1 == 0 && self.w2 == 0 && self.w3 == 0 {
            Some(self.w0)
        } else {
            proof {
                assert(self@ >= 0x1_0000_0000_0000_0000) by (nonlinear_arith)
                    requires
                        self@ == words_value(self.w0, self.w1, self.w2, self.w3),
                        self.w1 != 0 || self.w2 != 0 || self.w3 != 0,
                ;
            }
            None
        }
    }

    /// `self + other`, or the largest value when the sum does not fit.
    pub fn saturating_add(&self, other: &U256) -> (r: U256)
        ensures
            self@ + other@ < u256_modulus() ==> r@ == self@ + other@,
            self@ + other@ >= u256_modulus() ==> r@ == u256_modulus() - 1,
    {
        match self.checked_add(other) {
            Some(v) => v,
            None => U256::max_value(),
        }
    }

    /// `self - other`, or zero when `other > self`.
    pub fn saturating_sub(&self, other: &U256) -> (r: U256)
        ensures
            self@ >= other@ ==> r@ == self@ - other@,
            self@ < other@ ==> r@ == 0,
    {
        match self.checked_sub(other) {
            Some(v) => v,
            None => U256::zero(),
        }
    }
}

} // verus!
