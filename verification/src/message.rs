//! The byte pre-image that a payer signs to authorize a token transfer.
use vstd::prelude::*;
use crate::uint::{
    U256, le_bytes, push_le_u64, zeros, lemma_le_bytes_index, lemma_le_bytes_len,
    lemma_le_value_le_bytes, lemma_pow256_8, pow256, u256_modulus,
};

verus! {

/// The ASCII bytes of `casper-x402-v2:`.
pub open spec fn message_prefix() -> Seq<u8> {
    seq![99u8, 97, 115, 112, 101, 114, 45, 120, 52, 48, 50, 45, 118, 50, 58]
}

/// Total length of a pre-image.
pub const MESSAGE_LEN: usize = 159;

/// The nonce cut or zero-padded to exactly 32 bytes.
pub open spec fn pad_nonce(nonce: Seq<u8>) -> Seq<u8> {
    if nonce.len() >= 32 {
        nonce.take(32)
    } else {
        nonce + zeros((32 - nonce.len()) as nat)
    }
}

/// The pre-image: prefix, payer hash, payee hash, amount (32 bytes little-endian),
/// `valid_after` and `valid_before` (8 bytes little-endian each), nonce (32 bytes).
pub open spec fn preimage(
    from_hash: Seq<u8>,
    to_hash: Seq<u8>,
    amount: nat,
    valid_after: u64,
    valid_before: u64,
    nonce: Seq<u8>,
) -> Seq<u8> {
    message_prefix() + from_hash + to_hash + le_bytes(amount, 32) + le_bytes(valid_after as nat, 8)
        + le_bytes(valid_before as nat, 8) + pad_nonce(nonce)
}

fn push_prefix(out: &mut Vec<u8>)
    ensures
        final(out)@ == old(out)@ + message_prefix(),
{
    let prefix: [u8; 15] = [99, 97, 115, 112, 101, 114, 45, 120, 52, 48, 50, 45, 118, 50, 58];
    let mut i: usize = 0;
    while i < 15
        invariant
            i <= 15,
            prefix@ == message_prefix(),
            out@ == old(out)@ + message_prefix().take(i as int),
        decreases 15 - i,
    {
        out.push(prefix[i]);
        i = i + 1;
        assert(out@ =~= old(out)@ + message_prefix().take(i as int));
    }
    assert(message_prefix().take(15) =~= message_prefix());
}

fn push_bytes32(out: &mut Vec<u8>, b: &[u8; 32])
    ensures
        final(out)@ == old(out)@ + b@,
{
    let mut i: usize = 0;
    while i < 32
        invariant
            i <= 32,
            out@ == old(out)@ + b@.take(i as int),
        decreases 32 - i,
    {
        out.push(b[i]);
        i = i + 1;
        assert(out@ =~= old(out)@ + b@.take(i as int));
    }
    assert(b@.take(32) =~= b@);
}

fn push_padded_nonce(out: &mut Vec<u8>, nonce: &[u8])
    ensures
        final(out)@ == old(out)@ + pad_nonce(nonce@),
{
    let len: usize = if nonce.len() < 32 {
        nonce.len()
    } else {
        32
    };
    let mut i: usize = 0;
    while i < 32
        invariant
            i <= 32,
            len == (if nonce@.len() < 32 {
                nonce@.len()
            } else {
                32
            }),
            out@ == old(out)@ + pad_nonce(nonce@).take(i as int),
        decreases 32 - i,
    {
        if i < len {
            out.push(nonce[i]);
        } else {
            out.push(0u8);
        }
        i = i + 1;
        assert(out@ =~= old(out)@ + pad_nonce(nonce@).take(i as int));
    }
    assert(pad_nonce(nonce@).take(32) =~= pad_nonce(nonce@));
}

/// The nonce as it is signed: cut or zero-padded to 32 bytes.
pub fn padded_nonce(nonce: &[u8]) -> (r: Vec<u8>)
    ensures
        r@ == pad_nonce(nonce@),
        r@.len() == 32,
{
    let mut v: Vec<u8> = Vec::new();
    push_padded_nonce(&mut v, nonce);
    assert(v@ =~= pad_nonce(nonce@));
    v
}

/// Builds the 159-byte authorization pre-image (see [`preimage`]).
pub fn build_message(
    from_hash: &[u8; 32],
    to_hash: &[u8; 32],
    amount: &U256,
    valid_after: u64,
    valid_before: u64,
    nonce: &[u8],
) -> (msg: Vec<u8>)
    ensures
        msg@ == preimage(from_hash@, to_hash@, amount@, valid_after, valid_before, nonce@),
        msg@.len() == MESSAGE_LEN,
{
    let mut msg: Vec<u8> = Vec::new();
    push_prefix(&mut msg);
    push_bytes32(&mut msg, from_hash);
    push_bytes32(&mut msg, to_hash);
    amount.push_le_bytes(&mut msg);
    push_le_u64(&mut msg, valid_after);
    push_le_u64(&mut msg, valid_before);
    push_padded_nonce(&mut msg, nonce);
    proof {
        lemma_le_bytes_len(amount@, 32);
        lemma_le_bytes_len(valid_after as nat, 8);
        lemma_le_bytes_len(valid_before as nat, 8);
        assert(msg@ =~= preimage(from_hash@, to_hash@, amount@, valid_after, valid_before, nonce@));
    }
    msg
}

/// The layout of a pre-image, byte by byte: the 15 ASCII bytes `casper-x402-v2:`, the payer's
/// and the payee's 32-byte hashes, then the amount's 32 base-256 digits, `valid_after`'s and
/// `valid_before`'s 8 base-256 digits each, least significant first, and the first 32 bytes of
/// the nonce, with zeros after a shorter nonce: 159 bytes in all.
pub proof fn law_preimage_layout(
    from_hash: Seq<u8>,
    to_hash: Seq<u8>,
    amount: nat,
    valid_after: u64,
    valid_before: u64,
    nonce: Seq<u8>,
)
    requires
        from_hash.len() == 32,
        to_hash.len() == 32,
    ensures
        ({
            let p = preimage(from_hash, to_hash, amount, valid_after, valid_before, nonce);
            &&& p.len() == 159
            &&& p.take(15) == seq![99u8, 97, 115, 112, 101, 114, 45, 120, 52, 48, 50, 45, 118, 50, 58]
            &&& p.subrange(15, 47) == from_hash
            &&& p.subrange(47, 79) == to_hash
            &&& forall|i: int| 0 <= i < 32 ==> #[trigger] p[79 + i] == ((amount / pow256(i as nat))
                % 256) as u8
            &&& forall|i: int| 0 <= i < 8 ==> #[trigger] p[111 + i] == ((valid_after as nat / pow256(
                i as nat,
            )) % 256) as u8
            &&& forall|i: int| 0 <= i < 8 ==> #[trigger] p[119 + i] == ((valid_before as nat / pow256(
                i as nat,
            )) % 256) as u8
            &&& forall|i: int| 0 <= i < 32 ==> #[trigger] p[127 + i] == if i < nonce.len() {
                nonce[i]
            } else {
                0u8
            }
        }),
{
    let p = preimage(from_hash, to_hash, amount, valid_after, valid_before, nonce);
    lemma_le_bytes_len(amount, 32);
    lemma_le_bytes_len(valid_after as nat, 8);
    lemma_le_bytes_len(valid_before as nat, 8);
    assert(pad_nonce(nonce).len() == 32);
    assert(p.take(15) =~= message_prefix());
    assert(p.subrange(15, 47) =~= from_hash);
    assert(p.subrange(47, 79) =~= to_hash);
    assert forall|i: int| 0 <= i < 32 implies #[trigger] p[79 + i] == ((amount / pow256(
        i as nat,
    )) % 256) as u8 by {
        lemma_le_bytes_index(amount, 32, i as nat);
    }
    assert forall|i: int| 0 <= i < 8 implies #[trigger] p[111 + i] == ((valid_after as nat
        / pow256(i as nat)) % 256) as u8 by {
        lemma_le_bytes_index(valid_after as nat, 8, i as nat);
    }
    assert forall|i: int| 0 <= i < 8 implies #[trigger] p[119 + i] == ((valid_before as nat
        / pow256(i as nat)) % 256) as u8 by {
        lemma_le_bytes_index(valid_before as nat, 8, i as nat);
    }
    assert forall|i: int| 0 <= i < 32 implies #[trigger] p[127 + i] == if i < nonce.len() {
        nonce[i]
    } else {
        0u8
    } by {
        assert(p[127 + i] == pad_nonce(nonce)[i]);
    }
}

/// A pre-image names one transfer: equal pre-images have the same payer, payee, amount,
/// validity bounds and (padded) nonce, so a signature over one authorizes nothing else.
pub proof fn law_preimage_determines_transfer(
    from1: Seq<u8>,
    to1: Seq<u8>,
    amount1: nat,
    valid_after1: u64,
    valid_before1: u64,
    nonce1: Seq<u8>,
    from2: Seq<u8>,
    to2: Seq<u8>,
    amount2: nat,
    valid_after2: u64,
    valid_before2: u64,
    nonce2: Seq<u8>,
)
    requires
        from1.len() == 32,
        to1.len() == 32,
        from2.len() == 32,
        to2.len() == 32,
        amount1 < u256_modulus(),
        amount2 < u256_modulus(),
        preimage(from1, to1, amount1, valid_after1, valid_before1, nonce1) == preimage(
            from2,
            to2,
            amount2,
            valid_after2,
            valid_before2,
            nonce2,
        ),
    ensures
        from1 == from2,
        to1 == to2,
        amount1 == amount2,
        valid_after1 == valid_after2,
        valid_before1 == valid_before2,
        pad_nonce(nonce1) == pad_nonce(nonce2),
{
    let p1 = preimage(from1, to1, amount1, valid_after1, valid_before1, nonce1);
    let p2 = preimage(from2, to2, amount2, valid_after2, valid_before2, nonce2);
    lemma_le_bytes_len(amount1, 32);
    lemma_le_bytes_len(amount2, 32);
    lemma_le_bytes_len(valid_after1 as nat, 8);
    lemma_le_bytes_len(valid_after2 as nat, 8);
    lemma_le_bytes_len(valid_before1 as nat, 8);
    lemma_le_bytes_len(valid_before2 as nat, 8);
    assert(pad_nonce(nonce1).len() == 32);
    assert(pad_nonce(nonce2).len() == 32);
    assert(from1 =~= p1.subrange(15, 47));
    assert(from2 =~= p2.subrange(15, 47));
    assert(to1 =~= p1.subrange(47, 79));
    assert(to2 =~= p2.subrange(47, 79));
    assert(le_bytes(amount1, 32) =~= p1.subrange(79, 111));
    assert(le_bytes(amount2, 32) =~= p2.subrange(79, 111));
    assert(le_bytes(valid_after1 as nat, 8) =~= p1.subrange(111, 119));
    assert(le_bytes(valid_after2 as nat, 8) =~= p2.subrange(111, 119));
    assert(le_bytes(valid_before1 as nat, 8) =~= p1.subrange(119, 127));
    assert(le_bytes(valid_before2 as nat, 8) =~= p2.subrange(119, 127));
    assert(pad_nonce(nonce1) =~= p1.subrange(127, 159));
    assert(pad_nonce(nonce2) =~= p2.subrange(127, 159));
    lemma_pow256_8();
    lemma_le_value_le_bytes(amount1, 32);
    lemma_le_value_le_bytes(amount2, 32);
    lemma_le_value_le_bytes(valid_after1 as nat, 8);
    lemma_le_value_le_bytes(valid_after2 as nat, 8);
    lemma_le_value_le_bytes(valid_before1 as nat, 8);
    lemma_le_value_le_bytes(valid_before2 as nat, 8);
}

} // verus!
