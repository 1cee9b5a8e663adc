//! What the ledger computes for the contracts: sha256 digests, and the XDR
//! encodings of the values that get hashed (symbols, `i128`s, 32-byte values
//! and maps keyed by field name, as a `#[contracttype]` struct is encoded).
use soroban_sdk::{Bytes, Env};
use vstd::prelude::*;
use crate::ids::{lemma_word_bytes_injective, push_word, word_bytes, Hash32};

verus! {

/// The ledger environment, which hashes and encodes values.
#[verifier::external_type_specification]
#[verifier::external_body]
pub struct ExEnv(Env);

/// The sha256 digest of `data`, as four big-endian words.
pub uninterp spec fn sha256_of(data: Seq<u8>) -> Hash32;

/// `Crypto::sha256` of the bytes of `data`, split into four big-endian words.
/// Claimed: the digest is the named digest of those bytes, a function of them
/// alone. Not stated: the ledger's resource budget, which a long enough input
/// exhausts.
#[verifier::external_body]
pub(crate) fn sha256_bytes(env: &Env, data: &Vec<u8>) -> (r: Hash32)
    ensures
        r == sha256_of(data@),
{
    let h = env.crypto().sha256(&Bytes::from_slice(env, data.as_slice())).to_array();
    let w: Vec<u64> = h.chunks(8).map(|c| u64::from_be_bytes(c.try_into().unwrap())).collect();
    Hash32 { w0: w[0], w1: w[1], w2: w[2], w3: w[3] }
}

/// A character allowed in a ledger symbol: `[a-zA-Z0-9_]`.
pub open spec fn symbol_char(c: char) -> bool {
    ('a' <= c <= 'z') || ('A' <= c <= 'Z') || ('0' <= c <= '9') || c == '_'
}

/// A string the ledger accepts as a symbol: at most 32 allowed characters.
pub open spec fn symbol_ok(s: Seq<char>) -> bool {
    s.len() <= 32 && forall|i: int| 0 <= i < s.len() ==> #[trigger] symbol_char(s[i])
}

/// The bytes of an ASCII string.
pub open spec fn ascii(s: Seq<char>) -> Seq<u8> {
    Seq::new(s.len(), |i: int| s[i] as u8)
}

/// A length below 256 as a big-endian `u32`.
pub open spec fn small_len_bytes(n: nat) -> Seq<u8> {
    seq![0u8, 0, 0, n as u8]
}

/// The zero bytes that pad `n` bytes to a multiple of four.
pub open spec fn pad_bytes(n: nat) -> Seq<u8> {
    Seq::new(((4 - n % 4) % 4) as nat, |i: int| 0u8)
}

/// XDR of a symbol value: tag 15, the length, the bytes, zero padding.
pub open spec fn symbol_xdr_spec(name: Seq<char>) -> Seq<u8> {
    seq![0u8, 0, 0, 15] + small_len_bytes(name.len()) + ascii(name) + pad_bytes(name.len())
}

/// XDR of an `i128` value: tag 10, then the high and the low 64 bits.
pub open spec fn i128_xdr_spec(v: i128) -> Seq<u8> {
    seq![0u8, 0, 0, 10] + word_bytes(((v as u128) >> 64u32) as u64) + word_bytes(v as u64)
}

/// XDR of a 32-byte value: tag 13, the length 32, the bytes.
pub open spec fn bytes32_xdr_spec(h: Hash32) -> Seq<u8> {
    seq![0u8, 0, 0, 13, 0, 0, 0, 32] + word_bytes(h.w0) + word_bytes(h.w1) + word_bytes(h.w2)
        + word_bytes(h.w3)
}

/// XDR of the start of a map value with `n` entries: tag 17, present, the count.
pub open spec fn map_head_spec(n: nat) -> Seq<u8> {
    seq![0u8, 0, 0, 17, 0, 0, 0, 1] + small_len_bytes(n)
}

/// Append the four bytes of a tag or a small length.
fn push_u32_small(out: &mut Vec<u8>, n: u8)
    ensures
        final(out)@ == old(out)@ + seq![0u8, 0, 0, n],
{
    out.push(0);
    out.push(0);
    out.push(0);
    out.push(n);
    proof {
        assert(final(out)@ =~= old(out)@ + seq![0u8, 0, 0, n]);
    }
}

/// Append the XDR of the symbol `name`.
pub fn push_symbol(out: &mut Vec<u8>, name: &str)
    requires
        symbol_ok(name@),
    ensures
        final(out)@ == old(out)@ + symbol_xdr_spec(name@),
{
    proof {
        broadcast use vstd::string::is_ascii_spec_bytes;

        assert(vstd::string::is_ascii(name)) by {
            assert forall|i: int| 0 <= i < name@.len() implies '\0' <= #[trigger] name@[i]
                <= '\u{7f}' by {
                assert(symbol_char(name@[i]));
            }
        }
    }
    let b = name.as_bytes();
    assert(b@ =~= ascii(name@));
    let ghost start = out@;
    push_u32_small(out, 15);
    push_u32_small(out, b.len() as u8);
    let ghost head = out@;
    let mut i: usize = 0;
    while i < b.len()
        invariant
            i <= b@.len(),
            out@ == head + b@.take(i as int),
        decreases b@.len() - i,
    {
        out.push(b[i]);
        proof {
            assert(b@.take(i + 1) =~= b@.take(i as int).push(b@[i as int]));
        }
        i = i + 1;
    }
    let pad: usize = (4 - b.len() % 4) % 4;
    let ghost body = out@;
    let mut j: usize = 0;
    while j < pad
        invariant
            j <= pad,
            pad == (4 - b@.len() % 4) % 4,
            out@ == body + Seq::new(j as nat, |k: int| 0u8),
        decreases pad - j,
    {
        out.push(0);
        proof {
            assert(Seq::new((j + 1) as nat, |k: int| 0u8) =~= Seq::new(j as nat, |k: int| 0u8).push(
                0u8,
            ));
        }
        j = j + 1;
    }
    proof {
        assert(b@.take(b@.len() as int) =~= b@);
        assert(final(out)@ =~= start + symbol_xdr_spec(name@));
    }
}

/// Append the XDR of the `i128` value `v`.
pub fn push_i128(out: &mut Vec<u8>, v: i128)
    ensures
        final(out)@ == old(out)@ + i128_xdr_spec(v),
{
    push_u32_small(out, 10);
    push_word(out, ((v as u128) >> 64u32) as u64);
    push_word(out, v as u64);
    proof {
        assert(final(out)@ =~= old(out)@ + i128_xdr_spec(v));
    }
}

/// Append the XDR of the 32-byte value `h`.
pub fn push_bytes32(out: &mut Vec<u8>, h: Hash32)
    ensures
        final(out)@ == old(out)@ + bytes32_xdr_spec(h),
{
    push_u32_small(out, 13);
    push_u32_small(out, 32);
    push_word(out, h.w0);
    push_word(out, h.w1);
    push_word(out, h.w2);
    push_word(out, h.w3);
    proof {
        assert(final(out)@ =~= old(out)@ + bytes32_xdr_spec(h));
    }
}

/// Append the start of a map value with `n` entries.
pub fn push_map_head(out: &mut Vec<u8>, n: u8)
    ensures
        final(out)@ == old(out)@ + map_head_spec(n as nat),
{
    push_u32_small(out, 17);
    push_u32_small(out, 1);
    push_u32_small(out, n);
    proof {
        assert(final(out)@ =~= old(out)@ + map_head_spec(n as nat));
    }
}

/// Regrouping a concatenation of five parts.
pub proof fn lemma_regroup(p: Seq<u8>, a: Seq<u8>, b: Seq<u8>, c: Seq<u8>, d: Seq<u8>)
    ensures
        p + a + b + c + d == p + ((a + b) + (c + d)),
{
    assert(p + a + b + c + d =~= (p + a + b) + (c + d));
    assert(p + a + b =~= p + (a + b));
    assert((p + (a + b)) + (c + d) =~= p + ((a + b) + (c + d)));
}

/// Equal byte strings with the same prefix agree after it.
pub proof fn lemma_cancel_prefix(p: Seq<u8>, x: Seq<u8>, y: Seq<u8>)
    requires
        p + x == p + y,
    ensures
        x == y,
{
    assert((p + x).subrange(p.len() as int, (p + x).len() as int) =~= x);
    assert((p + y).subrange(p.len() as int, (p + y).len() as int) =~= y);
}

/// Different 32-byte values have different encodings.
pub proof fn lemma_bytes32_xdr_injective(h1: Hash32, h2: Hash32)
    requires
        bytes32_xdr_spec(h1) == bytes32_xdr_spec(h2),
    ensures
        h1 == h2,
{
    let b1 = bytes32_xdr_spec(h1);
    let b2 = bytes32_xdr_spec(h2);
    assert(b1.subrange(8, 16) =~= word_bytes(h1.w0));
    assert(b2.subrange(8, 16) =~= word_bytes(h2.w0));
    assert(b1.subrange(16, 24) =~= word_bytes(h1.w1));
    assert(b2.subrange(16, 24) =~= word_bytes(h2.w1));
    assert(b1.subrange(24, 32) =~= word_bytes(h1.w2));
    assert(b2.subrange(24, 32) =~= word_bytes(h2.w2));
    assert(b1.subrange(32, 40) =~= word_bytes(h1.w3));
    assert(b2.subrange(32, 40) =~= word_bytes(h2.w3));
    lemma_word_bytes_injective(h1.w0, h2.w0);
    lemma_word_bytes_injective(h1.w1, h2.w1);
    lemma_word_bytes_injective(h1.w2, h2.w2);
    lemma_word_bytes_injective(h1.w3, h2.w3);
}

/// Equal byte strings that agree up to parts of the same length agree on those
/// parts and on what follows.
pub proof fn lemma_same_length_part(p: Seq<u8>, x1: Seq<u8>, r1: Seq<u8>, x2: Seq<u8>, r2: Seq<u8>)
    requires
        x1.len() == x2.len(),
        p + x1 + r1 == p + x2 + r2,
    ensures
        x1 == x2,
        r1 == r2,
{
    let a = p + x1 + r1;
    let b = p + x2 + r2;
    let n = p.len() as int;
    assert(a.subrange(n, n + x1.len()) =~= x1);
    assert(b.subrange(n, n + x2.len()) =~= x2);
    assert(a.subrange(n + x1.len(), a.len() as int) =~= r1);
    assert(b.subrange(n + x2.len(), b.len() as int) =~= r2);
}

/// An `i128` is determined by its high and low 64 bits.
proof fn lemma_i128_halves(v: i128, w: i128)
    by (bit_vector)
    requires
        ((v as u128) >> 64u32) as u64 == ((w as u128) >> 64u32) as u64,
        v as u64 == w as u64,
    ensures
        v == w,
{
}

/// Different `i128` values have different encodings.
pub proof fn lemma_i128_xdr_injective(v: i128, w: i128)
    requires
        i128_xdr_spec(v) == i128_xdr_spec(w),
    ensures
        v == w,
{
    let a = i128_xdr_spec(v);
    let b = i128_xdr_spec(w);
    assert(a.subrange(4, 12) =~= word_bytes(((v as u128) >> 64u32) as u64));
    assert(b.subrange(4, 12) =~= word_bytes(((w as u128) >> 64u32) as u64));
    assert(a.subrange(12, 20) =~= word_bytes(v as u64));
    assert(b.subrange(12, 20) =~= word_bytes(w as u64));
    lemma_word_bytes_injective(((v as u128) >> 64u32) as u64, ((w as u128) >> 64u32) as u64);
    lemma_word_bytes_injective(v as u64, w as u64);
    lemma_i128_halves(v, w);
}

} // verus!
