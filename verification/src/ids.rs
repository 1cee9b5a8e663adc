//! Identifiers the contracts compare: account/contract addresses and 32-byte hashes.
use vstd::prelude::*;

verus! {

/// A ledger address, held as its kind tag and its 32-byte key in four words.
///
/// Two addresses are the same account or contract exactly when all fields agree.
#[derive(Clone, Copy, Debug, PartialEq, Eq, Hash, Structural)]
pub struct Addr {
    pub kind: u32,
    pub k0: u64,
    pub k1: u64,
    pub k2: u64,
    pub k3: u64,
}

/// A 32-byte value (code, hash, salt), held as four words.
#[derive(Clone, Copy, Debug, PartialEq, Eq, Hash, Structural)]
pub struct Hash32 {
    pub w0: u64,
    pub w1: u64,
    pub w2: u64,
    pub w3: u64,
}


/// Append `a` to `list` unless it is already there.
pub fn push_unique(list: &mut Vec<Addr>, a: Addr)
    ensures
        old(list)@.contains(a) ==> final(list)@ == old(list)@,
        !old(list)@.contains(a) ==> final(list)@ == old(list)@.push(a),
{
    let mut i: usize = 0;
    while i < list.len()
        invariant
            i <= list.len(),
            forall|j: int| 0 <= j < i ==> list@[j] != a,
        decreases list.len() - i,
    {
        if list[i] == a {
            return;
        }
        i = i + 1;
    }
    list.push(a);
}

/// Whether `a` is in `list`.
pub fn contains_addr(list: &Vec<Addr>, a: Addr) -> (r: bool)
    ensures
        r == list@.contains(a),
{
    let mut i: usize = 0;
    while i < list.len()
        invariant
            i <= list.len(),
            forall|j: int| 0 <= j < i ==> list@[j] != a,
        decreases list.len() - i,
    {
        if list[i] == a {
            return true;
        }
        i = i + 1;
    }
    false
}


/// A copy of a list of addresses.
pub fn copy_addrs(list: &Vec<Addr>) -> (r: Vec<Addr>)
    ensures
        r@ == list@,
{
    let mut out: Vec<Addr> = Vec::new();
    let mut i: usize = 0;
    while i < list.len()
        invariant
            i <= list.len(),
            out@ == list@.take(i as int),
        decreases list.len() - i,
    {
        out.push(list[i]);
        proof {
            assert(list@.take(i + 1) =~= list@.take(i as int).push(list@[i as int]));
        }
        i = i + 1;
    }
    proof {
        assert(list@.take(list.len() as int) =~= list@);
    }
    out
}

/// An address the ledger knows: an account (kind 0) or a contract (kind 1).
pub open spec fn ledger_addr(a: Addr) -> bool {
    a.kind <= 1
}

/// The eight bytes of a word, most significant first.
pub open spec fn word_bytes(w: u64) -> Seq<u8> {
    seq![
        (w >> 56u64) as u8,
        (w >> 48u64) as u8,
        (w >> 40u64) as u8,
        (w >> 32u64) as u8,
        (w >> 24u64) as u8,
        (w >> 16u64) as u8,
        (w >> 8u64) as u8,
        w as u8,
    ]
}

/// The ledger's XDR encoding of an address value: the address tag 18, then the
/// kind, then for an account the ed25519 key type 0, then the 32-byte key.
pub open spec fn address_xdr_spec(a: Addr) -> Seq<u8> {
    let head = if a.kind == 0 {
        seq![0u8, 0, 0, 18, 0, 0, 0, 0, 0, 0, 0, 0]
    } else {
        seq![0u8, 0, 0, 18, 0, 0, 0, 1]
    };
    head + word_bytes(a.k0) + word_bytes(a.k1) + word_bytes(a.k2) + word_bytes(a.k3)
}

/// Append the eight bytes of `w`, most significant first.
pub fn push_word(out: &mut Vec<u8>, w: u64)
    ensures
        final(out)@ == old(out)@ + word_bytes(w),
{
    out.push((w >> 56u64) as u8);
    out.push((w >> 48u64) as u8);
    out.push((w >> 40u64) as u8);
    out.push((w >> 32u64) as u8);
    out.push((w >> 24u64) as u8);
    out.push((w >> 16u64) as u8);
    out.push((w >> 8u64) as u8);
    out.push(w as u8);
    proof {
        assert(final(out)@ =~= old(out)@ + word_bytes(w));
    }
}

/// The XDR encoding of a ledger address (any kind but an account is
/// encoded as a contract).
pub fn address_xdr(a: Addr) -> (r: Vec<u8>)
    ensures
        r@ == address_xdr_spec(a),
{
    let mut out: Vec<u8> = Vec::new();
    out.push(0);
    out.push(0);
    out.push(0);
    out.push(18);
    out.push(0);
    out.push(0);
    out.push(0);
    if a.kind == 0 {
        out.push(0);
        out.push(0);
        out.push(0);
        out.push(0);
        out.push(0);
    } else {
        out.push(1);
    }
    push_word(&mut out, a.k0);
    push_word(&mut out, a.k1);
    push_word(&mut out, a.k2);
    push_word(&mut out, a.k3);
    proof {
        assert(out@ =~= address_xdr_spec(a));
    }
    out
}

/// Append the XDR encoding of the address `a`.
pub fn push_address(out: &mut Vec<u8>, a: Addr)
    ensures
        final(out)@ == old(out)@ + address_xdr_spec(a),
{
    let mut e = address_xdr(a);
    out.append(&mut e);
}

/// The bytes of the word assembled from `b0..b7` are `b0..b7`.
proof fn lemma_word_of_bytes(w: u64, b0: u8, b1: u8, b2: u8, b3: u8, b4: u8, b5: u8, b6: u8, b7: u8)
    by (bit_vector)
    requires
        w == ((b0 as u64) << 56u64) | ((b1 as u64) << 48u64) | ((b2 as u64) << 40u64) | ((
        b3 as u64) << 32u64) | ((b4 as u64) << 24u64) | ((b5 as u64) << 16u64) | ((b6 as u64)
            << 8u64) | (b7 as u64),
    ensures
        (w >> 56u64) as u8 == b0,
        (w >> 48u64) as u8 == b1,
        (w >> 40u64) as u8 == b2,
        (w >> 32u64) as u8 == b3,
        (w >> 24u64) as u8 == b4,
        (w >> 16u64) as u8 == b5,
        (w >> 8u64) as u8 == b6,
        w as u8 == b7,
{
}

/// A word is determined by its eight bytes.
proof fn lemma_word_bytes_determine(w: u64, v: u64)
    by (bit_vector)
    requires
        (w >> 56u64) as u8 == (v >> 56u64) as u8,
        (w >> 48u64) as u8 == (v >> 48u64) as u8,
        (w >> 40u64) as u8 == (v >> 40u64) as u8,
        (w >> 32u64) as u8 == (v >> 32u64) as u8,
        (w >> 24u64) as u8 == (v >> 24u64) as u8,
        (w >> 16u64) as u8 == (v >> 16u64) as u8,
        (w >> 8u64) as u8 == (v >> 8u64) as u8,
        w as u8 == v as u8,
    ensures
        w == v,
{
}

/// Different words have different bytes.
pub proof fn lemma_word_bytes_injective(w: u64, v: u64)
    requires
        word_bytes(w) == word_bytes(v),
    ensures
        w == v,
{
    assert(word_bytes(w)[0] == word_bytes(v)[0]);
    assert(word_bytes(w)[1] == word_bytes(v)[1]);
    assert(word_bytes(w)[2] == word_bytes(v)[2]);
    assert(word_bytes(w)[3] == word_bytes(v)[3]);
    assert(word_bytes(w)[4] == word_bytes(v)[4]);
    assert(word_bytes(w)[5] == word_bytes(v)[5]);
    assert(word_bytes(w)[6] == word_bytes(v)[6]);
    assert(word_bytes(w)[7] == word_bytes(v)[7]);
    lemma_word_bytes_determine(w, v);
}

/// The word whose bytes are `data[start..start + 8]`.
pub fn read_word(data: &Vec<u8>, start: usize) -> (w: u64)
    requires
        start + 8 <= data.len(),
    ensures
        word_bytes(w) == data@.subrange(start as int, start + 8),
{
    let b0 = data[start];
    let b1 = data[start + 1];
    let b2 = data[start + 2];
    let b3 = data[start + 3];
    let b4 = data[start + 4];
    let b5 = data[start + 5];
    let b6 = data[start + 6];
    let b7 = data[start + 7];
    let w: u64 = ((b0 as u64) << 56u64) | ((b1 as u64) << 48u64) | ((b2 as u64) << 40u64) | ((
    b3 as u64) << 32u64) | ((b4 as u64) << 24u64) | ((b5 as u64) << 16u64) | ((b6 as u64)
        << 8u64) | (b7 as u64);
    proof {
        lemma_word_of_bytes(w, b0, b1, b2, b3, b4, b5, b6, b7);
        assert(word_bytes(w) =~= data@.subrange(start as int, start + 8));
    }
    w
}

/// The ledger address whose XDR is `data`, if there is one.
pub open spec fn address_of_xdr(data: Seq<u8>) -> Option<Addr> {
    if exists|a: Addr| ledger_addr(a) && address_xdr_spec(a) == data {
        Some(choose|a: Addr| ledger_addr(a) && address_xdr_spec(a) == data)
    } else {
        None
    }
}

/// The header length and the four key words of an address encoding.
proof fn lemma_address_xdr_parts(a: Addr)
    requires
        ledger_addr(a),
    ensures
        ({
            let e = address_xdr_spec(a);
            let h: int = if a.kind == 0 { 12 } else { 8 };
            &&& e.len() == h + 32
            &&& e.subrange(h, h + 8) == word_bytes(a.k0)
            &&& e.subrange(h + 8, h + 16) == word_bytes(a.k1)
            &&& e.subrange(h + 16, h + 24) == word_bytes(a.k2)
            &&& e.subrange(h + 24, h + 32) == word_bytes(a.k3)
        }),
{
    let e = address_xdr_spec(a);
    let h: int = if a.kind == 0 { 12 } else { 8 };
    assert(e.subrange(h, h + 8) =~= word_bytes(a.k0));
    assert(e.subrange(h + 8, h + 16) =~= word_bytes(a.k1));
    assert(e.subrange(h + 16, h + 24) =~= word_bytes(a.k2));
    assert(e.subrange(h + 24, h + 32) =~= word_bytes(a.k3));
}

/// Different ledger addresses have different encodings.
pub proof fn lemma_address_xdr_injective(a: Addr, b: Addr)
    requires
        ledger_addr(a),
        ledger_addr(b),
        address_xdr_spec(a) == address_xdr_spec(b),
    ensures
        a == b,
{
    lemma_address_xdr_parts(a);
    lemma_address_xdr_parts(b);
    lemma_word_bytes_injective(a.k0, b.k0);
    lemma_word_bytes_injective(a.k1, b.k1);
    lemma_word_bytes_injective(a.k2, b.k2);
    lemma_word_bytes_injective(a.k3, b.k3);
}

/// `data` has the layout of an account's encoding.
pub open spec fn account_layout(d: Seq<u8>) -> bool {
    &&& d.len() == 44
    &&& d[0] == 0 && d[1] == 0 && d[2] == 0 && d[3] == 18
    &&& d[4] == 0 && d[5] == 0 && d[6] == 0 && d[7] == 0
    &&& d[8] == 0 && d[9] == 0 && d[10] == 0 && d[11] == 0
}

/// `data` has the layout of a contract's encoding.
pub open spec fn contract_layout(d: Seq<u8>) -> bool {
    &&& d.len() == 40
    &&& d[0] == 0 && d[1] == 0 && d[2] == 0 && d[3] == 18
    &&& d[4] == 0 && d[5] == 0 && d[6] == 0 && d[7] == 1
}

/// An address's encoding has the layout of its kind.
proof fn lemma_address_xdr_layout(a: Addr)
    requires
        ledger_addr(a),
    ensures
        a.kind == 0 ==> account_layout(address_xdr_spec(a)),
        a.kind == 1 ==> contract_layout(address_xdr_spec(a)),
{
    lemma_address_xdr_parts(a);
}

/// Bytes with an address layout whose key words are `k0..k3` encode that address.
proof fn lemma_layout_is_address(d: Seq<u8>, a: Addr)
    requires
        ledger_addr(a),
        a.kind == 0 ==> account_layout(d),
        a.kind == 1 ==> contract_layout(d),
        ({
            let h: int = if a.kind == 0 { 12 } else { 8 };
            &&& word_bytes(a.k0) == d.subrange(h, h + 8)
            &&& word_bytes(a.k1) == d.subrange(h + 8, h + 16)
            &&& word_bytes(a.k2) == d.subrange(h + 16, h + 24)
            &&& word_bytes(a.k3) == d.subrange(h + 24, h + 32)
        }),
    ensures
        d == address_xdr_spec(a),
{
    let e = address_xdr_spec(a);
    let h: int = if a.kind == 0 { 12 } else { 8 };
    lemma_address_xdr_parts(a);
    assert forall|i: int| 0 <= i < e.len() implies #[trigger] e[i] == d[i] by {
        if i >= h + 24 {
            assert(e[i] == e.subrange(h + 24, h + 32)[i - h - 24]);
            assert(d[i] == d.subrange(h + 24, h + 32)[i - h - 24]);
        } else if i >= h + 16 {
            assert(e[i] == e.subrange(h + 16, h + 24)[i - h - 16]);
            assert(d[i] == d.subrange(h + 16, h + 24)[i - h - 16]);
        } else if i >= h + 8 {
            assert(e[i] == e.subrange(h + 8, h + 16)[i - h - 8]);
            assert(d[i] == d.subrange(h + 8, h + 16)[i - h - 8]);
        } else if i >= h {
            assert(e[i] == e.subrange(h, h + 8)[i - h]);
            assert(d[i] == d.subrange(h, h + 8)[i - h]);
        }
    }
    assert(d =~= e);
}

/// Address encodings are prefix-free: two equal byte strings that agree up to
/// an address encoding hold the same address there and agree on what follows.
pub proof fn lemma_address_xdr_prefix_free(p: Seq<u8>, a: Addr, r1: Seq<u8>, b: Addr, r2: Seq<u8>)
    requires
        ledger_addr(a),
        ledger_addr(b),
        p + address_xdr_spec(a) + r1 == p + address_xdr_spec(b) + r2,
    ensures
        a == b,
        r1 == r2,
{
    lemma_address_xdr_layout(a);
    lemma_address_xdr_layout(b);
    let ea = address_xdr_spec(a);
    let eb = address_xdr_spec(b);
    let x = p + ea + r1;
    let y = p + eb + r2;
    let n = p.len() as int;
    assert(x[n + 7] == ea[7]);
    assert(y[n + 7] == eb[7]);
    assert(a.kind == b.kind);
    assert(ea.len() == eb.len());
    assert(x.subrange(n, n + ea.len()) =~= ea);
    assert(y.subrange(n, n + eb.len()) =~= eb);
    lemma_address_xdr_injective(a, b);
    assert(x.subrange(n + ea.len(), x.len() as int) =~= r1);
    assert(y.subrange(n + eb.len(), y.len() as int) =~= r2);
}

/// Decode a ledger address from its XDR: an account (44 bytes) or a contract
/// (40 bytes); anything else is no address.
pub fn address_from_xdr(data: &Vec<u8>) -> (r: Option<Addr>)
    ensures
        r == address_of_xdr(data@),
        r matches Some(a) ==> ledger_addr(a) && data@ == address_xdr_spec(a),
        r is None ==> forall|a: Addr| ledger_addr(a) ==> data@ != address_xdr_spec(a),
{
    let n = data.len();
    let tagged = n >= 12 && data[0] == 0 && data[1] == 0 && data[2] == 0 && data[3] == 18
        && data[4] == 0 && data[5] == 0 && data[6] == 0;
    let is_account = tagged && n == 44 && data[7] == 0 && data[8] == 0 && data[9] == 0
        && data[10] == 0 && data[11] == 0;
    let is_contract = tagged && n == 40 && data[7] == 1;
    assert(is_account == account_layout(data@));
    assert(is_contract == contract_layout(data@));
    if !is_account && !is_contract {
        proof {
            assert forall|a: Addr| ledger_addr(a) implies data@ != address_xdr_spec(a) by {
                lemma_address_xdr_layout(a);
            }
        }
        return None;
    }
    let h: usize = if is_account { 12 } else { 8 };
    let a = Addr {
        kind: if is_account { 0 } else { 1 },
        k0: read_word(data, h),
        k1: read_word(data, h + 8),
        k2: read_word(data, h + 16),
        k3: read_word(data, h + 24),
    };
    proof {
        lemma_layout_is_address(data@, a);
        let c = choose|c: Addr| ledger_addr(c) && address_xdr_spec(c) == data@;
        lemma_address_xdr_injective(a, c);
    }
    Some(a)
}

} // verus!
