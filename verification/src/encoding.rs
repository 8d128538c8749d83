//! Byte-level encodings shared by hashing and serialization: little-endian
//! integers, decimal text and byte-string helpers.

use vstd::prelude::*;

verus! {

/// The `n` low-order bytes of `x`, least significant first.
pub open spec fn le_bytes(x: nat, n: nat) -> Seq<u8>
    decreases n,
{
    if n == 0 {
        Seq::empty()
    } else {
        seq![(x % 256) as u8] + le_bytes(x / 256, (n - 1) as nat)
    }
}

/// Little-endian encoding of a `u64` (8 bytes).
pub open spec fn u64_le(x: u64) -> Seq<u8> {
    le_bytes(x as nat, 8)
}

/// Little-endian encoding of a `u32` (4 bytes).
pub open spec fn u32_le(x: nat) -> Seq<u8> {
    le_bytes(x, 4)
}

/// The decimal digits of `x` as ASCII bytes, without leading zeros.
pub open spec fn decimal(x: nat) -> Seq<u8>
    decreases x,
{
    if x < 10 {
        seq![(48 + x) as u8]
    } else {
        decimal(x / 10) + seq![(48 + x % 10) as u8]
    }
}

/// Proof that `le_bytes` has the requested length.
pub proof fn lemma_le_bytes_len(x: nat, n: nat)
    ensures
        le_bytes(x, n).len() == n,
    decreases n,
{
    if n > 0 {
        lemma_le_bytes_len(x / 256, (n - 1) as nat);
    }
}

/// Appends the bytes of `src` to `dst`.
pub fn append_bytes(dst: &mut Vec<u8>, src: &[u8])
    ensures
        final(dst)@ == old(dst)@ + src@,
{
    let mut i: usize = 0;
    while i < src.len()
        invariant
            i <= src@.len(),
            dst@ == old(dst)@ + src@.subrange(0, i as int),
        decreases src@.len() - i,
    {
        dst.push(src[i]);
        i = i + 1;
        assert(src@.subrange(0, i as int) =~= src@.subrange(0, i - 1 as int).push(src@[i - 1]));
    }
    assert(src@.subrange(0, src@.len() as int) =~= src@);
}

/// Appends the little-endian encoding of the low `n` bytes of `x`.
pub fn push_le_bytes(dst: &mut Vec<u8>, x: u64, n: usize)
    requires
        n <= 8,
    ensures
        final(dst)@ == old(dst)@ + le_bytes(x as nat, n as nat),
{
    let mut rest: u64 = x;
    let mut i: usize = 0;
    while i < n
        invariant
            i <= n,
            n <= 8,
            old(dst)@ + le_bytes(x as nat, n as nat) == dst@ + le_bytes(rest as nat, (n - i) as nat),
        decreases n - i,
    {
        let byte: u8 = (rest % 256) as u8;
        dst.push(byte);
        assert(le_bytes(rest as nat, (n - i) as nat) == seq![byte] + le_bytes(
            (rest / 256) as nat,
            (n - i - 1) as nat,
        ));
        rest = rest / 256;
        i = i + 1;
        assert(dst@ + le_bytes(rest as nat, (n - i) as nat) =~= old(dst)@ + le_bytes(
            x as nat,
            n as nat,
        ));
    }
    assert(le_bytes(rest as nat, 0) =~= Seq::<u8>::empty());
    assert(dst@ =~= old(dst)@ + le_bytes(x as nat, n as nat));
}

/// Proof that the decimal text of a number is non-empty.
pub proof fn lemma_decimal_nonempty(x: nat)
    ensures
        decimal(x).len() >= 1,
    decreases x,
{
    if x >= 10 {
        lemma_decimal_nonempty(x / 10);
    }
}

/// Appends the decimal text of `x` (as formatted by `{}`) to `dst`.
pub fn push_decimal(dst: &mut Vec<u8>, x: u64)
    ensures
        final(dst)@ == old(dst)@ + decimal(x as nat),
    decreases x,
{
    if x < 10 {
        let digit: u8 = (48 + x) as u8;
        dst.push(digit);
        assert(dst@ =~= old(dst)@ + decimal(x as nat));
    } else {
        push_decimal(dst, x / 10);
        let digit: u8 = (48 + x % 10) as u8;
        dst.push(digit);
        assert(dst@ =~= old(dst)@ + decimal(x as nat));
    }
}

/// Returns whether two byte strings are equal.
pub fn bytes_equal(a: &[u8], b: &[u8]) -> (equal: bool)
    ensures
        equal == (a@ == b@),
{
    if a.len() != b.len() {
        return false;
    }
    let mut i: usize = 0;
    while i < a.len()
        invariant
            a@.len() == b@.len(),
            i <= a@.len(),
            forall|j: int| 0 <= j < i ==> a@[j] == b@[j],
        decreases a@.len() - i,
    {
        if a[i] != b[i] {
            return false;
        }
        i = i + 1;
    }
    assert(a@ =~= b@);
    true
}

/// Returns whether two 32-byte values (addresses or hashes) are equal.
pub fn bytes32_equal(a: &[u8; 32], b: &[u8; 32]) -> (equal: bool)
    ensures
        equal == (*a == *b),
{
    broadcast use vstd::array::group_array_axioms;

    let mut i: usize = 0;
    while i < 32
        invariant
            i <= 32,
            a@.len() == 32,
            b@.len() == 32,
            forall|j: int| 0 <= j < i ==> a@[j] == b@[j],
        decreases 32 - i,
    {
        if a[i] != b[i] {
            return false;
        }
        i = i + 1;
    }
    assert(*a =~= *b);
    true
}

/// Copies a byte vector, keeping its contents.
pub fn copy_bytes(src: &Vec<u8>) -> (copy: Vec<u8>)
    ensures
        copy@ == src@,
{
    let mut copy: Vec<u8> = Vec::new();
    append_bytes(&mut copy, src.as_slice());
    assert(copy@ =~= src@);
    copy
}

/// Copies a byte slice into a new vector.
pub fn copy_bytes_from_slice(src: &[u8]) -> (copy: Vec<u8>)
    ensures
        copy@ == src@,
{
    let mut copy: Vec<u8> = Vec::new();
    append_bytes(&mut copy, src);
    assert(copy@ =~= src@);
    copy
}

} // verus!
