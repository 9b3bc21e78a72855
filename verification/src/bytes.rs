//! Byte strings as big-endian numbers, and the small buffer operations the
//! rest of the crate is built from.

use vstd::prelude::*;

verus! {

/// The number a byte string denotes when read big-endian. The empty string
/// denotes zero.
pub open spec fn be_nat(bytes: Seq<u8>) -> nat
    decreases bytes.len(),
{
    if bytes.len() == 0 {
        0
    } else {
        be_nat(bytes.drop_last()) * 256 + bytes.last() as nat
    }
}

/// The `len`-byte big-endian string of `value`; digits above the top byte
/// are dropped.
pub open spec fn be_bytes(value: nat, len: nat) -> Seq<u8>
    decreases len,
{
    if len == 0 {
        Seq::empty()
    } else {
        be_bytes(value / 256, (len - 1) as nat).push((value % 256) as u8)
    }
}

/// `256^len`: the number of distinct byte strings of length `len`.
pub open spec fn radix_pow(len: nat) -> nat
    decreases len,
{
    if len == 0 {
        1
    } else {
        256 * radix_pow((len - 1) as nat)
    }
}

pub proof fn lemma_be_bytes_len(value: nat, len: nat)
    ensures
        be_bytes(value, len).len() == len,
    decreases len,
{
    if len > 0 {
        lemma_be_bytes_len(value / 256, (len - 1) as nat);
    }
}

/// Writing out the number a string denotes, at the string's own length,
/// gives the string back.
pub proof fn lemma_be_bytes_of_be_nat(bytes: Seq<u8>)
    ensures
        be_bytes(be_nat(bytes), bytes.len()) == bytes,
    decreases bytes.len(),
{
    if bytes.len() > 0 {
        let init = bytes.drop_last();
        lemma_be_bytes_of_be_nat(init);
        let v = be_nat(bytes);
        assert(v / 256 == be_nat(init));
        assert(v % 256 == bytes.last() as nat);
        assert(be_bytes(v, bytes.len()) =~= bytes);
    } else {
        assert(be_bytes(be_nat(bytes), 0) =~= bytes);
    }
}

/// Reading back the `len`-byte string of a number below `256^len` gives the
/// number.
pub proof fn lemma_be_nat_of_be_bytes(value: nat, len: nat)
    requires
        value < radix_pow(len),
    ensures
        be_nat(be_bytes(value, len)) == value,
    decreases len,
{
    if len > 0 {
        lemma_be_nat_of_be_bytes(value / 256, (len - 1) as nat);
        let s = be_bytes(value, len);
        assert(s.drop_last() =~= be_bytes(value / 256, (len - 1) as nat));
        assert(s.last() == (value % 256) as u8);
    }
}

/// Two strings of one length that denote the same number are the same
/// string.
pub proof fn lemma_be_nat_injective(a: Seq<u8>, b: Seq<u8>)
    requires
        a.len() == b.len(),
        be_nat(a) == be_nat(b),
    ensures
        a == b,
{
    lemma_be_bytes_of_be_nat(a);
    lemma_be_bytes_of_be_nat(b);
}

/// A string denotes zero exactly when every byte of it is zero.
pub proof fn lemma_be_nat_zero(bytes: Seq<u8>)
    ensures
        be_nat(bytes) == 0 <==> (forall|i: int| 0 <= i < bytes.len() ==> bytes[i] == 0),
    decreases bytes.len(),
{
    if bytes.len() > 0 {
        let init = bytes.drop_last();
        lemma_be_nat_zero(init);
        if be_nat(bytes) == 0 {
            assert(be_nat(init) == 0 && bytes.last() == 0);
            assert forall|i: int| 0 <= i < bytes.len() implies bytes[i] == 0 by {
                if i < init.len() {
                    assert(bytes[i] == init[i]);
                }
            }
        }
        if forall|i: int| 0 <= i < bytes.len() ==> bytes[i] == 0 {
            assert forall|i: int| 0 <= i < init.len() implies init[i] == 0 by {
                assert(init[i] == bytes[i]);
            }
            assert(bytes.last() == bytes[bytes.len() - 1]);
        }
    }
}

/// A fresh copy of `src[start..end]`.
pub fn sub_bytes(src: &[u8], start: usize, end: usize) -> (out: Vec<u8>)
    requires
        start <= end <= src@.len(),
    ensures
        out@ == src@.subrange(start as int, end as int),
{
    let mut out: Vec<u8> = Vec::new();
    let mut i: usize = start;
    while i < end
        invariant
            start <= i <= end <= src@.len(),
            out@ == src@.subrange(start as int, i as int),
        decreases end - i,
    {
        out.push(src[i]);
        i += 1;
        assert(out@ =~= src@.subrange(start as int, i as int));
    }
    out
}

/// A fresh copy of `src`.
pub fn copy_bytes(src: &[u8]) -> (out: Vec<u8>)
    ensures
        out@ == src@,
{
    let out = sub_bytes(src, 0, src.len());
    assert(src@.subrange(0, src@.len() as int) =~= src@);
    out
}

/// Appends `src` to `dst`.
pub fn append_bytes(dst: &mut Vec<u8>, src: &[u8])
    ensures
        final(dst)@ == old(dst)@ + src@,
{
    let ghost before = dst@;
    let mut i: usize = 0;
    while i < src.len()
        invariant
            i <= src@.len(),
            dst@ == before + src@.subrange(0, i as int),
        decreases src@.len() - i,
    {
        dst.push(src[i]);
        i += 1;
        assert(dst@ =~= before + src@.subrange(0, i as int));
    }
    assert(src@.subrange(0, src@.len() as int) =~= src@);
}

/// Whether two byte strings are the same string.
pub fn bytes_equal(a: &[u8], b: &[u8]) -> (same: bool)
    ensures
        same == (a@ == b@),
{
    if a.len() != b.len() {
        return false;
    }
    let mut i: usize = 0;
    while i < a.len()
        invariant
            i <= a@.len(),
            a@.len() == b@.len(),
            forall|j: int| 0 <= j < i ==> a@[j] == b@[j],
        decreases a@.len() - i,
    {
        if a[i] != b[i] {
            return false;
        }
        i += 1;
    }
    assert(a@ =~= b@);
    true
}

/// Whether a byte string denotes zero.
pub fn is_zero(bytes: &[u8]) -> (zero: bool)
    ensures
        zero == (be_nat(bytes@) == 0),
{
    let mut i: usize = 0;
    while i < bytes.len()
        invariant
            i <= bytes@.len(),
            forall|j: int| 0 <= j < i ==> bytes@[j] == 0,
        decreases bytes@.len() - i,
    {
        if bytes[i] != 0 {
            proof {
                lemma_be_nat_zero(bytes@);
            }
            return false;
        }
        i += 1;
    }
    proof {
        lemma_be_nat_zero(bytes@);
    }
    true
}

/// The four big-endian bytes of `value`.
pub fn u32_to_be_bytes(value: u32) -> (out: Vec<u8>)
    ensures
        out@ == be_bytes(value as nat, 4),
{
    let mut out: Vec<u8> = Vec::new();
    out.push((value / 16777216) as u8);
    out.push(((value / 65536) % 256) as u8);
    out.push(((value / 256) % 256) as u8);
    out.push((value % 256) as u8);
    proof {
        reveal_with_fuel(be_bytes, 5);
        assert(out@ =~= be_bytes(value as nat, 4));
    }
    out
}

/// The number that four bytes denote big-endian.
pub fn u32_from_be_bytes(bytes: &[u8]) -> (value: u32)
    requires
        bytes@.len() == 4,
    ensures
        value as nat == be_nat(bytes@),
{
    let b0: u32 = bytes[0] as u32;
    let b1: u32 = bytes[1] as u32;
    let b2: u32 = bytes[2] as u32;
    let b3: u32 = bytes[3] as u32;
    proof {
        let s = bytes@;
        let s3 = s.drop_last();
        let s2 = s3.drop_last();
        let s1 = s2.drop_last();
        assert(s1.drop_last().len() == 0);
        assert(be_nat(s1) == s[0] as nat) by {
            reveal_with_fuel(be_nat, 2);
        }
        assert(be_nat(s2) == be_nat(s1) * 256 + s[1] as nat);
        assert(be_nat(s3) == be_nat(s2) * 256 + s[2] as nat);
        assert(be_nat(s) == be_nat(s3) * 256 + s[3] as nat);
    }
    b0 * 16777216 + b1 * 65536 + b2 * 256 + b3
}

} // verus!
