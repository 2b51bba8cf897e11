//! Small verified helpers on byte vectors: slicing into owned buffers,
//! appending, constant-time comparison, XOR, and big-endian 16-bit fields.

use vstd::prelude::*;

verus! {

/// The two big-endian bytes of a 16-bit value.
pub open spec fn be2(n: int) -> Seq<u8> {
    seq![((n / 256) % 256) as u8, (n % 256) as u8]
}

/// The 16-bit value read from two big-endian bytes.
pub open spec fn be16_val(hi: u8, lo: u8) -> int {
    hi * 256 + lo
}

/// The sequence of `a` with each byte XORed against the byte of `b` at the
/// same position.
pub open spec fn xor_seq(a: Seq<u8>, b: Seq<u8>) -> Seq<u8>
    recommends
        a.len() == b.len(),
{
    Seq::new(a.len(), |i: int| a[i] ^ b[i])
}

/// Encodes a 16-bit value as its two big-endian bytes.
pub fn u16_be_bytes(n: u16) -> (r: Vec<u8>)
    ensures
        r@ == be2(n as int),
{
    let hi: u8 = (n / 256) as u8;
    let lo: u8 = (n % 256) as u8;
    let mut v: Vec<u8> = Vec::new();
    v.push(hi);
    v.push(lo);
    assert(v@ =~= be2(n as int));
    v
}

/// Reads a 16-bit value from two big-endian bytes.
pub fn u16_from_be(hi: u8, lo: u8) -> (r: u16)
    ensures
        r as int == be16_val(hi, lo),
{
    (hi as u16) * 256 + (lo as u16)
}

/// Copies `data[start..end]` into an owned vector.
pub fn sub_vec(data: &[u8], start: usize, end: usize) -> (r: Vec<u8>)
    requires
        start <= end,
        end <= data@.len(),
    ensures
        r@ == data@.subrange(start as int, end as int),
{
    let mut r: Vec<u8> = Vec::new();
    let mut i: usize = start;
    while i < end
        invariant
            start <= i <= end,
            end <= data@.len(),
            r@ == data@.subrange(start as int, i as int),
        decreases end - i,
    {
        r.push(data[i]);
        i = i + 1;
        assert(r@ =~= data@.subrange(start as int, i as int));
    }
    r
}

/// Appends every byte of `src` to `dst`.
pub fn append_slice(dst: &mut Vec<u8>, src: &[u8])
    ensures
        final(dst)@ == old(dst)@ + src@,
{
    let mut i: usize = 0;
    while i < src.len()
        invariant
            i <= src@.len(),
            dst@ == old(dst)@ + src@.subrange(0, i as int),
        decreases src@.len() - i,
    {
        dst.push(src[i]);
        i = i + 1;
        assert(dst@ =~= old(dst)@ + src@.subrange(0, i as int));
    }
    assert(dst@ =~= old(dst)@ + src@);
}

/// Compares two byte slices without an early exit, so that the time taken
/// does not depend on where the first difference lies.
pub fn bytes_eq(a: &[u8], b: &[u8]) -> (r: bool)
    ensures
        r == (a@ == b@),
{
    if a.len() != b.len() {
        return false;
    }
    let mut diff: u8 = 0;
    let mut i: usize = 0;
    assert(a@.subrange(0, 0) =~= b@.subrange(0, 0));
    while i < a.len()
        invariant
            i <= a@.len(),
            a@.len() == b@.len(),
            diff == 0 <==> a@.subrange(0, i as int) == b@.subrange(0, i as int),
        decreases a@.len() - i,
    {
        let ghost pre = diff;
        diff = diff | (a[i] ^ b[i]);
        proof {
            let ai = a@[i as int];
            let bi = b@[i as int];
            assert(diff == 0 <==> (pre == 0 && (ai ^ bi) == 0)) by (bit_vector)
                requires diff == pre | (ai ^ bi);
            assert((ai ^ bi) == 0 <==> ai == bi) by (bit_vector);
            if pre == 0 && ai == bi {
                assert(a@.subrange(0, i + 1) =~= a@.subrange(0, i as int).push(ai));
                assert(b@.subrange(0, i + 1) =~= b@.subrange(0, i as int).push(bi));
            }
            if a@.subrange(0, i + 1) == b@.subrange(0, i + 1) {
                assert(a@.subrange(0, i as int) =~= a@.subrange(0, i + 1).subrange(0, i as int));
                assert(b@.subrange(0, i as int) =~= b@.subrange(0, i + 1).subrange(0, i as int));
                assert(ai == a@.subrange(0, i + 1)[i as int]);
            }
        }
        i = i + 1;
    }
    proof {
        assert(a@.subrange(0, a@.len() as int) =~= a@);
        assert(b@.subrange(0, b@.len() as int) =~= b@);
    }
    diff == 0
}

/// XORs two equal-length byte vectors position by position.
pub fn xor_bytes(a: &Vec<u8>, b: &Vec<u8>) -> (r: Vec<u8>)
    requires
        a@.len() == b@.len(),
    ensures
        r@ == xor_seq(a@, b@),
{
    let mut r: Vec<u8> = Vec::new();
    let mut i: usize = 0;
    while i < a.len()
        invariant
            i <= a@.len(),
            a@.len() == b@.len(),
            r@ == xor_seq(a@, b@).subrange(0, i as int),
        decreases a@.len() - i,
    {
        r.push(a[i] ^ b[i]);
        i = i + 1;
        assert(r@ =~= xor_seq(a@, b@).subrange(0, i as int));
    }
    assert(r@ =~= xor_seq(a@, b@));
    r
}

} // verus!
