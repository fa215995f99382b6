//! Byte buffers with exact contents.
use vstd::prelude::*;

verus! {

/// `n` zero bytes.
pub fn zeroed(n: usize) -> (r: Vec<u8>)
    ensures
        r@ == Seq::new(n as nat, |i: int| 0u8),
{
    let mut v: Vec<u8> = Vec::new();
    let mut i: usize = 0;
    while i < n
        invariant
            i <= n,
            v@ == Seq::new(i as nat, |k: int| 0u8),
        decreases n - i,
    {
        v.push(0);
        i = i + 1;
        assert(v@ =~= Seq::new(i as nat, |k: int| 0u8));
    }
    v
}

/// The `len` bytes of `src` that start at `start`.
pub fn copy_range(src: &Vec<u8>, start: usize, len: usize) -> (r: Vec<u8>)
    requires
        start + len <= src@.len(),
    ensures
        r@ == src@.subrange(start as int, start + len),
{
    let n = src.len();
    let mut v: Vec<u8> = Vec::new();
    let mut i: usize = 0;
    while i < len
        invariant
            i <= len,
            n == src@.len(),
            start + len <= n,
            v@ == src@.subrange(start as int, start + i),
        decreases len - i,
    {
        v.push(src[start + i]);
        i = i + 1;
        assert(v@ =~= src@.subrange(start as int, start + i));
    }
    v
}

/// `a & m` never exceeds the mask.
pub proof fn lemma_and_le_u16(a: u16, m: u16)
    ensures
        a & m <= m,
        a & m <= a,
{
    assert(a & m <= m && a & m <= a) by (bit_vector);
}

} // verus!
