//! Canonical byte encodings used for hashing.

use vstd::prelude::*;

verus! {

/// The eight bytes of `n`, most significant first.
pub open spec fn u64_be(n: u64) -> Seq<u8> {
    Seq::new(8, |i: int| ((n >> ((56 - 8 * i) as u64)) & 0xff) as u8)
}

/// The four bytes of `n`, most significant first.
pub open spec fn u32_be(n: u32) -> Seq<u8> {
    Seq::new(4, |i: int| ((n >> ((24 - 8 * i) as u32)) & 0xff) as u32 as u8)
}

/// The ASCII decimal digits of `n`, without leading zeros ("0" for zero).
pub open spec fn decimal(n: nat) -> Seq<u8>
    decreases n,
{
    if n < 10 {
        seq![(48 + n) as u8]
    } else {
        decimal(n / 10).push((48 + n % 10) as u8)
    }
}

/// Appends the big-endian bytes of `n` to `out`.
pub fn push_u64_be(out: &mut Vec<u8>, n: u64)
    ensures
        final(out)@ == old(out)@ + u64_be(n),
{
    let ghost start = out@;
    let mut i: u64 = 0;
    while i < 8
        invariant
            i <= 8,
            out@ == start + u64_be(n).take(i as int),
        decreases 8 - i,
    {
        let b = ((n >> (56 - 8 * i)) & 0xff) as u8;
        out.push(b);
        proof {
            assert(u64_be(n).take(i as int + 1) =~= u64_be(n).take(i as int).push(b));
        }
        i = i + 1;
    }
    assert(u64_be(n).take(8) =~= u64_be(n));
}

/// Appends the big-endian bytes of `n` to `out`.
pub fn push_u32_be(out: &mut Vec<u8>, n: u32)
    ensures
        final(out)@ == old(out)@ + u32_be(n),
{
    let ghost start = out@;
    let mut i: u32 = 0;
    while i < 4
        invariant
            i <= 4,
            out@ == start + u32_be(n).take(i as int),
        decreases 4 - i,
    {
        let b = ((n >> (24 - 8 * i)) & 0xff) as u8;
        out.push(b);
        proof {
            assert(u32_be(n).take(i as int + 1) =~= u32_be(n).take(i as int).push(b));
        }
        i = i + 1;
    }
    assert(u32_be(n).take(4) =~= u32_be(n));
}

/// Appends every byte of `bytes` to `out`, in order.
pub fn push_bytes(out: &mut Vec<u8>, bytes: &[u8])
    ensures
        final(out)@ == old(out)@ + bytes@,
{
    let ghost start = out@;
    let mut i: usize = 0;
    while i < bytes.len()
        invariant
            i <= bytes@.len(),
            out@ == start + bytes@.take(i as int),
        decreases bytes@.len() - i,
    {
        out.push(bytes[i]);
        proof {
            assert(bytes@.take(i as int + 1) =~= bytes@.take(i as int).push(bytes@[i as int]));
        }
        i = i + 1;
    }
    assert(bytes@.take(bytes@.len() as int) =~= bytes@);
}

/// Appends the decimal digits of `n` to `out`.
pub fn push_decimal(out: &mut Vec<u8>, n: u64)
    ensures
        final(out)@ == old(out)@ + decimal(n as nat),
    decreases n,
{
    let ghost start = out@;
    if n >= 10 {
        push_decimal(out, n / 10);
    }
    let d = (48 + n % 10) as u8;
    out.push(d);
    proof {
        if n >= 10 {
            assert(start + decimal(n as nat) =~= (start + decimal((n / 10) as nat)).push(d));
        } else {
            assert(start + decimal(n as nat) =~= start.push(d));
        }
    }
}

} // verus!
