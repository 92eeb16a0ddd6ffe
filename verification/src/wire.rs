//! Big-endian wire primitives.
//!
//! All multi-byte integers in the MRT format are big-endian. The readers here
//! work on a byte slice with an explicit cursor position: on success the
//! cursor advances past the bytes consumed, on a short read it is left where
//! it was and [`MrtError::Framing`] is returned.

use vstd::prelude::*;

use crate::MrtError;

verus! {

/// The unsigned integer stored big-endian in the `n` bytes of `s` starting
/// at index `i` (first byte most significant).
pub open spec fn be_uint(s: Seq<u8>, i: int, n: nat) -> int
    decreases n,
{
    if n == 0 {
        0
    } else {
        be_uint(s, i, (n - 1) as nat) * 256 + s[i + n - 1]
    }
}

/// 256 to the power `n`: the number of values `n` bytes can hold.
pub open spec fn pow256(n: nat) -> int
    decreases n,
{
    if n == 0 {
        1
    } else {
        256 * pow256((n - 1) as nat)
    }
}

/// A big-endian value of `n` bytes lies in `[0, pow256(n))`.
pub proof fn lemma_be_uint_bounds(s: Seq<u8>, i: int, n: nat)
    requires
        0 <= i,
        i + n <= s.len(),
    ensures
        0 <= be_uint(s, i, n) < pow256(n),
    decreases n,
{
    if n > 0 {
        lemma_be_uint_bounds(s, i, (n - 1) as nat);
    }
}

/// Two byte ranges that hold the same bytes encode the same value.
pub proof fn lemma_be_uint_agree(s1: Seq<u8>, i1: int, s2: Seq<u8>, i2: int, n: nat)
    requires
        0 <= i1,
        i1 + n <= s1.len(),
        0 <= i2,
        i2 + n <= s2.len(),
        forall|k: int| 0 <= k < n ==> s1[i1 + k] == #[trigger] s2[i2 + k],
    ensures
        be_uint(s1, i1, n) == be_uint(s2, i2, n),
    decreases n,
{
    if n > 0 {
        lemma_be_uint_agree(s1, i1, s2, i2, (n - 1) as nat);
        assert(s1[i1 + (n - 1)] == s2[i2 + (n - 1)]);
    }
}

/// `a - b`, stopping at zero. Every derived trailing-field length in the MRT
/// format uses this: a body shorter than its fixed fields yields a
/// zero-length trailing field, never an underflow.
pub open spec fn sat_sub(a: int, b: int) -> int {
    if a >= b {
        a - b
    } else {
        0
    }
}

/// Saturating subtraction on `u32`.
pub fn sat_sub_u32(a: u32, b: u32) -> (r: u32)
    ensures
        r == sat_sub(a as int, b as int),
{
    if a >= b {
        a - b
    } else {
        0
    }
}

/// Read `n` big-endian bytes (at most 16) as an unsigned integer.
pub fn read_be(buf: &[u8], pos: &mut usize, n: usize) -> (r: Result<u128, MrtError>)
    requires
        *old(pos) <= buf@.len(),
        n <= 16,
    ensures
        match r {
            Ok(v) => {
                &&& *old(pos) + n <= buf@.len()
                &&& v as int == be_uint(buf@, *old(pos) as int, n as nat)
                &&& *final(pos) == *old(pos) + n
            },
            Err(e) => {
                &&& e == MrtError::Framing
                &&& *old(pos) + n > buf@.len()
                &&& *final(pos) == *old(pos)
            },
        },
{
    let start: usize = *pos;
    if n > buf.len() - start {
        return Err(MrtError::Framing);
    }
    proof {
        lemma_be_uint_bounds(buf@, start as int, n as nat);
    }
    let mut acc: u128 = 0;
    let mut k: usize = 0;
    while k < n
        invariant
            start + n <= buf@.len(),
            buf@.len() <= usize::MAX,
            n <= 16,
            k <= n,
            acc as int == be_uint(buf@, start as int, k as nat),
            acc < pow256(k as nat),
        decreases n - k,
    {
        proof {
            assert(pow256(k as nat) * 256 == pow256((k + 1) as nat)) by {
                assert(pow256((k + 1) as nat) == 256 * pow256(k as nat));
            }
            assert(pow256((k + 1) as nat) <= pow256(16)) by {
                lemma_pow256_increases(k as nat + 1, 16);
            }
            assert(pow256(16) == 0x100000000000000000000000000000000int) by {
                reveal_with_fuel(pow256, 17);
            }
        }
        acc = acc * 256 + (buf[start + k] as u128);
        k = k + 1;
    }
    *pos = start + n;
    Ok(acc)
}

/// `pow256` is monotone in its exponent.
pub proof fn lemma_pow256_increases(a: nat, b: nat)
    requires
        a <= b,
    ensures
        pow256(a) <= pow256(b),
    decreases b,
{
    if a < b {
        lemma_pow256_increases(a, (b - 1) as nat);
        assert(pow256(b) == 256 * pow256((b - 1) as nat));
        assert(pow256((b - 1) as nat) >= 1) by {
            lemma_pow256_increases(0, (b - 1) as nat);
        }
    }
}

/// Read one byte.
pub fn read_u8(buf: &[u8], pos: &mut usize) -> (r: Result<u8, MrtError>)
    requires
        *old(pos) <= buf@.len(),
    ensures
        match r {
            Ok(v) => {
                &&& *old(pos) + 1 <= buf@.len()
                &&& v as int == be_uint(buf@, *old(pos) as int, 1)
                &&& *final(pos) == *old(pos) + 1
            },
            Err(e) => {
                &&& e == MrtError::Framing
                &&& *old(pos) + 1 > buf@.len()
                &&& *final(pos) == *old(pos)
            },
        },
{
    let ghost start = *pos as int;
    match read_be(buf, pos, 1) {
        Ok(v) => {
            proof {
                lemma_be_uint_bounds(buf@, start, 1);
                reveal_with_fuel(pow256, 2);
            }
            Ok(v as u8)
        },
        Err(e) => Err(e),
    }
}

/// Read a big-endian 16-bit integer.
pub fn read_u16(buf: &[u8], pos: &mut usize) -> (r: Result<u16, MrtError>)
    requires
        *old(pos) <= buf@.len(),
    ensures
        match r {
            Ok(v) => {
                &&& *old(pos) + 2 <= buf@.len()
                &&& v as int == be_uint(buf@, *old(pos) as int, 2)
                &&& *final(pos) == *old(pos) + 2
            },
            Err(e) => {
                &&& e == MrtError::Framing
                &&& *old(pos) + 2 > buf@.len()
                &&& *final(pos) == *old(pos)
            },
        },
{
    let ghost start = *pos as int;
    match read_be(buf, pos, 2) {
        Ok(v) => {
            proof {
                lemma_be_uint_bounds(buf@, start, 2);
                reveal_with_fuel(pow256, 3);
            }
            Ok(v as u16)
        },
        Err(e) => Err(e),
    }
}

/// Read a big-endian 32-bit integer.
pub fn read_u32(buf: &[u8], pos: &mut usize) -> (r: Result<u32, MrtError>)
    requires
        *old(pos) <= buf@.len(),
    ensures
        match r {
            Ok(v) => {
                &&& *old(pos) + 4 <= buf@.len()
                &&& v as int == be_uint(buf@, *old(pos) as int, 4)
                &&& *final(pos) == *old(pos) + 4
            },
            Err(e) => {
                &&& e == MrtError::Framing
                &&& *old(pos) + 4 > buf@.len()
                &&& *final(pos) == *old(pos)
            },
        },
{
    let ghost start = *pos as int;
    match read_be(buf, pos, 4) {
        Ok(v) => {
            proof {
                lemma_be_uint_bounds(buf@, start, 4);
                reveal_with_fuel(pow256, 5);
            }
            Ok(v as u32)
        },
        Err(e) => Err(e),
    }
}

/// Read a big-endian 128-bit integer.
pub fn read_u128(buf: &[u8], pos: &mut usize) -> (r: Result<u128, MrtError>)
    requires
        *old(pos) <= buf@.len(),
    ensures
        match r {
            Ok(v) => {
                &&& *old(pos) + 16 <= buf@.len()
                &&& v as int == be_uint(buf@, *old(pos) as int, 16)
                &&& *final(pos) == *old(pos) + 16
            },
            Err(e) => {
                &&& e == MrtError::Framing
                &&& *old(pos) + 16 > buf@.len()
                &&& *final(pos) == *old(pos)
            },
        },
{
    read_be(buf, pos, 16)
}

/// Read `n` raw bytes into a fresh vector.
pub fn read_bytes(buf: &[u8], pos: &mut usize, n: usize) -> (r: Result<Vec<u8>, MrtError>)
    requires
        *old(pos) <= buf@.len(),
    ensures
        match r {
            Ok(v) => {
                &&& *old(pos) + n <= buf@.len()
                &&& v@ == buf@.subrange(*old(pos) as int, *old(pos) + n)
                &&& *final(pos) == *old(pos) + n
            },
            Err(e) => {
                &&& e == MrtError::Framing
                &&& *old(pos) + n > buf@.len()
                &&& *final(pos) == *old(pos)
            },
        },
{
    let start: usize = *pos;
    if n > buf.len() - start {
        return Err(MrtError::Framing);
    }
    let mut v: Vec<u8> = Vec::with_capacity(n);
    let mut k: usize = 0;
    while k < n
        invariant
            start + n <= buf@.len(),
            buf@.len() <= usize::MAX,
            k <= n,
            v@ == buf@.subrange(start as int, start + k),
        decreases n - k,
    {
        v.push(buf[start + k]);
        proof {
            assert(v@ =~= buf@.subrange(start as int, start + k + 1));
        }
        k = k + 1;
    }
    *pos = start + n;
    Ok(v)
}

/// Read `n` raw bytes into a caller-owned vector, replacing its contents.
///
/// The vector's backing storage is reused when its capacity already covers
/// `n`; the logical contents afterwards are exactly the bytes just read, so
/// no stale byte is ever exposed.
pub fn read_bytes_into(buf: &[u8], pos: &mut usize, n: usize, out: &mut Vec<u8>) -> (r: Result<
    (),
    MrtError,
>)
    requires
        *old(pos) <= buf@.len(),
    ensures
        match r {
            Ok(()) => {
                &&& *old(pos) + n <= buf@.len()
                &&& final(out)@ == buf@.subrange(*old(pos) as int, *old(pos) + n)
                &&& *final(pos) == *old(pos) + n
            },
            Err(e) => {
                &&& e == MrtError::Framing
                &&& *old(pos) + n > buf@.len()
                &&& *final(pos) == *old(pos)
                &&& final(out)@ == old(out)@
            },
        },
{
    let start: usize = *pos;
    if n > buf.len() - start {
        return Err(MrtError::Framing);
    }
    out.clear();
    out.reserve(n);
    let mut k: usize = 0;
    while k < n
        invariant
            start + n <= buf@.len(),
            buf@.len() <= usize::MAX,
            k <= n,
            out@ == buf@.subrange(start as int, start + k),
        decreases n - k,
    {
        out.push(buf[start + k]);
        proof {
            assert(out@ =~= buf@.subrange(start as int, start + k + 1));
        }
        k = k + 1;
    }
    *pos = start + n;
    Ok(())
}

} // verus!
