//! Fixed-width integer encodings used in seeds and instruction payloads.

use vstd::prelude::*;

verus! {

/// Byte number `k` of `x`, counting from the least significant byte.
pub open spec fn byte_of(x: int, k: int) -> u8 {
    if k == 0 {
        (x % 0x100) as u8
    } else if k == 1 {
        ((x / 0x100) % 0x100) as u8
    } else if k == 2 {
        ((x / 0x1_0000) % 0x100) as u8
    } else if k == 3 {
        ((x / 0x100_0000) % 0x100) as u8
    } else if k == 4 {
        ((x / 0x1_0000_0000) % 0x100) as u8
    } else if k == 5 {
        ((x / 0x100_0000_0000) % 0x100) as u8
    } else if k == 6 {
        ((x / 0x1_0000_0000_0000) % 0x100) as u8
    } else {
        ((x / 0x100_0000_0000_0000) % 0x100) as u8
    }
}

/// The eight bytes of `x`, most significant first.
pub open spec fn u64_be_bytes(x: u64) -> Seq<u8> {
    Seq::new(8, |i: int| byte_of(x as int, 7 - i))
}

/// The eight bytes of `x`, least significant first.
pub open spec fn u64_le_bytes(x: u64) -> Seq<u8> {
    Seq::new(8, |i: int| byte_of(x as int, i))
}

/// The four bytes of `x`, least significant first.
pub open spec fn u32_le_bytes(x: u32) -> Seq<u8> {
    Seq::new(4, |i: int| byte_of(x as int, i))
}

/// The value whose bytes, least significant first, are `b0 .. b7`.
pub open spec fn u64_of_bytes(
    b0: u8,
    b1: u8,
    b2: u8,
    b3: u8,
    b4: u8,
    b5: u8,
    b6: u8,
    b7: u8,
) -> int {
    b0 + b1 * 0x100 + b2 * 0x1_0000 + b3 * 0x100_0000 + b4 * 0x1_0000_0000 + b5 * 0x100_0000_0000
        + b6 * 0x1_0000_0000_0000 + b7 * 0x100_0000_0000_0000
}

/// A 64-bit value is the sum of its bytes, each weighted by its place.
pub proof fn lemma_u64_from_its_bytes(x: u64)
    ensures
        x == u64_of_bytes(
            byte_of(x as int, 0),
            byte_of(x as int, 1),
            byte_of(x as int, 2),
            byte_of(x as int, 3),
            byte_of(x as int, 4),
            byte_of(x as int, 5),
            byte_of(x as int, 6),
            byte_of(x as int, 7),
        ),
{
    let x0 = x as int;
    let q1 = x0 / 0x100;
    let q2 = q1 / 0x100;
    let q3 = q2 / 0x100;
    let q4 = q3 / 0x100;
    let q5 = q4 / 0x100;
    let q6 = q5 / 0x100;
    let q7 = q6 / 0x100;
    assert(q2 == x0 / 0x1_0000);
    assert(q3 == x0 / 0x100_0000);
    assert(q4 == x0 / 0x1_0000_0000);
    assert(q5 == x0 / 0x100_0000_0000);
    assert(q6 == x0 / 0x1_0000_0000_0000);
    assert(q7 == x0 / 0x100_0000_0000_0000);
    assert(q7 < 0x100);
    assert(x0 == x0 % 0x100 + q1 * 0x100);
    assert(q1 == q1 % 0x100 + q2 * 0x100);
    assert(q2 == q2 % 0x100 + q3 * 0x100);
    assert(q3 == q3 % 0x100 + q4 * 0x100);
    assert(q4 == q4 % 0x100 + q5 * 0x100);
    assert(q5 == q5 % 0x100 + q6 * 0x100);
    assert(q6 == q6 % 0x100 + q7 * 0x100);
}

/// Distinct 64-bit values have distinct big-endian encodings.
pub proof fn lemma_u64_be_bytes_injective(x: u64, y: u64)
    requires
        u64_be_bytes(x) == u64_be_bytes(y),
    ensures
        x == y,
{
    let bx = u64_be_bytes(x);
    let by = u64_be_bytes(y);
    assert(forall|k: int| 0 <= k < 8 ==> byte_of(x as int, k) == byte_of(y as int, k)) by {
        assert forall|k: int| 0 <= k < 8 implies byte_of(x as int, k) == byte_of(y as int, k) by {
            assert(bx[7 - k] == byte_of(x as int, k));
            assert(by[7 - k] == byte_of(y as int, k));
        }
    }
    lemma_u64_from_its_bytes(x);
    lemma_u64_from_its_bytes(y);
}

/// The contents of a list of byte buffers.
pub open spec fn byte_strings(v: Seq<Vec<u8>>) -> Seq<Seq<u8>> {
    Seq::new(v.len(), |i: int| v[i]@)
}

/// Encodes `x` in eight bytes, most significant first.
pub fn u64_to_be_bytes(x: u64) -> (r: Vec<u8>)
    ensures
        r@ == u64_be_bytes(x),
{
    let mut out: Vec<u8> = Vec::new();
    out.push(((x / 0x100_0000_0000_0000) % 0x100) as u8);
    out.push(((x / 0x1_0000_0000_0000) % 0x100) as u8);
    out.push(((x / 0x100_0000_0000) % 0x100) as u8);
    out.push(((x / 0x1_0000_0000) % 0x100) as u8);
    out.push(((x / 0x100_0000) % 0x100) as u8);
    out.push(((x / 0x1_0000) % 0x100) as u8);
    out.push(((x / 0x100) % 0x100) as u8);
    out.push((x % 0x100) as u8);
    proof {
        assert(out@ =~= u64_be_bytes(x));
    }
    out
}

/// Encodes `x` in eight bytes, least significant first.
pub fn u64_to_le_bytes(x: u64) -> (r: Vec<u8>)
    ensures
        r@ == u64_le_bytes(x),
{
    let mut out: Vec<u8> = Vec::new();
    out.push((x % 0x100) as u8);
    out.push(((x / 0x100) % 0x100) as u8);
    out.push(((x / 0x1_0000) % 0x100) as u8);
    out.push(((x / 0x100_0000) % 0x100) as u8);
    out.push(((x / 0x1_0000_0000) % 0x100) as u8);
    out.push(((x / 0x100_0000_0000) % 0x100) as u8);
    out.push(((x / 0x1_0000_0000_0000) % 0x100) as u8);
    out.push(((x / 0x100_0000_0000_0000) % 0x100) as u8);
    proof {
        assert(out@ =~= u64_le_bytes(x));
    }
    out
}

/// Encodes `x` in four bytes, least significant first.
pub fn u32_to_le_bytes(x: u32) -> (r: Vec<u8>)
    ensures
        r@ == u32_le_bytes(x),
{
    let mut out: Vec<u8> = Vec::new();
    out.push((x % 0x100) as u8);
    out.push(((x / 0x100) % 0x100) as u8);
    out.push(((x / 0x1_0000) % 0x100) as u8);
    out.push(((x / 0x100_0000) % 0x100) as u8);
    proof {
        assert(out@ =~= u32_le_bytes(x));
    }
    out
}

/// Appends every byte of `src` to `dst`, in order.
pub fn extend_bytes(dst: &mut Vec<u8>, src: &Vec<u8>)
    ensures
        final(dst)@ == old(dst)@ + src@,
{
    let mut i: usize = 0;
    while i < src.len()
        invariant
            i <= src.len(),
            dst@ == old(dst)@ + src@.subrange(0, i as int),
        decreases src.len() - i,
    {
        dst.push(src[i]);
        proof {
            assert(dst@ =~= old(dst)@ + src@.subrange(0, i + 1));
        }
        i += 1;
    }
    proof {
        assert(src@.subrange(0, src.len() as int) =~= src@);
    }
}

} // verus!
