use vstd::prelude::*;

verus! {

/// The unsigned 32-bit little-endian integer stored at `off`.
pub open spec fn le_u32(b: Seq<u8>, off: int) -> int {
    b[off] + 256 * b[off + 1] + 65536 * b[off + 2] + 16777216 * b[off + 3]
}

/// The unsigned 64-bit little-endian integer stored at `off`.
pub open spec fn le_u64(b: Seq<u8>, off: int) -> int {
    le_u32(b, off) + 4294967296 * le_u32(b, off + 4)
}

/// Reads a little-endian `u32` at `off`.
pub fn read_u32(buf: &[u8], off: usize) -> (r: u32)
    requires
        off + 4 <= buf@.len(),
    ensures
        r as int == le_u32(buf@, off as int),
{
    let b0 = buf[off] as u32;
    let b1 = buf[off + 1] as u32;
    let b2 = buf[off + 2] as u32;
    let b3 = buf[off + 3] as u32;
    b0 + 256 * b1 + 65536 * b2 + 16777216 * b3
}

/// Reads a little-endian `u64` at `off`.
pub fn read_u64(buf: &[u8], off: usize) -> (r: u64)
    requires
        off + 8 <= buf@.len(),
    ensures
        r as int == le_u64(buf@, off as int),
{
    let _n = buf.len();
    let lo = read_u32(buf, off) as u64;
    let hi = read_u32(buf, off + 4) as u64;
    lo + 4294967296 * hi
}

/// Copies `len` bytes starting at `off`.
pub fn read_bytes(buf: &[u8], off: usize, len: usize) -> (r: Vec<u8>)
    requires
        off + len <= buf@.len(),
    ensures
        r@ == buf@.subrange(off as int, off + len),
{
    let _n = buf.len();
    let mut out: Vec<u8> = Vec::new();
    let mut i: usize = 0;
    while i < len
        invariant
            off + len <= buf@.len(),
            buf@.len() <= usize::MAX,
            i <= len,
            out@ == buf@.subrange(off as int, off + i),
        decreases len - i,
    {
        out.push(buf[off + i]);
        i = i + 1;
        assert(out@ =~= buf@.subrange(off as int, off + i));
    }
    out
}

/// Appends `x` as four little-endian bytes.
pub fn push_u32(out: &mut Vec<u8>, x: u32)
    ensures
        final(out)@.len() == old(out)@.len() + 4,
        final(out)@.subrange(0, old(out)@.len() as int) == old(out)@,
        le_u32(final(out)@, old(out)@.len() as int) == x,
{
    let b0 = (x % 256) as u8;
    let r1 = x / 256;
    let b1 = (r1 % 256) as u8;
    let r2 = r1 / 256;
    let b2 = (r2 % 256) as u8;
    let b3 = (r2 / 256) as u8;
    let ghost n = old(out)@.len() as int;
    out.push(b0);
    out.push(b1);
    out.push(b2);
    out.push(b3);
    assert(out@.subrange(0, n) =~= old(out)@);
    assert(out@[n] == b0 && out@[n + 1] == b1 && out@[n + 2] == b2 && out@[n + 3] == b3);
}

/// Appends `x` as eight little-endian bytes.
pub fn push_u64(out: &mut Vec<u8>, x: u64)
    ensures
        final(out)@.len() == old(out)@.len() + 8,
        final(out)@.subrange(0, old(out)@.len() as int) == old(out)@,
        le_u64(final(out)@, old(out)@.len() as int) == x,
{
    let ghost n = old(out)@.len() as int;
    let lo = (x % 4294967296) as u32;
    let hi = (x / 4294967296) as u32;
    push_u32(out, lo);
    let ghost mid = out@;
    push_u32(out, hi);
    assert(out@.subrange(0, n) =~= old(out)@) by {
        assert(out@.subrange(0, n + 4) == mid);
        assert(mid.subrange(0, n) == old(out)@);
        assert(out@.subrange(0, n) =~= out@.subrange(0, n + 4).subrange(0, n));
    }
    assert(le_u32(out@, n) == lo) by {
        assert(out@.subrange(0, n + 4) == mid);
        assert(forall|k: int| 0 <= k < n + 4 ==> out@[k] == #[trigger] mid[k]) by {
            assert forall|k: int| 0 <= k < n + 4 implies out@[k] == #[trigger] mid[k] by {
                assert(out@.subrange(0, n + 4)[k] == out@[k]);
            }
        }
    }
}

/// Appends the bytes of `src`.
pub fn push_bytes(out: &mut Vec<u8>, src: &[u8])
    ensures
        final(out)@ == old(out)@ + src@,
{
    let mut i: usize = 0;
    while i < src.len()
        invariant
            i <= src@.len(),
            out@ == old(out)@ + src@.subrange(0, i as int),
        decreases src@.len() - i,
    {
        out.push(src[i]);
        i = i + 1;
        assert(out@ =~= old(out)@ + src@.subrange(0, i as int));
    }
    assert(src@.subrange(0, i as int) =~= src@);
}

} // verus!
