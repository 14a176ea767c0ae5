//! Byte and slice helpers shared by the frame and sequence builders.

use vstd::prelude::*;

verus! {

/// `n` zero bytes.
pub open spec fn zeros(n: nat) -> Seq<u8> {
    Seq::new(n, |i: int| 0u8)
}

/// `n` bytes of 0xFF.
pub open spec fn ones(n: nat) -> Seq<u8> {
    Seq::new(n, |i: int| 0xFFu8)
}

/// Little-endian encoding of a 16-bit value.
pub open spec fn le16(v: u16) -> Seq<u8> {
    seq![(v & 0xff) as u8, (v >> 8) as u8]
}

/// Little-endian encoding of a 32-bit value.
pub open spec fn le32(v: u32) -> Seq<u8> {
    seq![(v & 0xff) as u8, ((v >> 8) & 0xff) as u8, ((v >> 16) & 0xff) as u8, (v >> 24) as u8]
}

/// The 32-bit value whose little-endian encoding is `b[0..4]`.
pub open spec fn from_le32(b: Seq<u8>) -> u32 {
    (b[0] as u32) | ((b[1] as u32) << 8) | ((b[2] as u32) << 16) | ((b[3] as u32) << 24)
}

/// Reading back the little-endian encoding of a 32-bit value gives the value.
pub proof fn lemma_le32_roundtrip(v: u32)
    ensures
        le32(v).len() == 4,
        from_le32(le32(v)) == v,
{
    assert((((v & 0xff) as u8) as u32) | (((((v >> 8) & 0xff) as u8) as u32) << 8) | (((((v >> 16)
        & 0xff) as u8) as u32) << 16) | ((((v >> 24) as u8) as u32) << 24) == v) by (bit_vector);
}

/// Outcome of writing `frame` to the front of a buffer that held `before` and
/// holds `after` once the call returns `r`: `Ok(frame.len())` with the frame
/// in front and the tail untouched when the frame fits, `Err(-28)` (ENOSPC)
/// with the buffer untouched when it does not.
pub open spec fn frame_written<T>(before: Seq<T>, after: Seq<T>, r: Result<usize, i32>, frame: Seq<T>) -> bool {
    match r {
        Ok(n) => {
            &&& before.len() >= frame.len()
            &&& n == frame.len()
            &&& after == frame + before.skip(n as int)
        },
        Err(e) => {
            &&& before.len() < frame.len()
            &&& e == -28
            &&& after == before
        },
    }
}

/// Little-endian bytes of a 32-bit value.
pub(crate) fn le32_bytes(v: u32) -> (r: [u8; 4])
    ensures
        r@ == le32(v),
{
    let r = [(v & 0xff) as u8, ((v >> 8) & 0xff) as u8, ((v >> 16) & 0xff) as u8, (v >> 24) as u8];
    assert(r@ =~= le32(v));
    r
}

/// Copies `src` to the front of `dst`; the rest of `dst` is left as it was.
pub fn copy_bytes(dst: &mut [u8], src: &[u8])
    requires
        old(dst)@.len() >= src@.len(),
    ensures
        final(dst)@ == src@ + old(dst)@.skip(src@.len() as int),
{
    write_at(dst, 0, src);
    assert(old(dst)@.take(0) + src@ =~= src@);
}

/// Overwrites `out[pos..pos + src.len()]` with `src`.
pub(crate) fn write_at<T: Copy>(out: &mut [T], pos: usize, src: &[T])
    requires
        pos + src@.len() <= old(out)@.len(),
    ensures
        final(out)@ == old(out)@.take(pos as int) + src@ + old(out)@.skip(pos + src@.len()),
{
    let n = src.len();
    assert(out@.len() == out.len());
    let mut i: usize = 0;
    while i < n
        invariant
            n == src@.len(),
            i <= n,
            pos + n <= old(out)@.len(),
            out@.len() == old(out)@.len(),
            pos + n <= out.len(),
            out@ == old(out)@.take(pos as int) + src@.take(i as int) + old(out)@.skip(pos + i),
        decreases n - i,
    {
        out[pos + i] = src[i];
        proof {
            assert(src@.take(i + 1) =~= src@.take(i as int).push(src@[i as int]));
            assert(out@ =~= old(out)@.take(pos as int) + src@.take(i + 1) + old(out)@.skip(
                pos + i + 1,
            ));
        }
        i = i + 1;
    }
    assert(src@.take(n as int) =~= src@);
}

/// Sequential writing: appending `src` right after the `done` prefix keeps the
/// untouched tail of the buffer it started from.
pub(crate) fn append_at<T: Copy>(
    out: &mut [T],
    pos: usize,
    src: &[T],
    Ghost(done): Ghost<Seq<T>>,
    Ghost(orig): Ghost<Seq<T>>,
)
    requires
        done.len() == pos,
        old(out)@ == done + orig.skip(pos as int),
        pos + src@.len() <= orig.len(),
    ensures
        final(out)@ == (done + src@) + orig.skip(pos + src@.len()),
{
    write_at(out, pos, src);
    proof {
        let o = old(out)@;
        assert(o.take(pos as int) =~= done);
        assert(o.skip(pos + src@.len()) =~= orig.skip(pos + src@.len()));
        assert(done + src@ + orig.skip(pos + src@.len()) =~= (done + src@) + orig.skip(
            pos + src@.len(),
        ));
    }
}

} // verus!
