use byteorder::{BigEndian, ByteOrder};
use vstd::prelude::*;
use vstd::slice::{slice_subrange, slice_to_vec};

verus! {

/// The largest payload a receiver accepts, in bytes.
pub const MAX_FRAME_LEN: usize = 1024;

/// The length of a frame's header: one big-endian `u64`.
pub const HEADER_LEN: usize = 8;

/// The big-endian value of the eight bytes of `b` from `i` on.
pub open spec fn be64(b: Seq<u8>, i: int) -> int {
    b[i] as int * 0x100_0000_0000_0000 + b[i + 1] as int * 0x1_0000_0000_0000
        + b[i + 2] as int * 0x100_0000_0000 + b[i + 3] as int * 0x1_0000_0000
        + b[i + 4] as int * 0x100_0000 + b[i + 5] as int * 0x1_0000
        + b[i + 6] as int * 0x100 + b[i + 7] as int
}

/// `frame` is `payload` behind a header that holds its length.
pub open spec fn is_frame_of(frame: Seq<u8>, payload: Seq<u8>) -> bool {
    frame.len() == 8 + payload.len() && be64(frame, 0) == payload.len()
        && frame.subrange(8, frame.len() as int) == payload
}

/// Why bytes do not hold an acceptable frame.
#[derive(Debug, Clone, Copy, PartialEq, Eq, Structural)]
pub enum FrameError {
    /// Fewer than eight bytes: no header.
    ShortHeader,
    /// The header declares more than the receiver accepts.
    TooLarge(u64),
    /// The header declares more bytes than follow it.
    Truncated,
}

/// What a receiver that accepts at most `max_len` bytes takes from a header.
pub open spec fn header_len(header: Seq<u8>, max_len: usize) -> Result<usize, FrameError> {
    if be64(header, 0) > max_len {
        Err(FrameError::TooLarge(be64(header, 0) as u64))
    } else {
        Ok(be64(header, 0) as usize)
    }
}

/// The payload that `bytes` carry as one frame, for a receiver that accepts at
/// most `max_len` bytes: the declared length is checked before the payload.
pub open spec fn decoded(bytes: Seq<u8>, max_len: usize) -> Result<Seq<u8>, FrameError> {
    if bytes.len() < 8 {
        Err(FrameError::ShortHeader)
    } else {
        match header_len(bytes, max_len) {
            Err(e) => Err(e),
            Ok(n) => if bytes.len() - 8 < n {
                Err(FrameError::Truncated)
            } else {
                Ok(bytes.subrange(8, 8 + n))
            },
        }
    }
}

/// Relies on byteorder's `BigEndian::read_u64`: the first eight bytes, most
/// significant first.
#[verifier::external_body]
fn read_be_u64(buf: &[u8]) -> (r: u64)
    requires
        buf@.len() >= 8,
    ensures
        r as int == be64(buf@, 0),
{
    BigEndian::read_u64(buf)
}

/// Relies on byteorder's `BigEndian::write_u64`: `n` goes into the first eight
/// bytes, most significant first; the rest stays.
#[verifier::external_body]
fn write_be_u64(buf: &mut Vec<u8>, n: u64)
    requires
        old(buf)@.len() >= 8,
    ensures
        final(buf)@.len() == old(buf)@.len(),
        be64(final(buf)@, 0) == n,
        final(buf)@.subrange(8, final(buf)@.len() as int) == old(buf)@.subrange(
            8,
            old(buf)@.len() as int,
        ),
{
    BigEndian::write_u64(buf.as_mut_slice(), n)
}

proof fn lemma_be64_bound(b: Seq<u8>, i: int)
    requires
        0 <= i,
        i + 8 <= b.len(),
    ensures
        0 <= be64(b, i) < 0x1_0000_0000_0000_0000,
{
}

/// Reads a frame header and checks the declared length against `max_len`.
pub fn frame_len(header: &[u8; 8], max_len: usize) -> (r: Result<usize, FrameError>)
    ensures
        r == header_len(header@, max_len),
        r is Err <==> be64(header@, 0) > max_len,
{
    proof {
        lemma_be64_bound(header@, 0);
    }
    let n = read_be_u64(vstd::array::array_as_slice(header));
    if n > max_len as u64 {
        Err(FrameError::TooLarge(n))
    } else {
        Ok(n as usize)
    }
}

/// Frames a payload: its length as a big-endian `u64`, then the payload.
pub fn encode_frame(payload: &[u8]) -> (r: Vec<u8>)
    requires
        8 + payload@.len() <= usize::MAX,
    ensures
        is_frame_of(r@, payload@),
{
    let mut out: Vec<u8> = vec![0u8; 8];
    let mut i: usize = 0;
    while i < payload.len()
        invariant
            i <= payload@.len(),
            out@.len() == 8 + i,
            out@.subrange(8, out@.len() as int) == payload@.subrange(0, i as int),
        decreases payload@.len() - i,
    {
        out.push(payload[i]);
        assert(out@.subrange(8, out@.len() as int) =~= payload@.subrange(0, i + 1));
        i = i + 1;
    }
    assert(payload@.subrange(0, payload@.len() as int) =~= payload@);
    write_be_u64(&mut out, payload.len() as u64);
    out
}

/// Takes one frame from the start of `bytes`, for a receiver that accepts at
/// most `max_len` bytes.
pub fn decode_frame(bytes: &[u8], max_len: usize) -> (r: Result<Vec<u8>, FrameError>)
    ensures
        match r {
            Ok(p) => decoded(bytes@, max_len) == Ok::<Seq<u8>, FrameError>(p@),
            Err(e) => decoded(bytes@, max_len) == Err::<Seq<u8>, FrameError>(e),
        },
{
    if bytes.len() < HEADER_LEN {
        return Err(FrameError::ShortHeader);
    }
    proof {
        lemma_be64_bound(bytes@, 0);
    }
    let n = read_be_u64(bytes);
    if n > max_len as u64 {
        return Err(FrameError::TooLarge(n));
    }
    let n = n as usize;
    if bytes.len() - HEADER_LEN < n {
        return Err(FrameError::Truncated);
    }
    Ok(slice_to_vec(slice_subrange(bytes, HEADER_LEN, HEADER_LEN + n)))
}

/// Framing loses nothing: the frame of a payload that the receiver accepts
/// decodes to that payload.
pub proof fn lemma_frame_round_trip(frame: Seq<u8>, payload: Seq<u8>, max_len: usize)
    requires
        is_frame_of(frame, payload),
        payload.len() <= max_len,
    ensures
        decoded(frame, max_len) == Ok::<Seq<u8>, FrameError>(payload),
{
}

/// A header that declares more than `max_len` ends the frame whatever follows
/// it, present or not.
pub proof fn lemma_oversized_frame_rejected(bytes: Seq<u8>, max_len: usize)
    requires
        bytes.len() >= 8,
        be64(bytes, 0) > max_len,
    ensures
        decoded(bytes, max_len) == Err::<Seq<u8>, FrameError>(
            FrameError::TooLarge(be64(bytes, 0) as u64),
        ),
        forall|rest: Seq<u8>|
            decoded(#[trigger] bytes.subrange(0, 8).add(rest), max_len) == decoded(bytes, max_len),
{
    assert forall|rest: Seq<u8>| decoded(#[trigger] bytes.subrange(0, 8).add(rest), max_len)
        == decoded(bytes, max_len) by {
        let b2 = bytes.subrange(0, 8).add(rest);
        assert(be64(b2, 0) == be64(bytes, 0));
    }
}

} // verus!
