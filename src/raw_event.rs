use byteorder::{ByteOrder, LittleEndian};
use vstd::array::array_as_slice;
use vstd::prelude::*;
use vstd::slice::slice_subrange;

verus! {

/// The little-endian value of the two bytes of `b` from `i` on.
pub open spec fn le16(b: Seq<u8>, i: int) -> int {
    b[i] as int + 256 * (b[i + 1] as int)
}

/// The little-endian value of the four bytes of `b` from `i` on.
pub open spec fn le32(b: Seq<u8>, i: int) -> int {
    le16(b, i) + 65536 * le16(b, i + 2)
}

/// Relies on byteorder's `LittleEndian::read_u16`: the first two bytes, least
/// significant first.
#[verifier::external_body]
fn read_le_u16(buf: &[u8]) -> (r: u16)
    requires
        buf@.len() >= 2,
    ensures
        r as int == le16(buf@, 0),
{
    LittleEndian::read_u16(buf)
}

/// Relies on byteorder's `LittleEndian::read_u32`: the first four bytes, least
/// significant first.
#[verifier::external_body]
fn read_le_u32(buf: &[u8]) -> (r: u32)
    requires
        buf@.len() >= 4,
    ensures
        r as int == le32(buf@, 0),
{
    LittleEndian::read_u32(buf)
}

/// One input-event record: timestamp (seconds and microseconds), type, code and
/// value.
#[derive(Debug, Clone, Copy, PartialEq, Eq, Hash, Structural)]
pub struct RawEvent {
    pub seconds: u32,
    pub microseconds: u32,
    pub typ: u16,
    pub code: u16,
    pub value: u32,
}

/// The record that 16 little-endian bytes hold: seconds, microseconds, type,
/// code, value.
pub open spec fn raw_of(b: Seq<u8>) -> RawEvent {
    RawEvent {
        seconds: le32(b, 0) as u32,
        microseconds: le32(b, 4) as u32,
        typ: le16(b, 8) as u16,
        code: le16(b, 10) as u16,
        value: le32(b, 12) as u32,
    }
}

pub(crate) proof fn lemma_le_bounds(b: Seq<u8>, i: int)
    requires
        0 <= i,
        i + 4 <= b.len(),
    ensures
        0 <= le16(b, i) < 0x1_0000,
        0 <= le32(b, i) < 0x1_0000_0000,
{
    assert(0 <= le16(b, i + 2) < 0x1_0000);
}

impl RawEvent {
    /// Decodes one 16-byte record.
    pub fn from(buf: &[u8; 16]) -> (r: RawEvent)
        ensures
            r == raw_of(buf@),
            r.typ as int == le16(buf@, 8),
            r.code as int == le16(buf@, 10),
            r.value as int == le32(buf@, 12),
    {
        let s = array_as_slice(buf);
        proof {
            lemma_le_bounds(buf@, 0);
            lemma_le_bounds(buf@, 4);
            lemma_le_bounds(buf@, 8);
            lemma_le_bounds(buf@, 12);
        }
        let seconds = read_le_u32(slice_subrange(s, 0, 4));
        let microseconds = read_le_u32(slice_subrange(s, 4, 8));
        let typ = read_le_u16(slice_subrange(s, 8, 10));
        let code = read_le_u16(slice_subrange(s, 10, 12));
        let value = read_le_u32(slice_subrange(s, 12, 16));
        RawEvent { seconds, microseconds, typ, code, value }
    }
}

} // verus!
