//! The privileges held by a process token: the `TOKEN_PRIVILEGES` buffer
//! that `GetTokenInformation` fills, and the names that
//! `LookupPrivilegeNameW` writes.

use vstd::prelude::*;
use crate::text::{decode_wide_c_string, nul_position, utf16_lossy};

verus! {

/// One `LUID_AND_ATTRIBUTES` record: the locally unique identifier of a
/// privilege and its attribute flags.
#[derive(Clone, Copy, Debug, PartialEq, Eq)]
pub struct PrivilegeEntry {
    pub luid_low: u32,
    pub luid_high: i32,
    pub attributes: u32,
}

/// Size in bytes of the `PrivilegeCount` header.
pub const TOKEN_PRIVILEGES_HEADER: usize = 4;

/// Size in bytes of one `LUID_AND_ATTRIBUTES` record.
pub const LUID_AND_ATTRIBUTES_SIZE: usize = 12;

/// The little-endian unsigned 32-bit value of the four bytes at `off`.
pub open spec fn le_u32(b: Seq<u8>, off: int) -> int {
    b[off] + 256 * b[off + 1] + 65536 * b[off + 2] + 16777216 * b[off + 3]
}

/// The two's complement reading of a 32-bit pattern.
pub open spec fn as_signed32(v: int) -> int {
    if v < 0x8000_0000 {
        v
    } else {
        v - 0x1_0000_0000
    }
}

/// The number of records the header of `b` announces.
pub open spec fn privilege_count(b: Seq<u8>) -> int {
    le_u32(b, 0)
}

/// Whether `b` holds a header and all the records it announces.
pub open spec fn token_privileges_fit(b: Seq<u8>) -> bool {
    b.len() >= 4 && 4 + 12 * privilege_count(b) <= b.len()
}

/// The `i`-th record of the buffer `b`.
pub open spec fn entry_at(b: Seq<u8>, i: int) -> PrivilegeEntry {
    PrivilegeEntry {
        luid_low: le_u32(b, 4 + 12 * i) as u32,
        luid_high: as_signed32(le_u32(b, 8 + 12 * i)) as i32,
        attributes: le_u32(b, 12 + 12 * i) as u32,
    }
}

/// Reads the little-endian `u32` at `off`.
fn read_le_u32(b: &[u8], off: usize) -> (v: u32)
    requires
        off + 4 <= b@.len(),
    ensures
        v as int == le_u32(b@, off as int),
{
    (b[off] as u32) + 256 * (b[off + 1] as u32) + 65536 * (b[off + 2] as u32) + 16777216 * (
    b[off + 3] as u32)
}

/// Reinterprets a 32-bit pattern as a signed value.
fn to_signed32(v: u32) -> (r: i32)
    ensures
        r as int == as_signed32(v as int),
{
    if v < 0x8000_0000 {
        v as i32
    } else {
        let d: u32 = v - 0x8000_0000;
        (d as i32) - 0x7FFF_FFFF - 1
    }
}

/// Parses a `TOKEN_PRIVILEGES` buffer: a little-endian `PrivilegeCount`
/// followed by that many 12-byte `LUID_AND_ATTRIBUTES` records. Returns the
/// records in order, or `None` when the buffer is too short for the header
/// or for the records it announces.
pub fn parse_token_privileges(buffer: &[u8]) -> (r: Option<Vec<PrivilegeEntry>>)
    ensures
        r is Some <==> token_privileges_fit(buffer@),
        r matches Some(v) ==> {
            &&& v@.len() == privilege_count(buffer@)
            &&& forall|i: int| 0 <= i < v@.len() ==> #[trigger] v@[i] == entry_at(buffer@, i)
        },
{
    if buffer.len() < TOKEN_PRIVILEGES_HEADER {
        return None;
    }
    let count = read_le_u32(buffer, 0);
    let avail: usize = buffer.len() - TOKEN_PRIVILEGES_HEADER;
    if (count as usize) > avail / LUID_AND_ATTRIBUTES_SIZE {
        assert(12 * (avail / 12) <= avail) by (nonlinear_arith)
            requires avail >= 0;
        assert(12 * (count as int) > avail) by (nonlinear_arith)
            requires count as int > avail / 12, avail >= 0;
        return None;
    }
    assert(12 * (count as int) <= avail) by (nonlinear_arith)
        requires count as int <= avail / 12, avail >= 0;
    let mut entries: Vec<PrivilegeEntry> = Vec::new();
    let mut i: usize = 0;
    while i < count as usize
        invariant
            4 <= buffer@.len() <= usize::MAX,
            count as int == privilege_count(buffer@),
            4 + 12 * (count as int) <= buffer@.len(),
            i <= count,
            entries@.len() == i,
            forall|j: int| 0 <= j < i ==> #[trigger] entries@[j] == entry_at(buffer@, j),
        decreases count - i,
    {
        let off: usize = 4 + 12 * i;
        let low = read_le_u32(buffer, off);
        let high = to_signed32(read_le_u32(buffer, off + 4));
        let attributes = read_le_u32(buffer, off + 8);
        entries.push(PrivilegeEntry { luid_low: low, luid_high: high, attributes });
        i = i + 1;
    }
    Some(entries)
}

/// Length of the buffer to hand `LookupPrivilegeNameW` for a name of
/// `name_len` units: room for the name and its terminating NUL.
pub fn privilege_name_buffer_len(name_len: u32) -> (r: usize)
    requires
        name_len < u32::MAX,
    ensures
        r == name_len + 1,
{
    (name_len + 1) as usize
}

/// The privilege name that `LookupPrivilegeNameW` wrote into `buffer`: the
/// units before the first NUL, decoded lossily.
pub fn privilege_name(buffer: &[u16]) -> (name: String)
    ensures
        name@ == utf16_lossy(buffer@.subrange(0, nul_position(buffer@) as int)),
{
    decode_wide_c_string(buffer)
}

} // verus!
