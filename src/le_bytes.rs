//! Reading the settled result's integers out of their byte fields.
use vstd::prelude::*;

verus! {

/// The unsigned integer whose little-endian encoding begins `b`: the first
/// eight bytes, least significant first.
pub open spec fn le_u64(b: Seq<u8>) -> int
    recommends
        b.len() >= 8,
{
    b[0] as int + 0x100 * (b[1] as int) + 0x1_0000 * (b[2] as int) + 0x100_0000 * (b[3] as int)
        + 0x1_0000_0000 * (b[4] as int) + 0x100_0000_0000 * (b[5] as int) + 0x1_0000_0000_0000 * (
    b[6] as int) + 0x100_0000_0000_0000 * (b[7] as int)
}

/// Reads the first eight bytes of `field` as a little-endian `u64`.
pub fn read_le_u64(field: &[u8; 32]) -> (r: u64)
    ensures
        r as int == le_u64(field@),
{
    (field[0] as u64) + 0x100 * (field[1] as u64) + 0x1_0000 * (field[2] as u64) + 0x100_0000 * (
    field[3] as u64) + 0x1_0000_0000 * (field[4] as u64) + 0x100_0000_0000 * (field[5] as u64)
        + 0x1_0000_0000_0000 * (field[6] as u64) + 0x100_0000_0000_0000 * (field[7] as u64)
}

} // verus!
