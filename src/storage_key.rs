//! Decoding the asset of an auction from a raw storage key.
use vstd::prelude::*;

verus! {

/// Bytes before the encoded key: a 32-byte storage prefix and a 16-byte hash.
pub const KEY_PREFIX_LEN: usize = 48;

/// The little-endian `u32` in the four bytes of `b` from `at`.
pub open spec fn le_u32(b: Seq<u8>, at: int) -> int {
    b[at] as int + 256 * b[at + 1] as int + 65536 * b[at + 2] as int + 16777216 * b[at + 3] as int
}

fn read_le_u32(b: &[u8], at: usize) -> (r: u32)
    requires
        at + 4 <= b@.len(),
    ensures
        r as int == le_u32(b@, at as int),
{
    (b[at] as u32) + 256 * (b[at + 1] as u32) + 65536 * (b[at + 2] as u32) + 16777216 * (
    b[at + 3] as u32)
}

/// Reads `(collection_id, item_id)` from a storage key of the auction map:
/// after the prefix and hash come the two ids, each four bytes,
/// little-endian. Keys of 16 to 47 bytes are outside its domain.
pub fn decode_auction_key(key: &[u8]) -> (r: Result<(u32, u32), &'static str>)
    requires
        key@.len() < 16 || key@.len() >= KEY_PREFIX_LEN,
    ensures
        key@.len() < 16 ==> r is Err && r->Err_0@ == "Key too short for Blake2_128Concat"@,
        key@.len() >= KEY_PREFIX_LEN && key@.len() < KEY_PREFIX_LEN + 8 ==> r is Err && r->Err_0@
            == "Insufficient data for (u32, u32) tuple"@,
        key@.len() >= KEY_PREFIX_LEN + 8 ==> r is Ok && r->Ok_0.0 as int == le_u32(key@, 48)
            && r->Ok_0.1 as int == le_u32(key@, 52),
{
    if key.len() < 16 {
        return Err("Key too short for Blake2_128Concat");
    }
    if key.len() - KEY_PREFIX_LEN < 8 {
        return Err("Insufficient data for (u32, u32) tuple");
    }
    let collection_id = read_le_u32(key, KEY_PREFIX_LEN);
    let item_id = read_le_u32(key, KEY_PREFIX_LEN + 4);
    Ok((collection_id, item_id))
}

} // verus!
