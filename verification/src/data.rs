use vstd::prelude::*;

verus! {

use vstd::bytes::{spec_u32_from_le_bytes, u32_from_le_bytes};
use vstd::slice::slice_subrange;

/// The input ended before the record did.
#[derive(Debug, PartialEq, Eq, Structural)]
pub struct ReadError;

/// The signed value whose little-endian bit pattern is `b`
/// (two's complement).
pub open spec fn spec_bits_to_i32(b: u32) -> i32 {
    if b < 0x8000_0000 {
        b as i32
    } else {
        (b - 0x1_0000_0000) as i32
    }
}

/// Turn a 32-bit file pattern into its signed value.
pub fn bits_to_i32(b: u32) -> (r: i32)
    ensures
        r == spec_bits_to_i32(b),
{
    if b < 0x8000_0000 {
        b as i32
    } else {
        ((b as i64) - 0x1_0000_0000i64) as i32
    }
}

/// A chunk directory record: an identifier and a size, read from a file
/// image.
#[derive(Debug)]
pub struct Data {
    pub id: i32,
    pub size: i32,
}

impl Data {
    /// Read a record from a raw byte image laid out with the identifier
    /// at offset 0 and the size at offset 8.
    pub fn read_bytes(bytes: &[u8]) -> (r: Result<Data, ReadError>)
        requires
            bytes@.len() >= 12,
        ensures
            (r matches Ok(d) && {
                &&& d.id == spec_bits_to_i32(spec_u32_from_le_bytes(bytes@.subrange(0, 4)))
                &&& d.size == spec_bits_to_i32(spec_u32_from_le_bytes(bytes@.subrange(8, 12)))
            }),
    {
        let id = bits_to_i32(u32_from_le_bytes(slice_subrange(bytes, 0, 4)));
        let size = bits_to_i32(u32_from_le_bytes(slice_subrange(bytes, 8, 12)));

        Ok(Data { id, size })
    }

    /// Read a record from a stream of bytes: the identifier, then
    /// directly the size. Fails when the stream is too short.
    pub fn load(bytes: &[u8]) -> (r: Result<Data, ReadError>)
        ensures
            bytes@.len() >= 8 ==> (r matches Ok(d) && {
                &&& d.id == spec_bits_to_i32(spec_u32_from_le_bytes(bytes@.subrange(0, 4)))
                &&& d.size == spec_bits_to_i32(spec_u32_from_le_bytes(bytes@.subrange(4, 8)))
            }),
            bytes@.len() < 8 ==> r == Result::<Data, ReadError>::Err(ReadError),
    {
        if bytes.len() < 8 {
            return Err(ReadError);
        }

        let id = bits_to_i32(u32_from_le_bytes(slice_subrange(bytes, 0, 4)));
        let size = bits_to_i32(u32_from_le_bytes(slice_subrange(bytes, 4, 8)));

        Ok(Data { id, size })
    }
}

} // verus!
