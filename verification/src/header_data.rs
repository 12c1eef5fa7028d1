use vstd::prelude::*;

use crate::chunk::Chunk;
use crate::codable::{Decodable, Encodable};

verus! {

use vstd::bytes::{
    lemma_auto_spec_u32_to_from_le_bytes, spec_u32_from_le_bytes, spec_u32_to_le_bytes,
    u32_from_le_bytes, u32_to_le_bytes,
};
use vstd::slice::slice_subrange;

/// The identifier bytes of the data chunk, "data".
pub open spec fn spec_data_id() -> Seq<u8> {
    seq![100u8, 97u8, 116u8, 97u8]
}

/// Number of bytes the data chunk header occupies: the identifier and the
/// size field.
pub const DATA_HEADER_SIZE: usize = 8;

/// The header of the data chunk: it carries only the size of the sample
/// body that follows it.
#[derive(Debug)]
pub struct HeaderData {
    pub size: u32,
}

impl HeaderData {
    pub fn new() -> (h: HeaderData)
        ensures
            h.size == 0,
    {
        HeaderData { size: 0 }
    }

    /// Record the size of a body of `samples_len` samples of
    /// `sample_size` bytes each.
    pub fn set_size(&mut self, samples_len: usize, sample_size: usize)
        requires
            samples_len <= 0xFFFF_FFFF,
            sample_size <= 0xFFFF_FFFF,
            samples_len * sample_size <= 0xFFFF_FFFF,
        ensures
            final(self).size == samples_len * sample_size,
    {
        proof {
            assert(sample_size * samples_len == samples_len * sample_size) by (nonlinear_arith);
        }
        self.size = sample_size as u32 * samples_len as u32;
    }
}

impl Default for HeaderData {
    fn default() -> (h: HeaderData)
        ensures
            h.size == 0,
    {
        HeaderData { size: 0 }
    }
}

impl Chunk for HeaderData {
    open spec fn spec_id(&self) -> Seq<u8> {
        spec_data_id()
    }

    open spec fn spec_size(&self) -> u32 {
        self.size
    }

    fn get_be_id(&self) -> (id: &[u8; 4]) {
        let id: &[u8; 4] = &[100, 97, 116, 97];
        assert(id@ =~= spec_data_id());
        id
    }

    fn get_le_size(&self) -> (size: u32) {
        self.size
    }
}

impl Encodable for HeaderData {
    open spec fn spec_encodable(&self) -> bool {
        true
    }

    open spec fn spec_encode(&self) -> Seq<u8> {
        spec_data_id() + spec_u32_to_le_bytes(self.size)
    }

    fn encode(&self) -> (r: Vec<u8>) {
        let mut vec: Vec<u8> = Vec::new();

        let id = self.get_be_id();
        let mut id_bytes: Vec<u8> = vec![id[0], id[1], id[2], id[3]];
        vec.append(&mut id_bytes);

        let mut size_bytes = u32_to_le_bytes(self.size);
        vec.append(&mut size_bytes);

        assert(vec@ =~= self.spec_encode());
        vec
    }
}

/// Encoding then decoding a data header gives it back.
pub proof fn lemma_data_round_trip(h: HeaderData)
    ensures
        <HeaderData as Decodable>::spec_decodable(h.spec_encode()),
        <HeaderData as Decodable>::spec_decoded(h.spec_encode(), h),
{
    lemma_auto_spec_u32_to_from_le_bytes();
    let e = h.spec_encode();
    assert(e.subrange(4, 8) =~= spec_u32_to_le_bytes(h.size));
}

impl Decodable for HeaderData {
    open spec fn spec_decodable(bytes: Seq<u8>) -> bool {
        bytes.len() >= DATA_HEADER_SIZE
    }

    open spec fn spec_decoded(bytes: Seq<u8>, r: HeaderData) -> bool {
        r == HeaderData { size: spec_u32_from_le_bytes(bytes.subrange(4, 8)) }
    }

    fn decode_new(bytes: &[u8]) -> (r: HeaderData) {
        let size = u32_from_le_bytes(slice_subrange(bytes, 4, 8));

        HeaderData { size }
    }
}

} // verus!
