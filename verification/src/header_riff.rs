use vstd::prelude::*;

use crate::chunk::Chunk;
use crate::codable::{Decodable, Encodable};

verus! {

use vstd::bytes::{
    lemma_auto_spec_u32_to_from_le_bytes, spec_u32_from_le_bytes, spec_u32_to_le_bytes,
    u32_from_le_bytes, u32_to_le_bytes,
};
use vstd::slice::slice_subrange;

/// The identifier bytes of the RIFF chunk, "RIFF".
pub open spec fn spec_riff_id() -> Seq<u8> {
    seq![82u8, 73u8, 70u8, 70u8]
}

/// The form-type bytes of a WAV file, "WAVE".
pub open spec fn spec_riff_type() -> Seq<u8> {
    seq![87u8, 65u8, 86u8, 69u8]
}

/// Number of bytes the RIFF chunk header occupies: identifier, size and
/// form type.
pub const RIFF_HEADER_SIZE: usize = 12;

/// The RIFF header: the outermost chunk, whose size covers everything
/// that follows its size field.
#[derive(Debug)]
pub struct HeaderRiff {
    pub size: u32,
}

impl Chunk for HeaderRiff {
    open spec fn spec_id(&self) -> Seq<u8> {
        spec_riff_id()
    }

    open spec fn spec_size(&self) -> u32 {
        self.size
    }

    fn get_be_id(&self) -> (id: &[u8; 4]) {
        let id: &[u8; 4] = &[82, 73, 70, 70];
        assert(id@ =~= spec_riff_id());
        id
    }

    fn get_le_size(&self) -> (size: u32) {
        self.size
    }
}

impl HeaderRiff {
    pub fn new() -> (h: HeaderRiff)
        ensures
            h.size == 0,
    {
        HeaderRiff { size: 0 }
    }

    /// Record the size of a file whose header takes `header_size` bytes
    /// and whose body holds `samples_len` samples of `sample_size` bytes.
    pub fn set_size(&mut self, header_size: usize, samples_len: usize, sample_size: usize)
        requires
            samples_len <= 0xFFFF_FFFF,
            sample_size <= 0xFFFF_FFFF,
            header_size + sample_size * samples_len <= 0xFFFF_FFFF,
        ensures
            final(self).size == header_size + sample_size * samples_len,
    {
        self.size = (header_size + sample_size * samples_len) as u32;
    }

    /// The form type for the RIFF chunk.
    pub fn get_be_type(&self) -> (t: &[u8; 4])
        ensures
            t@ == spec_riff_type(),
    {
        let t: &[u8; 4] = &[87, 65, 86, 69];
        assert(t@ =~= spec_riff_type());
        t
    }
}

impl Default for HeaderRiff {
    fn default() -> (h: HeaderRiff)
        ensures
            h.size == 0,
    {
        HeaderRiff { size: 0 }
    }
}

impl Encodable for HeaderRiff {
    open spec fn spec_encodable(&self) -> bool {
        true
    }

    open spec fn spec_encode(&self) -> Seq<u8> {
        spec_riff_id() + spec_u32_to_le_bytes(self.size) + spec_riff_type()
    }

    fn encode(&self) -> (r: Vec<u8>) {
        let mut vec: Vec<u8> = Vec::new();

        let id = self.get_be_id();
        let mut id_bytes: Vec<u8> = vec![id[0], id[1], id[2], id[3]];
        vec.append(&mut id_bytes);

        let mut size_bytes = u32_to_le_bytes(self.size);
        vec.append(&mut size_bytes);

        let t = self.get_be_type();
        let mut type_bytes: Vec<u8> = vec![t[0], t[1], t[2], t[3]];
        vec.append(&mut type_bytes);

        assert(vec@ =~= self.spec_encode());
        vec
    }
}

/// Encoding then decoding a RIFF header gives it back.
pub proof fn lemma_riff_round_trip(h: HeaderRiff)
    ensures
        <HeaderRiff as Decodable>::spec_decodable(h.spec_encode()),
        <HeaderRiff as Decodable>::spec_decoded(h.spec_encode(), h),
{
    lemma_auto_spec_u32_to_from_le_bytes();
    let e = h.spec_encode();
    assert(e.subrange(0, 4) =~= spec_riff_id());
    assert(e.subrange(4, 8) =~= spec_u32_to_le_bytes(h.size));
    assert(e.subrange(8, 12) =~= spec_riff_type());
}

impl Decodable for HeaderRiff {
    open spec fn spec_decodable(bytes: Seq<u8>) -> bool {
        &&& bytes.len() >= RIFF_HEADER_SIZE
        &&& bytes.subrange(0, 4) == spec_riff_id()
        &&& bytes.subrange(8, 12) == spec_riff_type()
    }

    open spec fn spec_decoded(bytes: Seq<u8>, r: HeaderRiff) -> bool {
        r == HeaderRiff { size: spec_u32_from_le_bytes(bytes.subrange(4, 8)) }
    }

    fn decode_new(bytes: &[u8]) -> (r: HeaderRiff) {
        let size = u32_from_le_bytes(slice_subrange(bytes, 4, 8));

        HeaderRiff { size }
    }
}

} // verus!
