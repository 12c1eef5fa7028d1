use vstd::prelude::*;

use crate::chunk::Chunk;
use crate::codable::{Decodable, Encodable};

verus! {

use vstd::bytes::{
    lemma_auto_spec_u16_to_from_le_bytes, lemma_auto_spec_u32_to_from_le_bytes,
    spec_u16_from_le_bytes, spec_u16_to_le_bytes, spec_u32_from_le_bytes, spec_u32_to_le_bytes,
    u16_from_le_bytes, u16_to_le_bytes, u32_from_le_bytes, u32_to_le_bytes,
};
use vstd::slice::slice_subrange;

/// The identifier bytes of the format chunk, "fmt ".
pub open spec fn spec_fmt_id() -> Seq<u8> {
    seq![102u8, 109u8, 116u8, 32u8]
}

/// Number of bytes the format chunk occupies: identifier, size, and the
/// sixteen bytes of format fields.
pub const FMT_CHUNK_SIZE: usize = 24;

/// The sample encodings a format chunk can announce.
#[derive(Clone, Copy, Debug, PartialEq, Eq, Structural)]
pub enum Encoding {
    LPCM,
    IEEE,
    ALAW,
    MULAW,
}

/// The two-byte format tag of an encoding.
pub open spec fn spec_encoding_bytes(e: Encoding) -> Seq<u8> {
    match e {
        Encoding::LPCM => seq![1u8, 0u8],
        Encoding::IEEE => seq![3u8, 0u8],
        Encoding::ALAW => seq![6u8, 0u8],
        Encoding::MULAW => seq![7u8, 0u8],
    }
}

/// The encoding a two-byte format tag announces; an unknown tag falls
/// back to LPCM.
pub open spec fn spec_encoding_of_bytes(b: Seq<u8>) -> Encoding {
    if b == spec_encoding_bytes(Encoding::LPCM) {
        Encoding::LPCM
    } else if b == spec_encoding_bytes(Encoding::IEEE) {
        Encoding::IEEE
    } else if b == spec_encoding_bytes(Encoding::ALAW) {
        Encoding::ALAW
    } else if b == spec_encoding_bytes(Encoding::MULAW) {
        Encoding::MULAW
    } else {
        Encoding::LPCM
    }
}

impl Encoding {
    pub fn as_le_bytes(self) -> (r: [u8; 2])
        ensures
            r@ == spec_encoding_bytes(self),
    {
        let r: [u8; 2] = match self {
            Encoding::LPCM => [1, 0],
            Encoding::IEEE => [3, 0],
            Encoding::ALAW => [6, 0],
            Encoding::MULAW => [7, 0],
        };
        assert(r@ =~= spec_encoding_bytes(self));
        r
    }

    pub fn from_le_bytes(bytes: [u8; 2]) -> (r: Encoding)
        ensures
            r == spec_encoding_of_bytes(bytes@),
    {
        let b0 = bytes[0];
        let b1 = bytes[1];
        proof {
            assert(bytes@ =~= seq![b0, b1]);
        }
        if b1 != 0 {
            proof {
                assert(bytes@ != spec_encoding_bytes(Encoding::LPCM));
                assert(bytes@ != spec_encoding_bytes(Encoding::IEEE));
                assert(bytes@ != spec_encoding_bytes(Encoding::ALAW));
                assert(bytes@ != spec_encoding_bytes(Encoding::MULAW));
            }
            return Encoding::LPCM;
        }
        if b0 == 1 {
            Encoding::LPCM
        } else if b0 == 3 {
            assert(bytes@ != spec_encoding_bytes(Encoding::LPCM));
            Encoding::IEEE
        } else if b0 == 6 {
            assert(bytes@ != spec_encoding_bytes(Encoding::LPCM));
            assert(bytes@ != spec_encoding_bytes(Encoding::IEEE));
            Encoding::ALAW
        } else if b0 == 7 {
            assert(bytes@ != spec_encoding_bytes(Encoding::LPCM));
            assert(bytes@ != spec_encoding_bytes(Encoding::IEEE));
            assert(bytes@ != spec_encoding_bytes(Encoding::ALAW));
            Encoding::MULAW
        } else {
            assert(bytes@ != spec_encoding_bytes(Encoding::LPCM));
            assert(bytes@ != spec_encoding_bytes(Encoding::IEEE));
            assert(bytes@ != spec_encoding_bytes(Encoding::ALAW));
            assert(bytes@ != spec_encoding_bytes(Encoding::MULAW));
            Encoding::LPCM
        }
    }
}

/// The format chunk: how the sample body is to be interpreted.
#[derive(Debug)]
pub struct HeaderFormat {
    pub tag: Encoding,
    pub channels: u16,
    pub sample_rate: u32,
    pub sample_size: u16,
}

/// The derived format fields (byte rate, block align, bits per sample)
/// fit their fixed-width slots.
pub open spec fn spec_format_fits(f: HeaderFormat) -> bool {
    &&& f.channels * f.sample_rate <= 0xFFFF_FFFF
    &&& f.channels * f.sample_rate * f.sample_size <= 0xFFFF_FFFF
    &&& f.channels * f.sample_size <= 0xFFFF
    &&& f.sample_size * 8 <= 0xFFFF
}

impl HeaderFormat {
    pub fn new(encoding: Encoding, channels: usize, sample_rate: usize, sample_size: usize) -> (h: HeaderFormat)
        requires
            channels <= 0xFFFF,
            sample_rate <= 0xFFFF_FFFF,
            sample_size <= 0xFFFF,
        ensures
            (h == HeaderFormat {
                tag: encoding,
                channels: channels as u16,
                sample_rate: sample_rate as u32,
                sample_size: sample_size as u16,
            }),
    {
        HeaderFormat {
            tag: encoding,
            channels: channels as u16,
            sample_rate: sample_rate as u32,
            sample_size: sample_size as u16,
        }
    }

    pub fn encoding(&mut self, encoding: Encoding)
        ensures
            (*final(self) == HeaderFormat { tag: encoding, ..*old(self) }),
    {
        self.tag = encoding;
    }

    pub fn channels(&mut self, channels: u16)
        ensures
            (*final(self) == HeaderFormat { channels, ..*old(self) }),
    {
        self.channels = channels;
    }

    pub fn sample_rate(&mut self, sample_rate: u32)
        ensures
            (*final(self) == HeaderFormat { sample_rate, ..*old(self) }),
    {
        self.sample_rate = sample_rate;
    }

    pub fn sample_size(&mut self, sample_size: usize)
        requires
            sample_size <= 0xFFFF,
        ensures
            (*final(self) == HeaderFormat { sample_size: sample_size as u16, ..*old(self) }),
    {
        self.sample_size = sample_size as u16;
    }

    /// Bytes of audio per second.
    pub fn get_byte_rate(&self) -> (r: u32)
        requires
            self.channels * self.sample_rate <= 0xFFFF_FFFF,
            self.channels * self.sample_rate * self.sample_size <= 0xFFFF_FFFF,
        ensures
            r == self.channels * self.sample_rate * self.sample_size,
    {
        (self.channels as u32) * (self.sample_rate as u32) * (self.sample_size as u32)
    }

    /// Bytes per frame across all channels.
    pub fn get_block_align(&self) -> (r: u16)
        requires
            self.channels * self.sample_size <= 0xFFFF,
        ensures
            r == self.channels * self.sample_size,
    {
        (self.channels as u16) * (self.sample_size as u16)
    }

    pub fn get_bits_per_sample(&self) -> (r: u16)
        requires
            self.sample_size * 8 <= 0xFFFF,
        ensures
            r == self.sample_size * 8,
    {
        (self.sample_size as u16) * 8
    }
}

impl Default for HeaderFormat {
    fn default() -> (h: HeaderFormat)
        ensures
            (h == HeaderFormat { tag: Encoding::LPCM, channels: 0u16, sample_rate: 0u32, sample_size: 0u16 }),
    {
        HeaderFormat { tag: Encoding::LPCM, channels: 0, sample_rate: 0, sample_size: 0 }
    }
}

impl Chunk for HeaderFormat {
    open spec fn spec_id(&self) -> Seq<u8> {
        spec_fmt_id()
    }

    open spec fn spec_size(&self) -> u32 {
        16
    }

    fn get_be_id(&self) -> (id: &[u8; 4]) {
        let id: &[u8; 4] = &[102, 109, 116, 32];
        assert(id@ =~= spec_fmt_id());
        id
    }

    fn get_le_size(&self) -> (size: u32) {
        16
    }
}

impl Encodable for HeaderFormat {
    open spec fn spec_encodable(&self) -> bool {
        spec_format_fits(*self)
    }

    open spec fn spec_encode(&self) -> Seq<u8> {
        spec_fmt_id() + spec_u32_to_le_bytes(16) + spec_encoding_bytes(self.tag)
            + spec_u16_to_le_bytes(self.channels) + spec_u32_to_le_bytes(self.sample_rate)
            + spec_u32_to_le_bytes((self.channels * self.sample_rate * self.sample_size) as u32)
            + spec_u16_to_le_bytes((self.channels * self.sample_size) as u16)
            + spec_u16_to_le_bytes((self.sample_size * 8) as u16)
    }

    fn encode(&self) -> (r: Vec<u8>) {
        let mut vec: Vec<u8> = Vec::new();

        let id = self.get_be_id();
        let mut id_bytes: Vec<u8> = vec![id[0], id[1], id[2], id[3]];
        vec.append(&mut id_bytes);

        let mut size_bytes = u32_to_le_bytes(self.get_le_size());
        vec.append(&mut size_bytes);

        let tag = self.tag.as_le_bytes();
        let mut tag_bytes: Vec<u8> = vec![tag[0], tag[1]];
        vec.append(&mut tag_bytes);

        let mut channel_bytes = u16_to_le_bytes(self.channels);
        vec.append(&mut channel_bytes);

        let mut rate_bytes = u32_to_le_bytes(self.sample_rate);
        vec.append(&mut rate_bytes);

        let mut byte_rate_bytes = u32_to_le_bytes(self.get_byte_rate());
        vec.append(&mut byte_rate_bytes);

        let mut align_bytes = u16_to_le_bytes(self.get_block_align());
        vec.append(&mut align_bytes);

        let mut bits_bytes = u16_to_le_bytes(self.get_bits_per_sample());
        vec.append(&mut bits_bytes);

        assert(vec@ =~= self.spec_encode());
        vec
    }
}

/// A format tag survives its byte form.
pub proof fn lemma_encoding_round_trip(e: Encoding)
    ensures
        spec_encoding_of_bytes(spec_encoding_bytes(e)) == e,
{
}

/// Encoding then decoding a format header gives it back, but for the
/// sample size, which the file does not carry directly and which the
/// decoder leaves at zero.
pub proof fn lemma_format_round_trip(f: HeaderFormat)
    requires
        spec_format_fits(f),
    ensures
        <HeaderFormat as Decodable>::spec_decodable(f.spec_encode()),
        (<HeaderFormat as Decodable>::spec_decoded(
            f.spec_encode(),
            HeaderFormat { sample_size: 0u16, ..f },
        )),
{
    lemma_auto_spec_u16_to_from_le_bytes();
    lemma_auto_spec_u32_to_from_le_bytes();
    lemma_encoding_round_trip(f.tag);
    let e = f.spec_encode();
    assert(e.subrange(8, 10) =~= spec_encoding_bytes(f.tag));
    assert(e.subrange(10, 12) =~= spec_u16_to_le_bytes(f.channels));
    assert(e.subrange(12, 16) =~= spec_u32_to_le_bytes(f.sample_rate));
}

impl Decodable for HeaderFormat {
    open spec fn spec_decodable(bytes: Seq<u8>) -> bool {
        bytes.len() >= FMT_CHUNK_SIZE
    }

    open spec fn spec_decoded(bytes: Seq<u8>, r: HeaderFormat) -> bool {
        r == HeaderFormat {
            tag: spec_encoding_of_bytes(bytes.subrange(8, 10)),
            channels: spec_u16_from_le_bytes(bytes.subrange(10, 12)),
            sample_rate: spec_u32_from_le_bytes(bytes.subrange(12, 16)),
            sample_size: 0u16,
        }
    }

    fn decode_new(bytes: &[u8]) -> (r: HeaderFormat) {
        let tag_slice = slice_subrange(bytes, 8, 10);
        let tag = Encoding::from_le_bytes([tag_slice[0], tag_slice[1]]);
        proof {
            assert(seq![bytes@[8], bytes@[9]] =~= bytes@.subrange(8, 10));
        }

        let channels = u16_from_le_bytes(slice_subrange(bytes, 10, 12));
        let sample_rate = u32_from_le_bytes(slice_subrange(bytes, 12, 16));

        HeaderFormat { tag, channels, sample_rate, sample_size: 0 }
    }
}

} // verus!
