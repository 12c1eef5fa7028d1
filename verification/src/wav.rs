use vstd::prelude::*;

use crate::codable::{Decodable, Encodable};
use crate::header_data::{lemma_data_round_trip, HeaderData};
use crate::header_format::{
    lemma_format_round_trip, spec_encoding_bytes, spec_format_fits, Encoding, HeaderFormat,
};
use crate::header_riff::{lemma_riff_round_trip, HeaderRiff, RIFF_HEADER_SIZE};

verus! {

use vstd::bytes::{
    lemma_auto_spec_u16_to_from_le_bytes, lemma_auto_spec_u32_to_from_le_bytes,
    spec_u16_from_le_bytes, u16_from_le_bytes, u16_to_le_bytes,
};
use vstd::slice::slice_subrange;

/// Number of header bytes counted by the RIFF size field: everything
/// between that field and the sample body.
pub const HEADER_SIZE: usize = 36;

/// Width of one sample in bytes: the body holds 16-bit integer samples.
pub const SAMPLE_SIZE: usize = 2;

/// Offset of the sample body in an encoded file.
pub const BODY_OFFSET: usize = 44;

/// The unsigned bit pattern of a sample, as it sits in the file
/// (two's complement).
pub open spec fn spec_sample_to_bits(s: i16) -> u16 {
    if s >= 0 {
        s as u16
    } else {
        (s + 0x1_0000) as u16
    }
}

/// The sample whose bit pattern is `b`.
pub open spec fn spec_bits_to_sample(b: u16) -> i16 {
    if b < 0x8000 {
        b as i16
    } else {
        (b - 0x1_0000) as i16
    }
}

/// The two little-endian bytes of one sample.
pub open spec fn spec_sample_bytes(s: i16) -> Seq<u8> {
    vstd::bytes::spec_u16_to_le_bytes(spec_sample_to_bits(s))
}

/// The byte image of a whole sample body, in order.
pub open spec fn spec_body_bytes(body: Seq<i16>) -> Seq<u8>
    decreases body.len(),
{
    if body.len() == 0 {
        Seq::empty()
    } else {
        spec_body_bytes(body.drop_last()) + spec_sample_bytes(body.last())
    }
}

/// The samples read back from a byte run; a trailing odd byte is
/// dropped.
pub open spec fn spec_body_of_bytes(b: Seq<u8>) -> Seq<i16> {
    Seq::new((b.len() / 2) as nat, |j: int| spec_bits_to_sample(spec_u16_from_le_bytes(b.subrange(2 * j, 2 * j + 2))))
}

/// Turn a sample into its file bit pattern.
pub fn sample_to_bits(s: i16) -> (b: u16)
    ensures
        b == spec_sample_to_bits(s),
{
    if s >= 0 {
        s as u16
    } else {
        ((s as i32) + 0x1_0000) as u16
    }
}

/// Turn a file bit pattern back into a sample.
pub fn bits_to_sample(b: u16) -> (s: i16)
    ensures
        s == spec_bits_to_sample(b),
{
    if b < 0x8000 {
        b as i16
    } else {
        ((b as i32) - 0x1_0000) as i16
    }
}

/// Bit pattern and sample are inverses: encoding a sample's bits and
/// reading them back gives the sample again.
pub proof fn lemma_sample_bits_round_trip(s: i16)
    ensures
        spec_bits_to_sample(spec_sample_to_bits(s)) == s,
{
}

/// A sample body's byte image is two bytes per sample.
pub proof fn lemma_body_bytes_len(body: Seq<i16>)
    ensures
        spec_body_bytes(body).len() == 2 * body.len(),
    decreases body.len(),
{
    if body.len() > 0 {
        lemma_body_bytes_len(body.drop_last());
        lemma_auto_spec_u16_to_from_le_bytes();
    }
}

/// Writing a sample body out and reading the bytes back gives the same
/// samples.
pub proof fn lemma_body_round_trip(body: Seq<i16>)
    ensures
        spec_body_of_bytes(spec_body_bytes(body)) == body,
    decreases body.len(),
{
    lemma_auto_spec_u16_to_from_le_bytes();
    lemma_body_bytes_len(body);
    let b = spec_body_bytes(body);
    if body.len() == 0 {
        assert(spec_body_of_bytes(b) =~= body);
    } else {
        let prefix = body.drop_last();
        let pb = spec_body_bytes(prefix);
        lemma_body_round_trip(prefix);
        lemma_body_bytes_len(prefix);
        let n = body.len() as int;
        assert forall|j: int| 0 <= j < n implies spec_body_of_bytes(b)[j] == body[j] by {
            if j < n - 1 {
                assert(b.subrange(2 * j, 2 * j + 2) =~= pb.subrange(2 * j, 2 * j + 2));
                assert(spec_body_of_bytes(pb)[j] == prefix[j]);
            } else {
                assert(b.subrange(2 * j, 2 * j + 2) =~= spec_sample_bytes(body.last()));
                lemma_sample_bits_round_trip(body.last());
            }
        }
        assert(spec_body_of_bytes(b) =~= body);
    }
}

/// An in-memory WAV file: the three headers and the sample body. The
/// body is fixed to 16-bit integer samples; that is the only sample
/// width this codec reads or writes.
pub struct Wav {
    pub riff: HeaderRiff,
    pub format: HeaderFormat,
    pub data: HeaderData,
    pub body: Vec<i16>,
}

impl Wav {
    /// An empty WAV file for 16-bit samples.
    pub fn new(encoding: Encoding, channels: usize, sample_rate: usize) -> (w: Wav)
        requires
            channels <= 0xFFFF,
            sample_rate <= 0xFFFF_FFFF,
        ensures
            w.riff.size == 0,
            (w.format == HeaderFormat {
                tag: encoding,
                channels: channels as u16,
                sample_rate: sample_rate as u32,
                sample_size: SAMPLE_SIZE as u16,
            }),
            w.data.size == 0,
            w.body@ == Seq::<i16>::empty(),
    {
        let fmt = HeaderFormat::new(encoding, channels, sample_rate, SAMPLE_SIZE);

        Wav {
            riff: HeaderRiff::new(),
            format: fmt,
            data: HeaderData::new(),
            body: Vec::new(),
        }
    }

    pub fn set_channels(&mut self, channels: u16)
        ensures
            (*final(self) == Wav {
                format: HeaderFormat { channels, ..old(self).format },
                ..*old(self)
            }),
    {
        self.format.channels(channels);
    }

    pub fn set_encoding(&mut self, encoding: Encoding)
        ensures
            (*final(self) == Wav {
                format: HeaderFormat { tag: encoding, ..old(self).format },
                ..*old(self)
            }),
    {
        self.format.encoding(encoding);
    }

    pub fn set_sample_rate(&mut self, sample_rate: u32)
        ensures
            (*final(self) == Wav {
                format: HeaderFormat { sample_rate, ..old(self).format },
                ..*old(self)
            }),
    {
        self.format.sample_rate(sample_rate);
    }

    /// Append audio data to the end of the body and refresh the header
    /// fields that depend on the body size.
    pub fn push_body(&mut self, chunk: Vec<i16>)
        requires
            HEADER_SIZE + (old(self).body@.len() + chunk@.len()) * SAMPLE_SIZE <= 0xFFFF_FFFF,
        ensures
            final(self).body@ == old(self).body@ + chunk@,
            final(self).riff.size == HEADER_SIZE + final(self).body@.len() * SAMPLE_SIZE,
            final(self).data.size == final(self).body@.len() * SAMPLE_SIZE,
            final(self).format == old(self).format,
    {
        let mut chunk = chunk;
        self.body.append(&mut chunk);

        let ssize = self.get_sample_size();
        let samples = self.body.len();
        proof {
            assert(samples * 2 == 2 * samples) by (nonlinear_arith);
        }

        self.riff.set_size(self.get_header_size(), samples, ssize);
        self.data.set_size(samples, ssize);
    }

    fn get_sample_size(&self) -> (s: usize)
        ensures
            s == SAMPLE_SIZE,
    {
        SAMPLE_SIZE
    }

    fn get_header_size(&self) -> (s: usize)
        ensures
            s == HEADER_SIZE,
    {
        HEADER_SIZE
    }
}

/// Encoding a whole file and decoding the bytes gives the file back,
/// provided its format fields fit their slots and it carries 16-bit
/// samples, which is the only width this codec writes.
pub proof fn lemma_wav_round_trip(w: Wav)
    requires
        w.spec_encodable(),
        w.format.sample_size == SAMPLE_SIZE,
    ensures
        <Wav as Decodable>::spec_decodable(w.spec_encode()),
        <Wav as Decodable>::spec_decoded(w.spec_encode(), w),
{
    lemma_riff_round_trip(w.riff);
    lemma_format_round_trip(w.format);
    lemma_data_round_trip(w.data);
    lemma_body_round_trip(w.body@);
    lemma_body_bytes_len(w.body@);
    lemma_auto_spec_u16_to_from_le_bytes();
    lemma_auto_spec_u32_to_from_le_bytes();
    assert(spec_encoding_bytes(w.format.tag).len() == 2);
    assert(w.riff.spec_encode().len() == 12);
    assert(w.format.spec_encode().len() == 24);
    assert(w.data.spec_encode().len() == 8);
    let e = w.spec_encode();
    assert(e.subrange(0, 12) =~= w.riff.spec_encode());
    assert(e.subrange(12, 36) =~= w.format.spec_encode());
    assert(e.subrange(36, 44) =~= w.data.spec_encode());
    assert(e.skip(44) =~= spec_body_bytes(w.body@));
    assert(e.subrange(0, 12).subrange(0, 4) =~= e.subrange(0, 4));
    assert(e.subrange(0, 12).subrange(8, 12) =~= e.subrange(8, 12));
    assert(HeaderFormat { sample_size: 0u16, ..w.format }
        == HeaderFormat { sample_size: 0u16, ..HeaderFormat { sample_size: SAMPLE_SIZE as u16, ..w.format } });
}

impl Encodable for Wav {
    open spec fn spec_encodable(&self) -> bool {
        spec_format_fits(self.format)
    }

    open spec fn spec_encode(&self) -> Seq<u8> {
        self.riff.spec_encode() + self.format.spec_encode() + self.data.spec_encode()
            + spec_body_bytes(self.body@)
    }

    fn encode(&self) -> (r: Vec<u8>) {
        let mut vec: Vec<u8> = Vec::new();

        let mut riff_bytes = self.riff.encode();
        vec.append(&mut riff_bytes);
        let mut format_bytes = self.format.encode();
        vec.append(&mut format_bytes);
        let mut data_bytes = self.data.encode();
        vec.append(&mut data_bytes);

        let ghost header = vec@;

        let mut k: usize = 0;
        while k < self.body.len()
            invariant
                k <= self.body@.len(),
                vec@ == header + spec_body_bytes(self.body@.subrange(0, k as int)),
            decreases self.body@.len() - k,
        {
            let bits = sample_to_bits(self.body[k]);
            let mut sample_bytes = u16_to_le_bytes(bits);
            vec.append(&mut sample_bytes);
            proof {
                assert(self.body@.subrange(0, k + 1).drop_last() =~= self.body@.subrange(0, k as int));
            }
            k = k + 1;
        }
        proof {
            assert(self.body@.subrange(0, self.body@.len() as int) =~= self.body@);
        }
        vec
    }
}

impl Decodable for Wav {
    open spec fn spec_decodable(bytes: Seq<u8>) -> bool {
        &&& bytes.len() >= BODY_OFFSET
        &&& <HeaderRiff as Decodable>::spec_decodable(bytes.subrange(0, RIFF_HEADER_SIZE as int))
    }

    open spec fn spec_decoded(bytes: Seq<u8>, r: Wav) -> bool {
        &&& HeaderRiff::spec_decoded(bytes.subrange(0, 12), r.riff)
        &&& HeaderFormat::spec_decoded(bytes.subrange(12, 36), HeaderFormat { sample_size: 0u16, ..r.format })
        &&& r.format.sample_size == SAMPLE_SIZE
        &&& HeaderData::spec_decoded(bytes.subrange(36, 44), r.data)
        &&& r.body@ == spec_body_of_bytes(bytes.skip(44))
    }

    fn decode_new(bytes: &[u8]) -> (r: Wav) {
        let riff = HeaderRiff::decode_new(slice_subrange(bytes, 0, 12));
        let mut format = HeaderFormat::decode_new(slice_subrange(bytes, 12, 36));
        let data = HeaderData::decode_new(slice_subrange(bytes, 36, 44));

        format.sample_size(SAMPLE_SIZE);

        let ghost target = spec_body_of_bytes(bytes@.skip(44));

        let n_samples = (bytes.len() - 44) / 2;
        proof {
            assert(2 * ((bytes@.len() - 44) / 2) <= bytes@.len() - 44);
        }
        let mut body: Vec<i16> = Vec::new();
        let mut j: usize = 0;
        while j < n_samples
            invariant
                j <= n_samples,
                n_samples == (bytes@.len() - 44) / 2,
                44 + 2 * n_samples <= bytes@.len() <= usize::MAX,
                body@.len() == j,
                target == spec_body_of_bytes(bytes@.skip(44)),
                forall|i: int| 0 <= i < j ==> body@[i] == target[i],
            decreases n_samples - j,
        {
            let off = 44 + 2 * j;
            let bits = u16_from_le_bytes(slice_subrange(bytes, off, off + 2));
            let sample = bits_to_sample(bits);
            proof {
                assert(bytes@.subrange(44 + 2 * (j as int), 44 + 2 * (j as int) + 2)
                    =~= bytes@.skip(44).subrange(2 * (j as int), 2 * (j as int) + 2));
            }
            body.push(sample);
            j = j + 1;
        }
        proof {
            assert(body@ =~= target);
        }

        Wav { riff, format, data, body }
    }
}

} // verus!
