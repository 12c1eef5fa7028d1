use synth_core::codable::{Decodable, Encodable};
use synth_core::data::Data;
use synth_core::four_cc::FourCC;
use synth_core::header_data::HeaderData;
use synth_core::header_format::{Encoding, HeaderFormat};
use synth_core::header_riff::HeaderRiff;
use synth_core::wav::{bits_to_sample, sample_to_bits, Wav, HEADER_SIZE};

#[test]
fn test_fourcc() {
    let fourcc = FourCC::from("data").unwrap();
    assert_eq!(fourcc.as_bytes(), [b'd', b'a', b't', b'a']);
}

#[test]
fn test_fourcc_too_long() {
    let fourcc = FourCC::from("dataa");
    assert!(fourcc.is_err());
}

#[test]
fn test_header_format() {
    let header = HeaderFormat::new(Encoding::LPCM, 2, 44100, 2);
    let encoded = header.encode();
    let mut decoded = HeaderFormat::decode_new(&encoded[..]);
    decoded.sample_size(2);

    let reincoded = decoded.encode();

    println!("{:?}", header);
    println!("{:?}", decoded);
    assert_eq!(encoded, reincoded);
}

#[test]
fn test_decode() {
    let encoded = [82, 73, 70, 70, 2, 0, 0, 0, 87, 65, 86, 69];
    let header = HeaderRiff::decode_new(&encoded[..]);

    assert_eq!(header.size, 2);
}

#[test]
fn check_size() {
    let riff_size = HeaderRiff::default().encode().len();
    let format_size = HeaderFormat::default().encode().len();
    let data_size = HeaderData::default().encode().len();

    println!("riff_size: {}", riff_size);
    println!("format_size: {}", format_size);
    println!("data_size: {}", data_size);

    assert_eq!(riff_size + format_size + data_size, HEADER_SIZE + 8);
}

#[test]
fn format_derived_fields() {
    let header = HeaderFormat::new(Encoding::LPCM, 2, 44100, 2);
    assert_eq!(header.get_byte_rate(), 176_400);
    assert_eq!(header.get_block_align(), 4);
    assert_eq!(header.get_bits_per_sample(), 16);
}

#[test]
fn encoding_tag_bytes() {
    assert_eq!(Encoding::LPCM.as_le_bytes(), [1, 0]);
    assert_eq!(Encoding::IEEE.as_le_bytes(), [3, 0]);
    assert_eq!(Encoding::ALAW.as_le_bytes(), [6, 0]);
    assert_eq!(Encoding::MULAW.as_le_bytes(), [7, 0]);
    assert_eq!(Encoding::from_le_bytes([6, 0]), Encoding::ALAW);
    // an unknown tag falls back to LPCM
    assert_eq!(Encoding::from_le_bytes([9, 9]), Encoding::LPCM);
}

#[test]
fn wav_push_body_sizes() {
    let mut wav = Wav::new(Encoding::LPCM, 1, 44100);
    wav.push_body(vec![0i16, 1, -1, 300]);

    assert_eq!(wav.data.size, 8);
    assert_eq!(wav.riff.size, (HEADER_SIZE + 8) as u32);

    wav.push_body(vec![5i16, 6]);
    assert_eq!(wav.data.size, 12);
    assert_eq!(wav.riff.size, (HEADER_SIZE + 12) as u32);
}

#[test]
fn wav_encode_decode_round_trip() {
    let mut wav = Wav::new(Encoding::LPCM, 1, 8000);
    wav.push_body(vec![0i16, 32767, -32768, -1, 257]);
    let encoded = wav.encode();
    assert_eq!(encoded.len(), 44 + 10);

    let decoded = Wav::decode_new(&encoded[..]);
    assert_eq!(decoded.body, vec![0i16, 32767, -32768, -1, 257]);
    assert_eq!(decoded.riff.size, wav.riff.size);
    assert_eq!(decoded.data.size, 10);
    assert_eq!(decoded.format.sample_rate, 8000);
    assert_eq!(decoded.format.channels, 1);
    assert_eq!(decoded.format.sample_size, 2);
}

#[test]
fn sample_bits_round_trip() {
    for s in [0i16, 1, -1, 32767, -32768, 12345, -12345] {
        assert_eq!(bits_to_sample(sample_to_bits(s)), s);
    }
    assert_eq!(sample_to_bits(-1), 0xFFFF);
    assert_eq!(sample_to_bits(-32768), 0x8000);
}

#[test]
fn data_read_bytes_skips_gap() {
    let bytes = [7u8, 0, 0, 0, 9, 9, 9, 9, 255, 255, 255, 255];
    let data = Data::read_bytes(&bytes[..]).unwrap();
    assert_eq!(data.id, 7);
    assert_eq!(data.size, -1);
}

#[test]
fn data_load_sequential() {
    let bytes = [7u8, 0, 0, 0, 2, 1, 0, 0];
    let data = Data::load(&bytes[..]).unwrap();
    assert_eq!(data.id, 7);
    assert_eq!(data.size, 258);

    let short = [7u8, 0, 0];
    assert!(Data::load(&short[..]).is_err());
}
