//! The fixed header that opens every delivered stream.
use vstd::prelude::*;

verus! {

/// Sample rate of the relayed stream, in frames per second.
pub const SAMPLE_RATE: u32 = 44100;

/// Number of interleaved channels.
pub const CHANNELS: u16 = 2;

/// Bits per sample.
pub const BITS_PER_SAMPLE: u16 = 16;

/// Length of the stream header in bytes.
pub const HEADER_LEN: usize = 44;

/// `v` as two little-endian bytes.
pub open spec fn le16(v: nat) -> Seq<u8> {
    seq![(v % 256) as u8, ((v / 256) % 256) as u8]
}

/// `v` as four little-endian bytes.
pub open spec fn le32(v: nat) -> Seq<u8> {
    seq![
        (v % 256) as u8,
        ((v / 256) % 256) as u8,
        ((v / 65536) % 256) as u8,
        ((v / 16777216) % 256) as u8,
    ]
}

/// A four-character ASCII tag.
pub open spec fn tag(a: u8, b: u8, c: u8, d: u8) -> Seq<u8> {
    seq![a, b, c, d]
}

/// A length field left open because the stream has no known end.
pub open spec fn unknown_len() -> Seq<u8> {
    seq![0xFFu8, 0xFFu8, 0xFFu8, 0xFFu8]
}

/// The RIFF/WAVE header of an open-ended linear PCM stream with the given
/// framing: a `RIFF` chunk of unknown size holding a 16-byte `fmt ` chunk
/// (format 1, channels, rate, byte rate, block align, bit depth) followed
/// by a `data` chunk of unknown size.
pub open spec fn pcm_header(rate: nat, channels: nat, bits: nat) -> Seq<u8> {
    tag(0x52, 0x49, 0x46, 0x46)
        + unknown_len()
        + tag(0x57, 0x41, 0x56, 0x45)
        + tag(0x66, 0x6D, 0x74, 0x20)
        + le32(16)
        + le16(1)
        + le16(channels)
        + le32(rate)
        + le32(rate * channels * bits / 8)
        + le16(channels * bits / 8)
        + le16(bits)
        + tag(0x64, 0x61, 0x74, 0x61)
        + unknown_len()
}

/// The header written ahead of the first audio byte of every stream:
/// 44.1 kHz, 16-bit, stereo linear PCM of unknown length.
pub fn wav_header() -> (r: [u8; 44])
    ensures
        r@ == pcm_header(SAMPLE_RATE as nat, CHANNELS as nat, BITS_PER_SAMPLE as nat),
        r@.len() == HEADER_LEN,
{
    let r: [u8; 44] = [
        0x52, 0x49, 0x46, 0x46,
        0xFF, 0xFF, 0xFF, 0xFF,
        0x57, 0x41, 0x56, 0x45,
        0x66, 0x6D, 0x74, 0x20,
        0x10, 0x00, 0x00, 0x00,
        0x01, 0x00,
        0x02, 0x00,
        0x44, 0xAC, 0x00, 0x00,
        0x10, 0xB1, 0x02, 0x00,
        0x04, 0x00,
        0x10, 0x00,
        0x64, 0x61, 0x74, 0x61,
        0xFF, 0xFF, 0xFF, 0xFF,
    ];
    assert(r@ =~= pcm_header(44100, 2, 16));
    r
}

} // verus!
