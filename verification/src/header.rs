//! The canonical 44-byte RIFF/WAVE header: its byte-level specification,
//! a renderer that emits it, and a parser that reads it back.
//!
//! Layout, with every multi-byte field little-endian:
//! bytes 0..4 `"RIFF"`, 4..8 the container size (36 plus the payload
//! length), 8..12 `"WAVE"`, 12..16 `"fmt "`, 16..20 the format body size
//! (always 16 for canonical PCM), 20..22 the PCM format tag (always 1),
//! 22..24 the channel count, 24..28 the sample rate, 28..32 the byte rate,
//! 32..34 the block alignment, 34..36 the bits per sample, 36..40 `"data"`,
//! 40..44 the payload length. The payload itself starts at byte 44.

use vstd::prelude::*;

verus! {

use crate::format::AudioFormatDescriptor;

/// The two bytes of a 16-bit value in little-endian order.
pub open spec fn le16_bytes(v: u16) -> Seq<u8> {
    seq![(v & 0xFF) as u8, ((v >> 8) & 0xFF) as u8]
}

/// The four bytes of a 32-bit value in little-endian order.
pub open spec fn le32_bytes(v: u32) -> Seq<u8> {
    seq![
        (v & 0xFF) as u8,
        ((v >> 8) & 0xFF) as u8,
        ((v >> 16) & 0xFF) as u8,
        ((v >> 24) & 0xFF) as u8,
    ]
}

/// The value of the 2-byte little-endian field starting at index `i`.
pub open spec fn le16_at(s: Seq<u8>, i: int) -> int {
    s[i] + 0x100 * s[i + 1]
}

/// The value of the 4-byte little-endian field starting at index `i`.
pub open spec fn le32_at(s: Seq<u8>, i: int) -> int {
    s[i] + 0x100 * s[i + 1] + 0x1_0000 * s[i + 2] + 0x100_0000 * s[i + 3]
}

/// Reading a 16-bit little-endian field back yields the encoded value.
pub proof fn lemma_le16_round_trip(v: u16)
    ensures
        le16_at(le16_bytes(v), 0) == v,
{
    assert((v & 0xFF) < 0x100 && ((v >> 8) & 0xFF) < 0x100
        && (v & 0xFF) + 0x100 * ((v >> 8) & 0xFF) == v) by (bit_vector);
}

/// Reading a 32-bit little-endian field back yields the encoded value.
pub proof fn lemma_le32_round_trip(v: u32)
    ensures
        le32_at(le32_bytes(v), 0) == v,
{
    assert((v & 0xFF) < 0x100 && ((v >> 8) & 0xFF) < 0x100
        && ((v >> 16) & 0xFF) < 0x100 && ((v >> 24) & 0xFF) < 0x100
        && (v & 0xFF) + 0x100 * ((v >> 8) & 0xFF) + 0x1_0000 * ((v >> 16) & 0xFF)
            + 0x100_0000 * ((v >> 24) & 0xFF) == v) by (bit_vector);
}

/// The four tag bytes of the outer `RIFF` container.
pub open spec fn riff_tag() -> Seq<u8> {
    seq![0x52u8, 0x49u8, 0x46u8, 0x46u8]
}

/// The four tag bytes of the `WAVE` container profile.
pub open spec fn wave_tag() -> Seq<u8> {
    seq![0x57u8, 0x41u8, 0x56u8, 0x45u8]
}

/// The four tag bytes of the `fmt ` chunk.
pub open spec fn fmt_tag() -> Seq<u8> {
    seq![0x66u8, 0x6Du8, 0x74u8, 0x20u8]
}

/// The four tag bytes of the `data` chunk.
pub open spec fn data_tag() -> Seq<u8> {
    seq![0x64u8, 0x61u8, 0x74u8, 0x61u8]
}

/// The 44 header bytes for a payload of `data_len` bytes, with the
/// `RIFF` container body declared as `container_size` bytes. The
/// container size is a parameter because a pad byte after an
/// odd-length payload counts towards the container but not towards the
/// `data` chunk.
pub open spec fn wav_header_bytes_sized(
    fmt: AudioFormatDescriptor,
    data_len: u32,
    container_size: u32,
) -> Seq<u8>
    recommends
        fmt.valid(),
{
    riff_tag() + le32_bytes(container_size) + wave_tag() + fmt_tag() + le32_bytes(16u32)
        + le16_bytes(1u16) + le16_bytes(fmt.channel_count) + le32_bytes(fmt.sample_rate_hz)
        + le32_bytes(fmt.byte_rate_spec() as u32) + le16_bytes(fmt.block_align_spec() as u16)
        + le16_bytes(fmt.bits_per_sample) + data_tag() + le32_bytes(data_len)
}

/// The complete 44-byte header for an unpadded payload of `data_len`
/// bytes: the container holds the `WAVE` tag (4 bytes), the whole
/// `fmt ` chunk (24 bytes) and the `data` chunk header (8 bytes) before
/// the payload, so its size is 36 plus the payload length.
pub open spec fn wav_header_bytes(fmt: AudioFormatDescriptor, data_len: u32) -> Seq<u8>
    recommends
        fmt.valid(),
        data_len <= 0xFFFF_FFFF - 36,
{
    wav_header_bytes_sized(fmt, data_len, (36 + data_len) as u32)
}

/// The header is 44 bytes long for every format and payload length.
pub proof fn lemma_header_size(fmt: AudioFormatDescriptor, data_len: u32)
    ensures
        wav_header_bytes(fmt, data_len).len() == 44,
{
}

/// Append the two little-endian bytes of `v`.
fn push_le16(out: &mut Vec<u8>, v: u16)
    ensures
        final(out)@ == old(out)@ + le16_bytes(v),
{
    proof {
        assert((v & 0xFF) < 0x100 && ((v >> 8) & 0xFF) < 0x100) by (bit_vector);
    }
    let lo: u8 = (v & 0xFF) as u8;
    let hi: u8 = ((v >> 8) & 0xFF) as u8;
    out.push(lo);
    out.push(hi);
    proof {
        assert(out@ =~= old(out)@ + le16_bytes(v));
    }
}

/// Append the four little-endian bytes of `v`.
fn push_le32(out: &mut Vec<u8>, v: u32)
    ensures
        final(out)@ == old(out)@ + le32_bytes(v),
{
    proof {
        assert((v & 0xFF) < 0x100 && ((v >> 8) & 0xFF) < 0x100
            && ((v >> 16) & 0xFF) < 0x100 && ((v >> 24) & 0xFF) < 0x100) by (bit_vector);
    }
    let b0: u8 = (v & 0xFF) as u8;
    let b1: u8 = ((v >> 8) & 0xFF) as u8;
    let b2: u8 = ((v >> 16) & 0xFF) as u8;
    let b3: u8 = ((v >> 24) & 0xFF) as u8;
    out.push(b0);
    out.push(b1);
    out.push(b2);
    out.push(b3);
    proof {
        assert(out@ =~= old(out)@ + le32_bytes(v));
    }
}

/// Append a four-byte chunk tag.
fn push_tag(out: &mut Vec<u8>, b0: u8, b1: u8, b2: u8, b3: u8)
    ensures
        final(out)@ == old(out)@ + seq![b0, b1, b2, b3],
{
    out.push(b0);
    out.push(b1);
    out.push(b2);
    out.push(b3);
    proof {
        assert(out@ =~= old(out)@ + seq![b0, b1, b2, b3]);
    }
}

/// Emit the 44 header bytes for a valid format, a payload of
/// `data_len` bytes, and a container body of `container_size` bytes.
pub fn render_header_sized(fmt: &AudioFormatDescriptor, data_len: u32, container_size: u32) -> (r:
    Vec<u8>)
    requires
        fmt.valid(),
    ensures
        r@ == wav_header_bytes_sized(*fmt, data_len, container_size),
        r@.len() == 44,
{
    let mut out: Vec<u8> = Vec::with_capacity(44);
    push_tag(&mut out, 0x52, 0x49, 0x46, 0x46);
    push_le32(&mut out, container_size);
    push_tag(&mut out, 0x57, 0x41, 0x56, 0x45);
    push_tag(&mut out, 0x66, 0x6D, 0x74, 0x20);
    push_le32(&mut out, 16);
    push_le16(&mut out, 1);
    push_le16(&mut out, fmt.channel_count);
    push_le32(&mut out, fmt.sample_rate_hz);
    push_le32(&mut out, fmt.byte_rate());
    push_le16(&mut out, fmt.block_align());
    push_le16(&mut out, fmt.bits_per_sample);
    push_tag(&mut out, 0x64, 0x61, 0x74, 0x61);
    push_le32(&mut out, data_len);
    proof {
        assert(out@ =~= wav_header_bytes_sized(*fmt, data_len, container_size));
    }
    out
}

/// Emit the canonical 44-byte header for a valid format and an
/// unpadded payload of `data_len` bytes.
pub fn render_header(fmt: &AudioFormatDescriptor, data_len: u32) -> (r: Vec<u8>)
    requires
        fmt.valid(),
        data_len <= 0xFFFF_FFFF - 36,
    ensures
        r@ == wav_header_bytes(*fmt, data_len),
        r@.len() == 44,
{
    render_header_sized(fmt, data_len, 36 + data_len)
}

/// Four given bytes stand at index `i`.
pub open spec fn has_tag(s: Seq<u8>, i: int, b0: u8, b1: u8, b2: u8, b3: u8) -> bool {
    s[i] == b0 && s[i + 1] == b1 && s[i + 2] == b2 && s[i + 3] == b3
}

/// A byte stream opens with a canonical PCM WAVE header: the three chunk
/// tags and the `WAVE` profile tag are in place, the `fmt ` body is the
/// 16-byte PCM form, and the format tag names PCM.
pub open spec fn header_well_formed(s: Seq<u8>) -> bool {
    &&& s.len() >= 44
    &&& has_tag(s, 0, 0x52, 0x49, 0x46, 0x46)
    &&& has_tag(s, 8, 0x57, 0x41, 0x56, 0x45)
    &&& has_tag(s, 12, 0x66, 0x6D, 0x74, 0x20)
    &&& le32_at(s, 16) == 16
    &&& le16_at(s, 20) == 1
    &&& has_tag(s, 36, 0x64, 0x61, 0x74, 0x61)
}

/// The plain fields a reader recovers from a canonical PCM WAVE header.
#[derive(Clone, Copy, PartialEq, Eq, Structural, Debug)]
pub struct WavHeaderInfo {
    /// Declared size of the `RIFF` container body.
    pub riff_chunk_size: u32,
    /// Number of interleaved channels.
    pub channel_count: u16,
    /// Sample frames per second.
    pub sample_rate_hz: u32,
    /// Payload bytes per second of audio.
    pub byte_rate: u32,
    /// Bytes per sample frame across all channels.
    pub block_align: u16,
    /// Width of a single sample of a single channel.
    pub bits_per_sample: u16,
    /// Declared size of the `data` chunk body: the payload length.
    pub data_chunk_size: u32,
}

/// Read the 2-byte little-endian field at `i`.
fn read_le16(bytes: &Vec<u8>, i: usize) -> (r: u16)
    requires
        i + 2 <= bytes.len(),
    ensures
        r == le16_at(bytes@, i as int),
{
    (bytes[i] as u16) + 0x100 * (bytes[i + 1] as u16)
}

/// Read the 4-byte little-endian field at `i`.
fn read_le32(bytes: &Vec<u8>, i: usize) -> (r: u32)
    requires
        i + 4 <= bytes.len(),
    ensures
        r == le32_at(bytes@, i as int),
{
    (bytes[i] as u32) + 0x100 * (bytes[i + 1] as u32) + 0x1_0000 * (bytes[i + 2] as u32)
        + 0x100_0000 * (bytes[i + 3] as u32)
}

/// Check that four given bytes stand at index `i`.
fn check_tag(bytes: &Vec<u8>, i: usize, b0: u8, b1: u8, b2: u8, b3: u8) -> (r: bool)
    requires
        i + 4 <= bytes.len(),
    ensures
        r == has_tag(bytes@, i as int, b0, b1, b2, b3),
{
    bytes[i] == b0 && bytes[i + 1] == b1 && bytes[i + 2] == b2 && bytes[i + 3] == b3
}

/// Parse the header that opens a byte stream. Returns the recovered
/// fields when the stream opens with a canonical PCM WAVE header, and
/// `None` otherwise.
pub fn parse_wav_header(bytes: &Vec<u8>) -> (r: Option<WavHeaderInfo>)
    ensures
        r is Some <==> header_well_formed(bytes@),
        r matches Some(h) ==> {
            &&& h.riff_chunk_size == le32_at(bytes@, 4)
            &&& h.channel_count == le16_at(bytes@, 22)
            &&& h.sample_rate_hz == le32_at(bytes@, 24)
            &&& h.byte_rate == le32_at(bytes@, 28)
            &&& h.block_align == le16_at(bytes@, 32)
            &&& h.bits_per_sample == le16_at(bytes@, 34)
            &&& h.data_chunk_size == le32_at(bytes@, 40)
        },
{
    if bytes.len() < 44 {
        return None;
    }
    if !check_tag(bytes, 0, 0x52, 0x49, 0x46, 0x46) {
        return None;
    }
    if !check_tag(bytes, 8, 0x57, 0x41, 0x56, 0x45) {
        return None;
    }
    if !check_tag(bytes, 12, 0x66, 0x6D, 0x74, 0x20) {
        return None;
    }
    if read_le32(bytes, 16) != 16 {
        return None;
    }
    if read_le16(bytes, 20) != 1 {
        return None;
    }
    if !check_tag(bytes, 36, 0x64, 0x61, 0x74, 0x61) {
        return None;
    }
    Some(WavHeaderInfo {
        riff_chunk_size: read_le32(bytes, 4),
        channel_count: read_le16(bytes, 22),
        sample_rate_hz: read_le32(bytes, 24),
        byte_rate: read_le32(bytes, 28),
        block_align: read_le16(bytes, 32),
        bits_per_sample: read_le16(bytes, 34),
        data_chunk_size: read_le32(bytes, 40),
    })
}

/// Every byte stream that opens with an emitted header is well formed,
/// and each field read back from it is the value the header was built
/// from: the declared container size, the format fields of the
/// descriptor, and the `data` size — the payload length.
pub proof fn lemma_header_round_trip_sized(
    fmt: AudioFormatDescriptor,
    data_len: u32,
    container: u32,
    s: Seq<u8>,
)
    requires
        fmt.valid(),
        s.len() >= 44,
        s.subrange(0, 44) == wav_header_bytes_sized(fmt, data_len, container),
    ensures
        header_well_formed(s),
        le32_at(s, 4) == container,
        le16_at(s, 22) == fmt.channel_count,
        le32_at(s, 24) == fmt.sample_rate_hz,
        le32_at(s, 28) == fmt.byte_rate_spec(),
        le16_at(s, 32) == fmt.block_align_spec(),
        le16_at(s, 34) == fmt.bits_per_sample,
        le32_at(s, 40) == data_len,
{
    let h = wav_header_bytes_sized(fmt, data_len, container);
    assert forall|i: int| 0 <= i < 44 implies s[i] == #[trigger] h[i] by {
        assert(s[i] == s.subrange(0, 44)[i]);
    }
    let container_size = le32_bytes(container);
    let fmt_body_size = le32_bytes(16u32);
    let format_tag = le16_bytes(1u16);
    let channels = le16_bytes(fmt.channel_count);
    let rate = le32_bytes(fmt.sample_rate_hz);
    let byte_rate = le32_bytes(fmt.byte_rate_spec() as u32);
    let block_align = le16_bytes(fmt.block_align_spec() as u16);
    let bits = le16_bytes(fmt.bits_per_sample);
    let data_size = le32_bytes(data_len);
    assert(h[0] == 0x52 && h[1] == 0x49 && h[2] == 0x46 && h[3] == 0x46);
    assert(h[4] == container_size[0] && h[5] == container_size[1] && h[6] == container_size[2]
        && h[7] == container_size[3]);
    assert(h[8] == 0x57 && h[9] == 0x41 && h[10] == 0x56 && h[11] == 0x45);
    assert(h[12] == 0x66 && h[13] == 0x6D && h[14] == 0x74 && h[15] == 0x20);
    assert(h[16] == fmt_body_size[0] && h[17] == fmt_body_size[1] && h[18] == fmt_body_size[2]
        && h[19] == fmt_body_size[3]);
    assert(h[20] == format_tag[0] && h[21] == format_tag[1]);
    assert(h[22] == channels[0] && h[23] == channels[1]);
    assert(h[24] == rate[0] && h[25] == rate[1] && h[26] == rate[2] && h[27] == rate[3]);
    assert(h[28] == byte_rate[0] && h[29] == byte_rate[1] && h[30] == byte_rate[2]
        && h[31] == byte_rate[3]);
    assert(h[32] == block_align[0] && h[33] == block_align[1]);
    assert(h[34] == bits[0] && h[35] == bits[1]);
    assert(h[36] == 0x64 && h[37] == 0x61 && h[38] == 0x74 && h[39] == 0x61);
    assert(h[40] == data_size[0] && h[41] == data_size[1] && h[42] == data_size[2]
        && h[43] == data_size[3]);
    lemma_le32_round_trip(container);
    lemma_le32_round_trip(16u32);
    lemma_le16_round_trip(1u16);
    lemma_le16_round_trip(fmt.channel_count);
    lemma_le32_round_trip(fmt.sample_rate_hz);
    lemma_le32_round_trip(fmt.byte_rate_spec() as u32);
    lemma_le16_round_trip(fmt.block_align_spec() as u16);
    lemma_le16_round_trip(fmt.bits_per_sample);
    lemma_le32_round_trip(data_len);
}

/// The round trip for the canonical unpadded header: the container size
/// read back is 36 plus the payload length.
pub proof fn lemma_header_round_trip(fmt: AudioFormatDescriptor, data_len: u32, s: Seq<u8>)
    requires
        fmt.valid(),
        data_len <= 0xFFFF_FFFF - 36,
        s.len() >= 44,
        s.subrange(0, 44) == wav_header_bytes(fmt, data_len),
    ensures
        header_well_formed(s),
        le32_at(s, 4) == 36 + data_len,
        le16_at(s, 22) == fmt.channel_count,
        le32_at(s, 24) == fmt.sample_rate_hz,
        le32_at(s, 28) == fmt.byte_rate_spec(),
        le16_at(s, 32) == fmt.block_align_spec(),
        le16_at(s, 34) == fmt.bits_per_sample,
        le32_at(s, 40) == data_len,
{
    lemma_header_round_trip_sized(fmt, data_len, (36 + data_len) as u32, s);
}

} // verus!
