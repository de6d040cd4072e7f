//! Assembly of a complete WAVE byte stream from a format description and
//! the raw PCM payload, handed over as the two ordered segments a
//! ring-buffer lock may return.

use vstd::prelude::*;

verus! {

use crate::format::AudioFormatDescriptor;
use crate::header::header_well_formed;
use crate::header::le16_at;
use crate::header::le32_at;
use crate::header::lemma_header_round_trip;
use crate::header::lemma_header_round_trip_sized;
use crate::header::render_header;
use crate::header::render_header_sized;
use crate::header::wav_header_bytes;
use crate::header::wav_header_bytes_sized;

/// Why an encode attempt failed.
#[derive(Clone, Copy, PartialEq, Eq, Structural, Debug)]
pub enum EncodeError {
    /// The format descriptor is malformed; nothing was written.
    InvalidFormat,
    /// The source could not report a usable payload length.
    SourceUnavailable,
    /// The source refused to lock the requested byte range.
    LockFailed,
    /// The source refused to release the locked segments.
    UnlockFailed,
    /// A write to the destination failed.
    SinkWriteFailed,
}

/// The complete WAVE stream for a payload handed over as two ordered
/// segments: the 44-byte header for the combined payload length, then
/// the first segment, then the second.
pub open spec fn wav_file_bytes(
    fmt: AudioFormatDescriptor,
    segment1: Seq<u8>,
    segment2: Seq<u8>,
) -> Seq<u8>
    recommends
        fmt.valid(),
        segment1.len() + segment2.len() <= 0xFFFF_FFFF - 36,
{
    wav_header_bytes(fmt, (segment1.len() + segment2.len()) as u32) + segment1 + segment2
}

/// Append every byte of `src`.
fn append_bytes(out: &mut Vec<u8>, src: &Vec<u8>)
    ensures
        final(out)@ == old(out)@ + src@,
{
    let ghost out0 = out@;
    let n: usize = src.len();
    let mut i: usize = 0;
    while i < n
        invariant
            i <= n,
            n == src@.len(),
            out@ == out0 + src@.subrange(0, i as int),
        decreases n - i,
    {
        out.push(src[i]);
        proof {
            assert(out0 + src@.subrange(0, i as int) + seq![src@[i as int]]
                =~= out0 + src@.subrange(0, i + 1));
        }
        i = i + 1;
    }
    proof {
        assert(out0 + src@.subrange(0, n as int) =~= out0 + src@);
    }
}

/// Encode one payload, given as the two ordered segments of a source
/// lock, into a complete WAVE byte stream. Fails exactly on a malformed
/// format descriptor, before anything is assembled.
pub fn encode_to_bytes(
    fmt: &AudioFormatDescriptor,
    segment1: &Vec<u8>,
    segment2: &Vec<u8>,
) -> (r: Result<Vec<u8>, EncodeError>)
    requires
        segment1@.len() + segment2@.len() <= 0xFFFF_FFFF - 36,
    ensures
        r is Ok <==> fmt.valid(),
        r matches Ok(out) ==> out@ == wav_file_bytes(*fmt, segment1@, segment2@),
        r matches Ok(out) ==> out@.len() == 44 + segment1@.len() + segment2@.len(),
        r matches Err(e) ==> e is InvalidFormat,
{
    if !fmt.is_valid() {
        return Err(EncodeError::InvalidFormat);
    }
    let data_len: u32 = segment1.len() as u32 + segment2.len() as u32;
    let mut out = render_header(fmt, data_len);
    append_bytes(&mut out, segment1);
    append_bytes(&mut out, segment2);
    Ok(out)
}

/// Whether an odd-length payload is followed by a pad byte. The RIFF
/// convention aligns every chunk to a word boundary with a pad byte
/// that counts towards the container but not towards the `data` chunk;
/// `Unpadded` keeps the odd-length stream as it is and is the default
/// the rest of the library uses.
#[derive(Clone, Copy, PartialEq, Eq, Structural, Debug)]
pub enum RiffPadding {
    /// No pad byte after an odd-length payload.
    Unpadded,
    /// One zero pad byte after an odd-length payload.
    WordAligned,
}

/// How many pad bytes a payload of `len` bytes takes under word
/// alignment: one when the length is odd, none when it is even.
pub open spec fn wav_pad_len(len: int) -> int {
    if len % 2 == 1 {
        1int
    } else {
        0int
    }
}

/// The WAVE stream for a payload handed over as two ordered segments,
/// with a zero pad byte after an odd-length payload: the container size
/// counts the pad byte, the `data` chunk size does not.
pub open spec fn wav_file_bytes_padded(
    fmt: AudioFormatDescriptor,
    segment1: Seq<u8>,
    segment2: Seq<u8>,
) -> Seq<u8>
    recommends
        fmt.valid(),
        segment1.len() + segment2.len() + wav_pad_len((segment1.len() + segment2.len()) as int)
            <= 0xFFFF_FFFF - 36,
{
    let len = segment1.len() + segment2.len();
    wav_header_bytes_sized(fmt, len as u32, (36 + len + wav_pad_len(len as int)) as u32) + segment1
        + segment2 + if wav_pad_len(len as int) == 1 {
        seq![0u8]
    } else {
        Seq::<u8>::empty()
    }
}

/// Encode one payload into a WAVE byte stream, padding an odd-length
/// payload with one zero byte when word alignment is asked for. With
/// `Unpadded` this is `encode_to_bytes` exactly; a payload of even
/// length is never padded.
pub fn encode_to_bytes_with_padding(
    fmt: &AudioFormatDescriptor,
    segment1: &Vec<u8>,
    segment2: &Vec<u8>,
    padding: RiffPadding,
) -> (r: Result<Vec<u8>, EncodeError>)
    requires
        segment1@.len() + segment2@.len() + wav_pad_len((segment1@.len() + segment2@.len()) as int) <= 0xFFFF_FFFF - 36,
    ensures
        r is Ok <==> fmt.valid(),
        r matches Ok(out) ==> out@ == if padding is Unpadded {
            wav_file_bytes(*fmt, segment1@, segment2@)
        } else {
            wav_file_bytes_padded(*fmt, segment1@, segment2@)
        },
        r matches Err(e) ==> e is InvalidFormat,
{
    if !fmt.is_valid() {
        return Err(EncodeError::InvalidFormat);
    }
    let len1: usize = segment1.len();
    let len2: usize = segment2.len();
    let data_len: u32 = len1 as u32 + len2 as u32;
    let pad: bool = match padding {
        RiffPadding::Unpadded => false,
        RiffPadding::WordAligned => data_len % 2 == 1,
    };
    let container_size: u32 = if pad {
        37 + data_len
    } else {
        36 + data_len
    };
    let mut out = render_header_sized(fmt, data_len, container_size);
    append_bytes(&mut out, segment1);
    append_bytes(&mut out, segment2);
    if pad {
        out.push(0u8);
    }
    proof {
        if padding is WordAligned {
            assert(out@ =~= wav_file_bytes_padded(*fmt, segment1@, segment2@));
        } else {
            assert(out@ =~= wav_file_bytes(*fmt, segment1@, segment2@));
        }
    }
    Ok(out)
}

/// Round trip for a word-aligned stream: the header fields read back
/// as with the canonical stream, except that the container size also
/// counts the pad byte; the `data` size never does.
pub proof fn lemma_padded_round_trip(
    fmt: AudioFormatDescriptor,
    segment1: Seq<u8>,
    segment2: Seq<u8>,
)
    requires
        fmt.valid(),
        segment1.len() + segment2.len() + wav_pad_len((segment1.len() + segment2.len()) as int)
            <= 0xFFFF_FFFF - 36,
    ensures
        ({
            let len = segment1.len() + segment2.len();
            let s = wav_file_bytes_padded(fmt, segment1, segment2);
            &&& s.len() == 44 + len + wav_pad_len(len as int)
            &&& header_well_formed(s)
            &&& le32_at(s, 4) == 36 + len + wav_pad_len(len as int)
            &&& le32_at(s, 40) == len
            &&& le16_at(s, 22) == fmt.channel_count
            &&& le32_at(s, 24) == fmt.sample_rate_hz
            &&& le16_at(s, 34) == fmt.bits_per_sample
        }),
{
    let len = segment1.len() + segment2.len();
    let s = wav_file_bytes_padded(fmt, segment1, segment2);
    let container = (36 + len + wav_pad_len(len as int)) as u32;
    assert(s.subrange(0, 44) =~= wav_header_bytes_sized(fmt, len as u32, container));
    lemma_header_round_trip_sized(fmt, len as u32, container, s);
}

/// Round trip: a stream encoded from a valid format opens with a well
/// formed header, and a reader of that header recovers the channel
/// count, sample rate and bit depth exactly, together with the container
/// size (36 plus the payload length) and the payload length itself.
pub proof fn lemma_encode_parse_round_trip(
    fmt: AudioFormatDescriptor,
    segment1: Seq<u8>,
    segment2: Seq<u8>,
)
    requires
        fmt.valid(),
        segment1.len() + segment2.len() <= 0xFFFF_FFFF - 36,
    ensures
        ({
            let s = wav_file_bytes(fmt, segment1, segment2);
            &&& s.len() == 44 + segment1.len() + segment2.len()
            &&& header_well_formed(s)
            &&& le32_at(s, 4) == 36 + segment1.len() + segment2.len()
            &&& le16_at(s, 22) == fmt.channel_count
            &&& le32_at(s, 24) == fmt.sample_rate_hz
            &&& le32_at(s, 28) == fmt.byte_rate_spec()
            &&& le16_at(s, 32) == fmt.block_align_spec()
            &&& le16_at(s, 34) == fmt.bits_per_sample
            &&& le32_at(s, 40) == segment1.len() + segment2.len()
        }),
{
    let data_len = (segment1.len() + segment2.len()) as u32;
    let s = wav_file_bytes(fmt, segment1, segment2);
    assert(s.subrange(0, 44) =~= wav_header_bytes(fmt, data_len));
    lemma_header_round_trip(fmt, data_len, s);
}

} // verus!
