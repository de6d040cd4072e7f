//! Description of an interleaved PCM sample layout and its derived
//! framing quantities (block alignment and byte rate).

use vstd::prelude::*;

verus! {

use vstd::arithmetic::mul::lemma_mul_is_associative;
use vstd::arithmetic::mul::lemma_mul_upper_bound;

/// An immutable description of a PCM sample layout: how many interleaved
/// channels, how many sample frames per second, and how wide one sample of
/// one channel is. The derived quantities `block_align` (bytes per frame
/// across all channels) and `byte_rate` (payload bytes per second) follow
/// from these three fields.
#[derive(Clone, Copy, PartialEq, Eq, Structural, Debug)]
pub struct AudioFormatDescriptor {
    /// Number of interleaved channels; at least 1.
    pub channel_count: u16,
    /// Sample frames per second; at least 1.
    pub sample_rate_hz: u32,
    /// Width of a single sample of a single channel: 8, 16, 24 or 32.
    pub bits_per_sample: u16,
}

impl AudioFormatDescriptor {
    /// Bytes per sample frame across all channels.
    pub open spec fn block_align_spec(self) -> int {
        self.channel_count * self.bits_per_sample / 8
    }

    /// Payload bytes consumed per second of audio.
    pub open spec fn byte_rate_spec(self) -> int {
        self.sample_rate_hz * self.channel_count * self.bits_per_sample / 8
    }

    /// A descriptor is valid when every field lies in its allowed range and
    /// the derived quantities fit the 16-bit and 32-bit header fields that
    /// carry them in a canonical WAVE header.
    pub open spec fn valid(self) -> bool {
        &&& self.channel_count >= 1
        &&& self.sample_rate_hz >= 1
        &&& (self.bits_per_sample == 8 || self.bits_per_sample == 16
            || self.bits_per_sample == 24 || self.bits_per_sample == 32)
        &&& self.block_align_spec() <= 0xFFFF
        &&& self.byte_rate_spec() <= 0xFFFF_FFFF
    }

    /// Decide validity of this descriptor.
    pub fn is_valid(&self) -> (r: bool)
        ensures
            r == self.valid(),
    {
        if self.channel_count < 1 {
            return false;
        }
        if self.sample_rate_hz < 1 {
            return false;
        }
        if !(self.bits_per_sample == 8 || self.bits_per_sample == 16
            || self.bits_per_sample == 24 || self.bits_per_sample == 32) {
            return false;
        }
        proof {
            lemma_mul_upper_bound(self.channel_count as int, 0xFFFF, self.bits_per_sample as int, 32);
        }
        let frame_bits: u32 = (self.channel_count as u32) * (self.bits_per_sample as u32);
        let block_align: u32 = frame_bits / 8;
        if block_align > 0xFFFF {
            return false;
        }
        proof {
            lemma_mul_upper_bound(self.sample_rate_hz as int, 0xFFFF_FFFF, frame_bits as int, 0xFFFFint * 32);
            lemma_mul_is_associative(
                self.sample_rate_hz as int,
                self.channel_count as int,
                self.bits_per_sample as int,
            );
        }
        let bit_rate: u64 = (self.sample_rate_hz as u64) * (frame_bits as u64);
        bit_rate / 8 <= 0xFFFF_FFFF
    }

    /// Bytes per sample frame across all channels.
    pub fn block_align(&self) -> (r: u16)
        requires
            self.valid(),
        ensures
            r == self.block_align_spec(),
    {
        proof {
            lemma_mul_upper_bound(self.channel_count as int, 0xFFFF, self.bits_per_sample as int, 32);
        }
        let frame_bits: u32 = (self.channel_count as u32) * (self.bits_per_sample as u32);
        (frame_bits / 8) as u16
    }

    /// Payload bytes consumed per second of audio.
    pub fn byte_rate(&self) -> (r: u32)
        requires
            self.valid(),
        ensures
            r == self.byte_rate_spec(),
    {
        proof {
            lemma_mul_upper_bound(self.channel_count as int, 0xFFFF, self.bits_per_sample as int, 32);
            lemma_mul_upper_bound(
                self.sample_rate_hz as int,
                0xFFFF_FFFF,
                self.channel_count as int * self.bits_per_sample as int,
                0xFFFFint * 32,
            );
            lemma_mul_is_associative(
                self.sample_rate_hz as int,
                self.channel_count as int,
                self.bits_per_sample as int,
            );
        }
        let frame_bits: u64 = (self.channel_count as u64) * (self.bits_per_sample as u64);
        let bit_rate: u64 = (self.sample_rate_hz as u64) * frame_bits;
        (bit_rate / 8) as u32
    }
}

/// The byte rate of a valid descriptor equals the sample rate times the
/// block alignment: the per-frame byte count is exact because the sample
/// width is always a whole number of bytes.
pub proof fn lemma_byte_rate_is_rate_times_block_align(fmt: AudioFormatDescriptor)
    requires
        fmt.valid(),
    ensures
        fmt.byte_rate_spec() == fmt.sample_rate_hz * fmt.block_align_spec(),
{
    let r = fmt.sample_rate_hz as int;
    let c = fmt.channel_count as int;
    let b = fmt.bits_per_sample as int;
    lemma_mul_is_associative(r, c, b);
    assert(r * c * b / 8 == r * (c * b / 8)) by (nonlinear_arith)
        requires
            b == 8 || b == 16 || b == 24 || b == 32,
            r >= 0,
            c >= 0,
    ;
}

} // verus!

