//! Checks of the format descriptor and its derived quantities.

use wav_encoder::format::AudioFormatDescriptor;

fn fmt(channel_count: u16, sample_rate_hz: u32, bits_per_sample: u16) -> AudioFormatDescriptor {
    AudioFormatDescriptor { channel_count, sample_rate_hz, bits_per_sample }
}

#[test]
fn byte_rate_formula() {
    assert_eq!(fmt(2, 44100, 16).byte_rate(), 176400);
    assert_eq!(fmt(1, 8000, 8).byte_rate(), 8000);
    assert_eq!(fmt(2, 48000, 24).byte_rate(), 288000);
    assert_eq!(fmt(6, 96000, 32).byte_rate(), 2304000);
}

#[test]
fn block_align_formula() {
    assert_eq!(fmt(2, 44100, 16).block_align(), 4);
    assert_eq!(fmt(1, 8000, 8).block_align(), 1);
    assert_eq!(fmt(2, 48000, 24).block_align(), 6);
    assert_eq!(fmt(6, 96000, 32).block_align(), 24);
}

#[test]
fn byte_rate_is_rate_times_block_align() {
    for f in [fmt(1, 11025, 8), fmt(2, 22050, 16), fmt(4, 44100, 24), fmt(8, 192000, 32)] {
        assert_eq!(f.byte_rate(), f.sample_rate_hz * (f.block_align() as u32));
    }
}

#[test]
fn validity_boundaries() {
    assert!(fmt(1, 1, 8).is_valid());
    assert!(fmt(2, 44100, 16).is_valid());
    assert!(!fmt(0, 44100, 16).is_valid());
    assert!(!fmt(2, 0, 16).is_valid());
    assert!(!fmt(2, 44100, 15).is_valid());
    // largest block alignment that still fits its 16-bit field
    assert!(fmt(0x3FFF, 1, 32).is_valid());
    assert_eq!(fmt(0x3FFF, 1, 32).block_align(), 0xFFFC);
    assert!(!fmt(0x4000, 1, 32).is_valid());
    // a byte rate just past its 32-bit field is refused
    assert!(fmt(1, 0xFFFF_FFFF, 8).is_valid());
    assert!(!fmt(2, 0xFFFF_FFFF, 8).is_valid());
}
