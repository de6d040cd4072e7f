//! A PCM-to-WAV encoder.
//!
//! Given a description of an interleaved PCM sample layout and the raw
//! sample bytes, the library assembles a canonical RIFF/WAVE byte stream:
//! a fixed 44-byte header (`RIFF` container, `fmt ` chunk, `data` chunk
//! header) followed by the payload. A small protocol state machine drives
//! the surrounding lock/write/unlock sequence against an external sample
//! source, so that a caller performing the actual I/O only relays results.

pub mod encoder;
pub mod format;
pub mod header;
pub mod pipeline;

pub use format::AudioFormatDescriptor;
