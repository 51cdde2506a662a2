//! A compact, fixed-layout binary header that precedes a media frame's
//! payload, carrying codec, sample geometry, endianness and two optional
//! 64-bit trailing fields (a correlation id and a presentation timestamp).
//!
//! The crate offers three surfaces over one wire format:
//! a validating constructor for the immutable [`FrameHeader`] value object,
//! a stream codec (`encode` / `decode`) for the bit-exact wire form, and a
//! family of buffer operations (`validate_header`, `extract_*`, `patch_*`)
//! that inspect or rewrite single fields directly on the raw bytes without
//! materializing the value object.

pub mod buffer;
pub mod codec;
pub mod header;
pub mod laws;
pub mod layout;

pub use header::Endianness;
pub use header::EncodingFlag;
pub use header::FrameHeader;
pub use header::HeaderError;
pub use layout::MAGIC_MASK;
pub use layout::MAGIC_SHIFT;
pub use layout::MAGIC_WORD;
pub use layout::MAX_SAMPLE_SIZE;
