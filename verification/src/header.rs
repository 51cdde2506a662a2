//! The decoded header value object: its field types, its validation rules,
//! and the mathematical model of its wire form.
//!
//! A [`FrameHeader`] is built once through the validating constructor
//! [`FrameHeader::new`] and is immutable afterwards: fields are only ever
//! changed on the encoded byte form, through the patch operations on raw
//! buffers.

use crate::layout::{
    bytes_of_u64, bytes_of_word, pack_word, MAX_SAMPLE_SIZE,
};
use vstd::prelude::*;

verus! {

/// Byte order of the payload samples. It describes the frame's payload, not
/// the header's own wire form, which is always big-endian.
#[derive(Clone, Copy, Debug, PartialEq, Eq, Structural)]
pub enum Endianness {
    LittleEndian,
    BigEndian,
}

/// Codec tag of the frame's payload.
///
/// The wire field is three bits wide, and only the first five tags are
/// decodable today; `H264` is reserved and a word carrying its code is
/// rejected by `decode` and by `validate_header`.
#[derive(Clone, Copy, Debug, PartialEq, Eq, Structural)]
pub enum EncodingFlag {
    PCMSigned,
    PCMFloat,
    Opus,
    FLAC,
    AAC,
    H264,
}

/// Why a header, a buffer or a requested field value was rejected.
///
/// Structural errors (`BufferTooSmall`, `InvalidMagic`, `InvalidHeader`,
/// `UnexpectedEnd`, the two `Truncated` and the two `NoRoomFor` variants)
/// mean the bytes at hand are not, or cannot hold, a header of this format;
/// the `Invalid*` field variants mean a supplied value is outside the legal
/// set that both the constructor and the patch operations enforce.
#[derive(Clone, Copy, Debug, PartialEq, Eq, Structural)]
pub enum HeaderError {
    /// The buffer is shorter than the fixed 4-byte word.
    BufferTooSmall,
    /// The top bits of the word do not hold the magic pattern.
    InvalidMagic,
    /// An encoding outside the decodable set, on the wire or as an argument.
    InvalidEncoding,
    /// A sample rate outside {16000, 44100, 48000, 96000}.
    InvalidSampleRate,
    /// A bit depth outside {16, 24, 32}, on the wire or as an argument.
    InvalidBitsPerSample,
    /// A channel count outside 1..=16.
    InvalidChannels,
    /// A sample size over the 12-bit maximum.
    InvalidSampleSize,
    /// A patch target that failed structural validation.
    InvalidHeader,
    /// The word flags a correlation id but the buffer cannot hold it.
    TruncatedId,
    /// The word flags a timestamp but the buffer cannot hold it.
    TruncatedPts,
    /// A patch would set a correlation id but the buffer has no room for it.
    NoRoomForId,
    /// A patch would set a timestamp but the buffer has no room for it.
    NoRoomForPts,
    /// The byte source ended before the header was complete.
    UnexpectedEnd,
}

/// The decoded, validated, in-memory form of a frame header.
///
/// The fields are public so that contracts can speak about them directly;
/// they satisfy [`FrameHeader::wf`] for every header built by the constructor
/// or the decoder, and nothing in this crate mutates a built header.
#[derive(Clone, Copy, Debug)]
pub struct FrameHeader {
    /// Codec tag of the payload.
    pub encoding: EncodingFlag,
    /// Samples per channel in this frame, or a codec-specific block size.
    pub sample_size: u16,
    /// Sample rate in hertz, one of the four enumerated rates.
    pub sample_rate: u32,
    /// Channel count, 1 to 16.
    pub channels: u8,
    /// Bit depth of a sample, one of 16, 24 or 32.
    pub bits_per_sample: u8,
    /// Byte order of the payload samples.
    pub endianness: Endianness,
    /// Optional 64-bit correlation identifier.
    pub id: Option<u64>,
    /// Optional 64-bit presentation timestamp.
    pub pts: Option<u64>,
}

/// Whether `rate` is one of the four encodable sample rates.
pub open spec fn rate_ok(rate: u32) -> bool {
    rate == 16000 || rate == 44100 || rate == 48000 || rate == 96000
}

/// The 2-bit wire code of an encodable sample rate.
pub open spec fn spec_rate_code(rate: u32) -> u32
    recommends
        rate_ok(rate),
{
    if rate == 16000 {
        0
    } else if rate == 44100 {
        1
    } else if rate == 48000 {
        2
    } else {
        3
    }
}

/// The sample rate that a 2-bit wire code stands for.
pub open spec fn rate_of_code(code: u32) -> u32
    recommends
        code <= 3,
{
    if code == 0 {
        16000
    } else if code == 1 {
        44100
    } else if code == 2 {
        48000
    } else {
        96000
    }
}

/// Whether `bits` is one of the three encodable bit depths.
pub open spec fn bits_ok(bits: u8) -> bool {
    bits == 16 || bits == 24 || bits == 32
}

/// The 2-bit wire code of an encodable bit depth.
pub open spec fn spec_bits_code(bits: u8) -> u32
    recommends
        bits_ok(bits),
{
    if bits == 16 {
        0
    } else if bits == 24 {
        1
    } else {
        2
    }
}

/// The bit depth that a 2-bit wire code stands for; code 3 is undefined.
pub open spec fn bits_of_code(code: u32) -> u8
    recommends
        code <= 2,
{
    if code == 0 {
        16
    } else if code == 1 {
        24
    } else {
        32
    }
}

/// The 3-bit wire code of a codec tag.
pub open spec fn encoding_code(e: EncodingFlag) -> u32 {
    match e {
        EncodingFlag::PCMSigned => 0,
        EncodingFlag::PCMFloat => 1,
        EncodingFlag::Opus => 2,
        EncodingFlag::FLAC => 3,
        EncodingFlag::AAC => 4,
        EncodingFlag::H264 => 5,
    }
}

/// The codec tag that a decodable 3-bit wire code stands for.
pub open spec fn encoding_of_code(code: u32) -> EncodingFlag
    recommends
        code <= 4,
{
    if code == 0 {
        EncodingFlag::PCMSigned
    } else if code == 1 {
        EncodingFlag::PCMFloat
    } else if code == 2 {
        EncodingFlag::Opus
    } else if code == 3 {
        EncodingFlag::FLAC
    } else {
        EncodingFlag::AAC
    }
}

/// The single-bit wire code of a payload byte order.
pub open spec fn endian_code(e: Endianness) -> u32 {
    match e {
        Endianness::LittleEndian => 0,
        Endianness::BigEndian => 1,
    }
}

/// The payload byte order that the endianness bit stands for.
pub open spec fn endian_of_code(code: u32) -> Endianness {
    if code == 0 {
        Endianness::LittleEndian
    } else {
        Endianness::BigEndian
    }
}

impl FrameHeader {
    /// The magic pattern, re-exposed on the type for callers that probe raw
    /// words.
    pub const MAGIC_WORD: u32 = crate::layout::MAGIC_WORD;

    /// The magic pattern's bit position, re-exposed on the type.
    pub const MAGIC_SHIFT: u32 = crate::layout::MAGIC_SHIFT;

    /// The magic pattern's mask, re-exposed on the type.
    pub const MAGIC_MASK: u32 = crate::layout::MAGIC_MASK;

    /// The invariant of every live header: each field lies in the set that
    /// the constructor accepts.
    pub open spec fn wf(self) -> bool {
        &&& 1 <= self.channels <= 16
        &&& bits_ok(self.bits_per_sample)
        &&& self.sample_size <= MAX_SAMPLE_SIZE
        &&& rate_ok(self.sample_rate)
    }

    /// The exact wire size of this header: the fixed word plus eight bytes
    /// for each optional field that is present.
    pub open spec fn spec_size(self) -> int {
        4 + (if self.id is Some {
            8int
        } else {
            0
        }) + (if self.pts is Some {
            8int
        } else {
            0
        })
    }

    /// The packed 32-bit word of this header.
    pub open spec fn wire_word(self) -> u32
        recommends
            self.wf(),
    {
        pack_word(
            spec_rate_code(self.sample_rate),
            spec_bits_code(self.bits_per_sample),
            self.pts is Some,
            self.id is Some,
            encoding_code(self.encoding),
            endian_code(self.endianness),
            (self.channels - 1) as u32,
            self.sample_size as u32,
        )
    }

    /// The complete wire form of this header: the packed word, then the
    /// correlation id if present, then the timestamp if present, each
    /// big-endian.
    pub open spec fn encoded_bytes(self) -> Seq<u8>
        recommends
            self.wf(),
    {
        bytes_of_word(self.wire_word()) + (match self.id {
            Some(v) => bytes_of_u64(v),
            None => Seq::<u8>::empty(),
        }) + (match self.pts {
            Some(v) => bytes_of_u64(v),
            None => Seq::<u8>::empty(),
        })
    }

    /// Builds a validated header, rejecting the first out-of-range input:
    /// channel range first, then bit depth, then sample size, then sample
    /// rate. No field is clamped, and no partially-valid header exists.
    pub fn new(
        encoding: EncodingFlag,
        sample_size: u16,
        sample_rate: u32,
        channels: u8,
        bits_per_sample: u8,
        endianness: Endianness,
        id: Option<u64>,
        pts: Option<u64>,
    ) -> (r: Result<FrameHeader, HeaderError>)
        ensures
            r is Ok <==> (1 <= channels <= 16 && bits_ok(bits_per_sample) && sample_size
                <= MAX_SAMPLE_SIZE && rate_ok(sample_rate)),
            r is Ok ==> r->Ok_0 == (FrameHeader {
                encoding,
                sample_size,
                sample_rate,
                channels,
                bits_per_sample,
                endianness,
                id,
                pts,
            }),
            r is Ok ==> r->Ok_0.wf(),
            !(1 <= channels <= 16) ==> r == Result::<FrameHeader, HeaderError>::Err(
                HeaderError::InvalidChannels,
            ),
            1 <= channels <= 16 && !bits_ok(bits_per_sample) ==> r == Result::<
                FrameHeader,
                HeaderError,
            >::Err(HeaderError::InvalidBitsPerSample),
            1 <= channels <= 16 && bits_ok(bits_per_sample) && sample_size > MAX_SAMPLE_SIZE ==> r
                == Result::<FrameHeader, HeaderError>::Err(HeaderError::InvalidSampleSize),
            1 <= channels <= 16 && bits_ok(bits_per_sample) && sample_size <= MAX_SAMPLE_SIZE
                && !rate_ok(sample_rate) ==> r == Result::<FrameHeader, HeaderError>::Err(
                HeaderError::InvalidSampleRate,
            ),
    {
        if channels == 0 || channels > 16 {
            return Err(HeaderError::InvalidChannels);
        }
        match bits_per_sample {
            16 | 24 | 32 => {},
            _ => {
                return Err(HeaderError::InvalidBitsPerSample);
            },
        }
        if sample_size > MAX_SAMPLE_SIZE {
            return Err(HeaderError::InvalidSampleSize);
        }
        if !(sample_rate == 16000 || sample_rate == 44100 || sample_rate == 48000 || sample_rate
            == 96000) {
            return Err(HeaderError::InvalidSampleRate);
        }
        Ok(
            FrameHeader {
                encoding,
                sample_size,
                sample_rate,
                channels,
                bits_per_sample,
                endianness,
                id,
                pts,
            },
        )
    }

    /// The exact number of bytes this header occupies on the wire.
    pub fn size(&self) -> (r: usize)
        ensures
            r == self.spec_size(),
    {
        let mut n: usize = 4;
        if self.id.is_some() {
            n = n + 8;
        }
        if self.pts.is_some() {
            n = n + 8;
        }
        n
    }

    /// The payload codec tag.
    pub fn encoding(&self) -> (r: &EncodingFlag)
        ensures
            *r == self.encoding,
    {
        &self.encoding
    }

    /// The samples-per-channel count or codec-specific block size.
    pub fn sample_size(&self) -> (r: u16)
        ensures
            r == self.sample_size,
    {
        self.sample_size
    }

    /// The sample rate in hertz.
    pub fn sample_rate(&self) -> (r: u32)
        ensures
            r == self.sample_rate,
    {
        self.sample_rate
    }

    /// The channel count.
    pub fn channels(&self) -> (r: u8)
        ensures
            r == self.channels,
    {
        self.channels
    }

    /// The bit depth of a payload sample.
    pub fn bits_per_sample(&self) -> (r: u8)
        ensures
            r == self.bits_per_sample,
    {
        self.bits_per_sample
    }

    /// The byte order of the payload samples.
    pub fn endianness(&self) -> (r: &Endianness)
        ensures
            *r == self.endianness,
    {
        &self.endianness
    }

    /// The correlation identifier, if one is present.
    pub fn id(&self) -> (r: Option<u64>)
        ensures
            r == self.id,
    {
        self.id
    }

    /// The presentation timestamp, if one is present.
    pub fn pts(&self) -> (r: Option<u64>)
        ensures
            r == self.pts,
    {
        self.pts
    }
}

} // verus!
