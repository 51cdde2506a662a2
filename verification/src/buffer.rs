//! The buffer inspector and mutator: structural validation, single-field
//! extraction, and in-place single-field patching, all directly on the raw
//! byte form and without materializing the value object.
//!
//! Every operation re-derives what it needs from the live bytes — in
//! particular the timestamp's offset, which depends on whether a correlation
//! id is present — and every patch validates the buffer and the new value
//! before touching a byte, so a failed patch leaves the buffer byte-for-byte
//! as it was.

use crate::header::{
    bits_ok, encoding_code, encoding_of_code, rate_ok, spec_bits_code, spec_rate_code,
    EncodingFlag, FrameHeader, HeaderError,
};
use crate::layout::{
    bits_code_of, chan_field_of, enc_code_of, id_flag_of, lemma_field_ranges, magic_of,
    pts_flag_of, rate_code_of, read_u64_at, read_word, sample_size_of, splice_u64, splice_word,
    with_bits_code, with_chan_field, with_enc_code, with_id_flag, with_pts_flag, with_rate_code,
    with_sample_size, word_of_bytes, write_u64_at, write_word, u64_at, BITS_MASK, BITS_SHIFT,
    CHANNELS_MASK, CHANNELS_SHIFT, ENCODING_MASK, ENCODING_SHIFT, ID_MASK, ID_SHIFT, MAGIC_MASK,
    MAGIC_SHIFT, MAGIC_WORD, MAX_SAMPLE_SIZE, PTS_MASK, PTS_SHIFT, SAMPLE_RATE_MASK,
    SAMPLE_RATE_SHIFT, SAMPLE_SIZE_MASK,
};
use vstd::prelude::*;

verus! {

/// Whether a packed word is structurally well formed: the magic pattern in
/// place and every enumerated field within its defined code set. The channel
/// field cannot encode an out-of-range count, but the check mirrors the rule
/// the constructor enforces.
pub open spec fn word_fields_valid(w: u32) -> bool {
    &&& magic_of(w) == MAGIC_WORD
    &&& enc_code_of(w) <= 4
    &&& rate_code_of(w) <= 3
    &&& 1 <= chan_field_of(w) + 1 <= 16
    &&& bits_code_of(w) <= 2
}

/// What structural validation yields: an error only on a buffer shorter than
/// the fixed word, and otherwise whether the word's fields are well formed.
pub open spec fn spec_validate(s: Seq<u8>) -> Result<bool, HeaderError> {
    if s.len() < 4 {
        Err(HeaderError::BufferTooSmall)
    } else {
        Ok(word_fields_valid(word_of_bytes(s)))
    }
}

/// What extracting the sample count yields: the 12-bit field of any buffer
/// that carries the magic pattern.
pub open spec fn spec_extract_sample_count(s: Seq<u8>) -> Result<u16, HeaderError> {
    if s.len() < 4 {
        Err(HeaderError::BufferTooSmall)
    } else if magic_of(word_of_bytes(s)) != MAGIC_WORD {
        Err(HeaderError::InvalidMagic)
    } else {
        Ok(sample_size_of(word_of_bytes(s)) as u16)
    }
}

/// What extracting the encoding yields: the decoded codec tag of any buffer
/// that carries the magic pattern and a defined encoding code.
pub open spec fn spec_extract_encoding(s: Seq<u8>) -> Result<EncodingFlag, HeaderError> {
    if s.len() < 4 {
        Err(HeaderError::BufferTooSmall)
    } else if magic_of(word_of_bytes(s)) != MAGIC_WORD {
        Err(HeaderError::InvalidMagic)
    } else if enc_code_of(word_of_bytes(s)) > 4 {
        Err(HeaderError::InvalidEncoding)
    } else {
        Ok(encoding_of_code(enc_code_of(word_of_bytes(s))))
    }
}

/// What extracting the correlation id yields: absent when its presence bit is
/// clear, whatever the buffer length; otherwise the eight bytes at offset 4,
/// which the buffer must be long enough to hold.
pub open spec fn spec_extract_id(s: Seq<u8>) -> Result<Option<u64>, HeaderError> {
    if s.len() < 4 {
        Err(HeaderError::BufferTooSmall)
    } else if magic_of(word_of_bytes(s)) != MAGIC_WORD {
        Err(HeaderError::InvalidMagic)
    } else if !id_flag_of(word_of_bytes(s)) {
        Ok(None)
    } else if s.len() < 12 {
        Err(HeaderError::TruncatedId)
    } else {
        Ok(Some(u64_at(s, 4)))
    }
}

/// What extracting the timestamp yields: absent when its presence bit is
/// clear; otherwise the eight bytes at offset 12 when a correlation id is
/// also present, and at offset 4 when it is not. The offset is recomputed
/// from the live presence bits on every call, never cached.
pub open spec fn spec_extract_pts(s: Seq<u8>) -> Result<Option<u64>, HeaderError> {
    if s.len() < 4 {
        Err(HeaderError::BufferTooSmall)
    } else if magic_of(word_of_bytes(s)) != MAGIC_WORD {
        Err(HeaderError::InvalidMagic)
    } else if !pts_flag_of(word_of_bytes(s)) {
        Ok(None)
    } else if id_flag_of(word_of_bytes(s)) {
        if s.len() < 20 {
            Err(HeaderError::TruncatedPts)
        } else {
            Ok(Some(u64_at(s, 12)))
        }
    } else {
        if s.len() < 12 {
            Err(HeaderError::TruncatedPts)
        } else {
            Ok(Some(u64_at(s, 4)))
        }
    }
}

/// What patching the sample size yields: the buffer unchanged together with
/// the first failing check (structure, then the value's range), or the
/// buffer with only the 12-bit field rewritten.
pub open spec fn spec_patch_sample_size(s: Seq<u8>, v: u16) -> (Seq<u8>, Result<
    (),
    HeaderError,
>) {
    if s.len() < 4 {
        (s, Err(HeaderError::BufferTooSmall))
    } else if !word_fields_valid(word_of_bytes(s)) {
        (s, Err(HeaderError::InvalidHeader))
    } else if v > MAX_SAMPLE_SIZE {
        (s, Err(HeaderError::InvalidSampleSize))
    } else {
        (splice_word(s, with_sample_size(word_of_bytes(s), v)), Ok(()))
    }
}

/// What patching the bit depth yields, under the constructor's value rule.
pub open spec fn spec_patch_bits_per_sample(s: Seq<u8>, bits: u8) -> (Seq<u8>, Result<
    (),
    HeaderError,
>) {
    if s.len() < 4 {
        (s, Err(HeaderError::BufferTooSmall))
    } else if !word_fields_valid(word_of_bytes(s)) {
        (s, Err(HeaderError::InvalidHeader))
    } else if !bits_ok(bits) {
        (s, Err(HeaderError::InvalidBitsPerSample))
    } else {
        (splice_word(s, with_bits_code(word_of_bytes(s), spec_bits_code(bits))), Ok(()))
    }
}

/// What patching the sample rate yields, under the constructor's value rule.
pub open spec fn spec_patch_sample_rate(s: Seq<u8>, rate: u32) -> (Seq<u8>, Result<
    (),
    HeaderError,
>) {
    if s.len() < 4 {
        (s, Err(HeaderError::BufferTooSmall))
    } else if !word_fields_valid(word_of_bytes(s)) {
        (s, Err(HeaderError::InvalidHeader))
    } else if !rate_ok(rate) {
        (s, Err(HeaderError::InvalidSampleRate))
    } else {
        (splice_word(s, with_rate_code(word_of_bytes(s), spec_rate_code(rate))), Ok(()))
    }
}

/// What patching the encoding yields. Every codec tag has a 3-bit code, so
/// no value check exists; writing the reserved tag leaves a buffer that
/// later validation rejects.
pub open spec fn spec_patch_encoding(s: Seq<u8>, encoding: EncodingFlag) -> (Seq<u8>, Result<
    (),
    HeaderError,
>) {
    if s.len() < 4 {
        (s, Err(HeaderError::BufferTooSmall))
    } else if !word_fields_valid(word_of_bytes(s)) {
        (s, Err(HeaderError::InvalidHeader))
    } else {
        (splice_word(s, with_enc_code(word_of_bytes(s), encoding_code(encoding))), Ok(()))
    }
}

/// What patching the channel count yields, under the constructor's value
/// rule.
pub open spec fn spec_patch_channels(s: Seq<u8>, channels: u8) -> (Seq<u8>, Result<
    (),
    HeaderError,
>) {
    if s.len() < 4 {
        (s, Err(HeaderError::BufferTooSmall))
    } else if !word_fields_valid(word_of_bytes(s)) {
        (s, Err(HeaderError::InvalidHeader))
    } else if channels == 0 || channels > 16 {
        (s, Err(HeaderError::InvalidChannels))
    } else {
        (splice_word(s, with_chan_field(word_of_bytes(s), (channels - 1) as u32)), Ok(()))
    }
}

/// What patching the correlation id yields. Clearing rewrites only the
/// presence bit — the stale trailing bytes become don't-care bytes. Setting
/// requires room for the eight bytes at offset 4 and rewrites the bit and
/// those bytes; a buffer without room is left untouched.
pub open spec fn spec_patch_id(s: Seq<u8>, id: Option<u64>) -> (Seq<u8>, Result<
    (),
    HeaderError,
>) {
    if s.len() < 4 {
        (s, Err(HeaderError::BufferTooSmall))
    } else if !word_fields_valid(word_of_bytes(s)) {
        (s, Err(HeaderError::InvalidHeader))
    } else {
        match id {
            None => (splice_word(s, with_id_flag(word_of_bytes(s), false)), Ok(())),
            Some(v) => {
                if s.len() < 12 {
                    (s, Err(HeaderError::NoRoomForId))
                } else {
                    (splice_u64(splice_word(s, with_id_flag(word_of_bytes(s), true)), 4, v), Ok(()))
                }
            },
        }
    }
}

/// What patching the timestamp yields. The write offset is computed from the
/// buffer's current correlation-id presence bit, which this patch never
/// changes: offset 12 when an id is present, else 4.
pub open spec fn spec_patch_pts(s: Seq<u8>, pts: Option<u64>) -> (Seq<u8>, Result<
    (),
    HeaderError,
>) {
    if s.len() < 4 {
        (s, Err(HeaderError::BufferTooSmall))
    } else if !word_fields_valid(word_of_bytes(s)) {
        (s, Err(HeaderError::InvalidHeader))
    } else {
        match pts {
            None => (splice_word(s, with_pts_flag(word_of_bytes(s), false)), Ok(())),
            Some(v) => {
                let off: int = if id_flag_of(word_of_bytes(s)) {
                    12
                } else {
                    4
                };
                if s.len() < off + 8 {
                    (s, Err(HeaderError::NoRoomForPts))
                } else {
                    (
                        splice_u64(splice_word(s, with_pts_flag(word_of_bytes(s), true)), off, v),
                        Ok(()),
                    )
                }
            },
        }
    }
}

impl FrameHeader {
    /// Checks whether `header_bytes` starts with a structurally well-formed
    /// header word.
    ///
    /// A buffer shorter than the fixed word is a caller error; wrong magic or
    /// an undefined field code is an orderly `false`. A `true` does not
    /// promise that the buffer also holds the optional trailing fields its
    /// presence bits announce — the extract and patch operations that need
    /// those bytes check for them.
    pub fn validate_header(header_bytes: &[u8]) -> (r: Result<bool, HeaderError>)
        ensures
            r == spec_validate(header_bytes@),
    {
        if header_bytes.len() < 4 {
            return Err(HeaderError::BufferTooSmall);
        }
        let w: u32 = read_word(header_bytes);
        proof {
            lemma_field_ranges(w);
        }
        if (w & MAGIC_MASK) >> MAGIC_SHIFT != MAGIC_WORD {
            return Ok(false);
        }
        let encoding: u32 = (w & ENCODING_MASK) >> ENCODING_SHIFT;
        if encoding > 4 {
            return Ok(false);
        }
        let rate_code: u32 = (w & SAMPLE_RATE_MASK) >> SAMPLE_RATE_SHIFT;
        if rate_code > 3 {
            return Ok(false);
        }
        let channels: u32 = ((w & CHANNELS_MASK) >> CHANNELS_SHIFT) + 1;
        if channels == 0 || channels > 16 {
            return Ok(false);
        }
        let bits_code: u32 = (w & BITS_MASK) >> BITS_SHIFT;
        if bits_code > 2 {
            return Ok(false);
        }
        Ok(true)
    }

    /// Reads the sample count from a raw buffer after re-deriving the magic
    /// check, without decoding the rest of the header.
    pub fn extract_sample_count(header_bytes: &[u8]) -> (r: Result<u16, HeaderError>)
        ensures
            r == spec_extract_sample_count(header_bytes@),
    {
        if header_bytes.len() < 4 {
            return Err(HeaderError::BufferTooSmall);
        }
        let w: u32 = read_word(header_bytes);
        if (w & MAGIC_MASK) >> MAGIC_SHIFT != MAGIC_WORD {
            return Err(HeaderError::InvalidMagic);
        }
        proof {
            lemma_field_ranges(w);
        }
        Ok((w & SAMPLE_SIZE_MASK) as u16)
    }

    /// Reads the codec tag from a raw buffer after re-deriving the magic
    /// check, without decoding the rest of the header.
    pub fn extract_encoding(header_bytes: &[u8]) -> (r: Result<EncodingFlag, HeaderError>)
        ensures
            r == spec_extract_encoding(header_bytes@),
    {
        if header_bytes.len() < 4 {
            return Err(HeaderError::BufferTooSmall);
        }
        let w: u32 = read_word(header_bytes);
        if (w & MAGIC_MASK) >> MAGIC_SHIFT != MAGIC_WORD {
            return Err(HeaderError::InvalidMagic);
        }
        match (w & ENCODING_MASK) >> ENCODING_SHIFT {
            0 => Ok(EncodingFlag::PCMSigned),
            1 => Ok(EncodingFlag::PCMFloat),
            2 => Ok(EncodingFlag::Opus),
            3 => Ok(EncodingFlag::FLAC),
            4 => Ok(EncodingFlag::AAC),
            _ => Err(HeaderError::InvalidEncoding),
        }
    }

    /// Reads the correlation id from a raw buffer: absent when the presence
    /// bit is clear, whatever the buffer length; an error when the bit is
    /// set but the buffer cannot hold the eight bytes at offset 4.
    pub fn extract_id(header_bytes: &[u8]) -> (r: Result<Option<u64>, HeaderError>)
        ensures
            r == spec_extract_id(header_bytes@),
    {
        if header_bytes.len() < 4 {
            return Err(HeaderError::BufferTooSmall);
        }
        let w: u32 = read_word(header_bytes);
        if (w & MAGIC_MASK) >> MAGIC_SHIFT != MAGIC_WORD {
            return Err(HeaderError::InvalidMagic);
        }
        proof {
            lemma_field_ranges(w);
        }
        if (w & ID_MASK) >> ID_SHIFT == 0 {
            return Ok(None);
        }
        if header_bytes.len() < 12 {
            return Err(HeaderError::TruncatedId);
        }
        Ok(Some(read_u64_at(header_bytes, 4)))
    }

    /// Reads the timestamp from a raw buffer: absent when the presence bit
    /// is clear; otherwise from offset 12 when a correlation id is also
    /// present and from offset 4 when it is not, recomputed from the live
    /// presence bits on every call.
    pub fn extract_pts(header_bytes: &[u8]) -> (r: Result<Option<u64>, HeaderError>)
        ensures
            r == spec_extract_pts(header_bytes@),
    {
        if header_bytes.len() < 4 {
            return Err(HeaderError::BufferTooSmall);
        }
        let w: u32 = read_word(header_bytes);
        if (w & MAGIC_MASK) >> MAGIC_SHIFT != MAGIC_WORD {
            return Err(HeaderError::InvalidMagic);
        }
        let has_pts: bool = (w & PTS_MASK) >> PTS_SHIFT == 1;
        if !has_pts {
            return Ok(None);
        }
        let has_id: bool = (w & ID_MASK) >> ID_SHIFT == 1;
        let pts_offset: usize = if has_id {
            12
        } else {
            4
        };
        if header_bytes.len() < pts_offset + 8 {
            return Err(HeaderError::TruncatedPts);
        }
        Ok(Some(read_u64_at(header_bytes, pts_offset)))
    }

    /// Rewrites the bit-depth code in place, after validating the buffer and
    /// the new value; every other bit and byte is left as it was.
    pub fn patch_bits_per_sample(header_bytes: &mut Vec<u8>, bits: u8) -> (r: Result<
        (),
        HeaderError,
    >)
        ensures
            final(header_bytes)@ == spec_patch_bits_per_sample(old(header_bytes)@, bits).0,
            r == spec_patch_bits_per_sample(old(header_bytes)@, bits).1,
    {
        let valid: bool = match Self::validate_header(header_bytes.as_slice()) {
            Ok(b) => b,
            Err(e) => {
                return Err(e);
            },
        };
        if !valid {
            return Err(HeaderError::InvalidHeader);
        }
        let bits_code: u32 = match bits {
            16 => 0,
            24 => 1,
            32 => 2,
            _ => {
                return Err(HeaderError::InvalidBitsPerSample);
            },
        };
        let w: u32 = read_word(header_bytes.as_slice());
        let w2: u32 = (w & !BITS_MASK) | ((bits_code << BITS_SHIFT) & BITS_MASK);
        write_word(header_bytes, w2);
        Ok(())
    }

    /// Rewrites the 12-bit sample-size field in place, after validating the
    /// buffer and the new value; every other bit and byte is left as it was.
    pub fn patch_sample_size(header_bytes: &mut Vec<u8>, new_sample_size: u16) -> (r: Result<
        (),
        HeaderError,
    >)
        ensures
            final(header_bytes)@ == spec_patch_sample_size(old(header_bytes)@, new_sample_size).0,
            r == spec_patch_sample_size(old(header_bytes)@, new_sample_size).1,
    {
        let valid: bool = match Self::validate_header(header_bytes.as_slice()) {
            Ok(b) => b,
            Err(e) => {
                return Err(e);
            },
        };
        if !valid {
            return Err(HeaderError::InvalidHeader);
        }
        if new_sample_size > MAX_SAMPLE_SIZE {
            return Err(HeaderError::InvalidSampleSize);
        }
        let w: u32 = read_word(header_bytes.as_slice());
        let w2: u32 = (w & !SAMPLE_SIZE_MASK) | (new_sample_size as u32);
        write_word(header_bytes, w2);
        Ok(())
    }

    /// Rewrites the encoding code in place, after validating the buffer;
    /// every other bit and byte is left as it was.
    pub fn patch_encoding(header_bytes: &mut Vec<u8>, encoding: EncodingFlag) -> (r: Result<
        (),
        HeaderError,
    >)
        ensures
            final(header_bytes)@ == spec_patch_encoding(old(header_bytes)@, encoding).0,
            r == spec_patch_encoding(old(header_bytes)@, encoding).1,
    {
        let valid: bool = match Self::validate_header(header_bytes.as_slice()) {
            Ok(b) => b,
            Err(e) => {
                return Err(e);
            },
        };
        if !valid {
            return Err(HeaderError::InvalidHeader);
        }
        let enc_code: u32 = match encoding {
            EncodingFlag::PCMSigned => 0,
            EncodingFlag::PCMFloat => 1,
            EncodingFlag::Opus => 2,
            EncodingFlag::FLAC => 3,
            EncodingFlag::AAC => 4,
            EncodingFlag::H264 => 5,
        };
        let w: u32 = read_word(header_bytes.as_slice());
        let w2: u32 = (w & !ENCODING_MASK) | ((enc_code << ENCODING_SHIFT) & ENCODING_MASK);
        write_word(header_bytes, w2);
        Ok(())
    }

    /// Rewrites the sample-rate code in place, after validating the buffer
    /// and the new value; every other bit and byte is left as it was.
    pub fn patch_sample_rate(header_bytes: &mut Vec<u8>, sample_rate: u32) -> (r: Result<
        (),
        HeaderError,
    >)
        ensures
            final(header_bytes)@ == spec_patch_sample_rate(old(header_bytes)@, sample_rate).0,
            r == spec_patch_sample_rate(old(header_bytes)@, sample_rate).1,
    {
        let valid: bool = match Self::validate_header(header_bytes.as_slice()) {
            Ok(b) => b,
            Err(e) => {
                return Err(e);
            },
        };
        if !valid {
            return Err(HeaderError::InvalidHeader);
        }
        let rate_code: u32 = match sample_rate {
            16000 => 0,
            44100 => 1,
            48000 => 2,
            96000 => 3,
            _ => {
                return Err(HeaderError::InvalidSampleRate);
            },
        };
        let w: u32 = read_word(header_bytes.as_slice());
        let w2: u32 = (w & !SAMPLE_RATE_MASK) | ((rate_code << SAMPLE_RATE_SHIFT)
            & SAMPLE_RATE_MASK);
        write_word(header_bytes, w2);
        Ok(())
    }

    /// Rewrites the channel field in place, after validating the buffer and
    /// the new count; every other bit and byte is left as it was.
    pub fn patch_channels(header_bytes: &mut Vec<u8>, channels: u8) -> (r: Result<
        (),
        HeaderError,
    >)
        ensures
            final(header_bytes)@ == spec_patch_channels(old(header_bytes)@, channels).0,
            r == spec_patch_channels(old(header_bytes)@, channels).1,
    {
        let valid: bool = match Self::validate_header(header_bytes.as_slice()) {
            Ok(b) => b,
            Err(e) => {
                return Err(e);
            },
        };
        if !valid {
            return Err(HeaderError::InvalidHeader);
        }
        if channels == 0 || channels > 16 {
            return Err(HeaderError::InvalidChannels);
        }
        let w: u32 = read_word(header_bytes.as_slice());
        let w2: u32 = (w & !CHANNELS_MASK) | ((((channels - 1) as u32) << CHANNELS_SHIFT)
            & CHANNELS_MASK);
        write_word(header_bytes, w2);
        Ok(())
    }

    /// Sets or clears the correlation id on the byte form. Setting writes
    /// the presence bit and the eight bytes at offset 4 and needs room for
    /// them; clearing rewrites only the bit, leaving the stale bytes as
    /// don't-care bytes beyond the header's reported size. A failed patch
    /// leaves the buffer byte-for-byte as it was.
    pub fn patch_id(header_bytes: &mut Vec<u8>, id: Option<u64>) -> (r: Result<(), HeaderError>)
        ensures
            final(header_bytes)@ == spec_patch_id(old(header_bytes)@, id).0,
            r == spec_patch_id(old(header_bytes)@, id).1,
    {
        let valid: bool = match Self::validate_header(header_bytes.as_slice()) {
            Ok(b) => b,
            Err(e) => {
                return Err(e);
            },
        };
        if !valid {
            return Err(HeaderError::InvalidHeader);
        }
        let w: u32 = read_word(header_bytes.as_slice());
        let id_bit: u32 = if id.is_some() {
            1
        } else {
            0
        };
        let w2: u32 = (w & !ID_MASK) | ((id_bit << ID_SHIFT) & ID_MASK);
        match id {
            None => {
                write_word(header_bytes, w2);
                Ok(())
            },
            Some(id_value) => {
                if header_bytes.len() < 12 {
                    return Err(HeaderError::NoRoomForId);
                }
                write_word(header_bytes, w2);
                write_u64_at(header_bytes, 4, id_value);
                Ok(())
            },
        }
    }

    /// Sets or clears the timestamp on the byte form. The write offset is
    /// computed from the buffer's current correlation-id presence bit, which
    /// this patch never changes: offset 12 when an id is present, else 4.
    /// Setting needs room for the eight bytes at that offset; a failed patch
    /// leaves the buffer byte-for-byte as it was.
    pub fn patch_pts(header_bytes: &mut Vec<u8>, pts: Option<u64>) -> (r: Result<(), HeaderError>)
        ensures
            final(header_bytes)@ == spec_patch_pts(old(header_bytes)@, pts).0,
            r == spec_patch_pts(old(header_bytes)@, pts).1,
    {
        let valid: bool = match Self::validate_header(header_bytes.as_slice()) {
            Ok(b) => b,
            Err(e) => {
                return Err(e);
            },
        };
        if !valid {
            return Err(HeaderError::InvalidHeader);
        }
        let w: u32 = read_word(header_bytes.as_slice());
        let pts_bit: u32 = if pts.is_some() {
            1
        } else {
            0
        };
        let w2: u32 = (w & !PTS_MASK) | ((pts_bit << PTS_SHIFT) & PTS_MASK);
        let has_id: bool = (w & ID_MASK) >> ID_SHIFT == 1;
        let pts_offset: usize = if has_id {
            12
        } else {
            4
        };
        match pts {
            None => {
                write_word(header_bytes, w2);
                Ok(())
            },
            Some(pts_value) => {
                if header_bytes.len() < pts_offset + 8 {
                    return Err(HeaderError::NoRoomForPts);
                }
                write_word(header_bytes, w2);
                write_u64_at(header_bytes, pts_offset, pts_value);
                Ok(())
            },
        }
    }
}

} // verus!
