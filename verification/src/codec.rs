//! The stream codec: bit-exact encoding of a header into bytes and decoding
//! of bytes back into the value object.
//!
//! The wire form is a big-endian 32-bit packed word, then the correlation id
//! if its presence bit is set, then the timestamp if its presence bit is set,
//! each as eight big-endian bytes. [`spec_decode`] is the mathematical
//! statement of the whole decoding, and `decode` returns exactly it.

use crate::header::{
    bits_of_code, encoding_of_code, endian_of_code, rate_of_code, EncodingFlag, Endianness,
    FrameHeader, HeaderError,
};
use crate::layout::{
    bits_code_of, chan_field_of, enc_code_of, endian_code_of, id_flag_of, lemma_field_ranges,
    magic_of, pts_flag_of, push_u64, push_word, rate_code_of, read_u64_at, read_word,
    sample_size_of, u64_at, word_of_bytes, BITS_MASK, BITS_SHIFT, CHANNELS_MASK, CHANNELS_SHIFT,
    ENCODING_MASK, ENCODING_SHIFT, ENDIAN_MASK, ENDIAN_SHIFT, ID_MASK, ID_SHIFT, MAGIC_MASK,
    MAGIC_SHIFT, MAGIC_WORD, PTS_MASK, PTS_SHIFT, SAMPLE_RATE_MASK, SAMPLE_RATE_SHIFT,
    SAMPLE_SIZE_MASK,
};
use vstd::prelude::*;

verus! {

/// What decoding a byte sequence yields: the first failing check in wire
/// order (truncated word, wrong magic, undefined bit-depth code, undefined
/// encoding code, then a truncated optional field), or the fully decoded
/// header.
pub open spec fn spec_decode(s: Seq<u8>) -> Result<FrameHeader, HeaderError> {
    if s.len() < 4 {
        Err(HeaderError::UnexpectedEnd)
    } else {
        let w = word_of_bytes(s);
        if magic_of(w) != MAGIC_WORD {
            Err(HeaderError::InvalidMagic)
        } else if bits_code_of(w) > 2 {
            Err(HeaderError::InvalidBitsPerSample)
        } else if enc_code_of(w) > 4 {
            Err(HeaderError::InvalidEncoding)
        } else if id_flag_of(w) && s.len() < 12 {
            Err(HeaderError::UnexpectedEnd)
        } else if pts_flag_of(w) && s.len() < (if id_flag_of(w) {
            20int
        } else {
            12
        }) {
            Err(HeaderError::UnexpectedEnd)
        } else {
            Ok(
                FrameHeader {
                    encoding: encoding_of_code(enc_code_of(w)),
                    sample_size: sample_size_of(w) as u16,
                    sample_rate: rate_of_code(rate_code_of(w)),
                    channels: (chan_field_of(w) + 1) as u8,
                    bits_per_sample: bits_of_code(bits_code_of(w)),
                    endianness: endian_of_code(endian_code_of(w)),
                    id: if id_flag_of(w) {
                        Some(u64_at(s, 4))
                    } else {
                        None
                    },
                    pts: if pts_flag_of(w) {
                        Some(
                            u64_at(
                                s,
                                if id_flag_of(w) {
                                    12
                                } else {
                                    4
                                },
                            ),
                        )
                    } else {
                        None
                    },
                },
            )
        }
    }
}

impl FrameHeader {
    /// Packs this header into its wire form and appends it to `buffer`.
    ///
    /// The wire word is written big-endian, independent of the header's
    /// `endianness` field, which describes the payload samples only. The
    /// `Result` is kept for the codec surface, but on a well-formed header
    /// every field maps to a wire code, so the call always succeeds.
    pub fn encode(&self, buffer: &mut Vec<u8>) -> (r: Result<(), HeaderError>)
        requires
            self.wf(),
        ensures
            r is Ok,
            final(buffer)@ == old(buffer)@ + self.encoded_bytes(),
            final(buffer)@.len() == old(buffer)@.len() + self.spec_size(),
    {
        let rate_code: u32 = match self.sample_rate {
            16000 => 0,
            44100 => 1,
            48000 => 2,
            96000 => 3,
            _ => {
                return Err(HeaderError::InvalidSampleRate);
            },
        };
        let bits_code: u32 = match self.bits_per_sample {
            16 => 0,
            24 => 1,
            32 => 2,
            _ => {
                return Err(HeaderError::InvalidBitsPerSample);
            },
        };
        let enc_code: u32 = match self.encoding {
            EncodingFlag::PCMSigned => 0,
            EncodingFlag::PCMFloat => 1,
            EncodingFlag::Opus => 2,
            EncodingFlag::FLAC => 3,
            EncodingFlag::AAC => 4,
            EncodingFlag::H264 => 5,
        };
        let end_code: u32 = match self.endianness {
            Endianness::LittleEndian => 0,
            Endianness::BigEndian => 1,
        };
        let pts_bit: u32 = if self.pts.is_some() {
            1
        } else {
            0
        };
        let id_bit: u32 = if self.id.is_some() {
            1
        } else {
            0
        };
        let chan_field: u32 = (self.channels - 1) as u32;
        let ssize: u32 = self.sample_size as u32;
        let w: u32 = (MAGIC_WORD << MAGIC_SHIFT) | (rate_code << SAMPLE_RATE_SHIFT) | (bits_code
            << BITS_SHIFT) | (pts_bit << PTS_SHIFT) | (id_bit << ID_SHIFT) | (enc_code
            << ENCODING_SHIFT) | (end_code << ENDIAN_SHIFT) | (chan_field << CHANNELS_SHIFT)
            | ssize;
        proof {
            assert(w == self.wire_word());
        }
        push_word(buffer, w);
        if let Some(idv) = self.id {
            push_u64(buffer, idv);
        }
        if let Some(ptsv) = self.pts {
            push_u64(buffer, ptsv);
        }
        proof {
            assert(buffer@ =~= old(buffer)@ + self.encoded_bytes());
        }
        Ok(())
    }

    /// Decodes a header from the front of `bytes`, ignoring anything after
    /// it.
    ///
    /// The magic field is checked first and a mismatch fails immediately:
    /// this is the format-sniffing check. Undefined wire codes fail as
    /// structural errors, while a buffer that ends before a promised field
    /// fails with the distinct end-of-input error. The result is exactly
    /// [`spec_decode`] of the bytes, and every decoded header is well formed.
    pub fn decode(bytes: &[u8]) -> (r: Result<FrameHeader, HeaderError>)
        ensures
            r == spec_decode(bytes@),
            r is Ok ==> r->Ok_0.wf(),
    {
        if bytes.len() < 4 {
            return Err(HeaderError::UnexpectedEnd);
        }
        let w: u32 = read_word(bytes);
        proof {
            lemma_field_ranges(w);
        }
        if (w & MAGIC_MASK) >> MAGIC_SHIFT != MAGIC_WORD {
            return Err(HeaderError::InvalidMagic);
        }
        let sample_rate: u32 = match (w & SAMPLE_RATE_MASK) >> SAMPLE_RATE_SHIFT {
            0 => 16000,
            1 => 44100,
            2 => 48000,
            3 => 96000,
            _ => {
                return Err(HeaderError::InvalidSampleRate);
            },
        };
        let bits_per_sample: u8 = match (w & BITS_MASK) >> BITS_SHIFT {
            0 => 16,
            1 => 24,
            2 => 32,
            _ => {
                return Err(HeaderError::InvalidBitsPerSample);
            },
        };
        let has_pts: bool = (w & PTS_MASK) >> PTS_SHIFT == 1;
        let has_id: bool = (w & ID_MASK) >> ID_SHIFT == 1;
        let encoding: EncodingFlag = match (w & ENCODING_MASK) >> ENCODING_SHIFT {
            0 => EncodingFlag::PCMSigned,
            1 => EncodingFlag::PCMFloat,
            2 => EncodingFlag::Opus,
            3 => EncodingFlag::FLAC,
            4 => EncodingFlag::AAC,
            _ => {
                return Err(HeaderError::InvalidEncoding);
            },
        };
        let endianness: Endianness = if (w & ENDIAN_MASK) >> ENDIAN_SHIFT == 0 {
            Endianness::LittleEndian
        } else {
            Endianness::BigEndian
        };
        let channels: u8 = (((w & CHANNELS_MASK) >> CHANNELS_SHIFT) + 1) as u8;
        let sample_size: u16 = (w & SAMPLE_SIZE_MASK) as u16;
        let id: Option<u64> = if has_id {
            if bytes.len() < 12 {
                return Err(HeaderError::UnexpectedEnd);
            }
            Some(read_u64_at(bytes, 4))
        } else {
            None
        };
        let pts: Option<u64> = if has_pts {
            let off: usize = if has_id {
                12
            } else {
                4
            };
            if bytes.len() < off + 8 {
                return Err(HeaderError::UnexpectedEnd);
            }
            Some(read_u64_at(bytes, off))
        } else {
            None
        };
        Ok(
            FrameHeader {
                encoding,
                sample_size,
                sample_rate,
                channels,
                bits_per_sample,
                endianness,
                id,
                pts,
            },
        )
    }
}

} // verus!
