//! The format's laws, proved once and for all over the same spec functions
//! that the public contracts use: the encode/decode round trip, the
//! sensitivity of every operation to the magic region, and the isolation of
//! each patch operation from every field it does not name.

use crate::buffer::{
    spec_extract_encoding, spec_extract_id, spec_extract_pts, spec_extract_sample_count,
    spec_patch_bits_per_sample, spec_patch_channels, spec_patch_encoding, spec_patch_id,
    spec_patch_pts, spec_patch_sample_rate, spec_patch_sample_size, spec_validate,
    word_fields_valid,
};
use crate::codec::spec_decode;
use crate::header::{
    bits_ok, encoding_code, endian_code, rate_ok, spec_bits_code, spec_rate_code, EncodingFlag,
    FrameHeader,
    HeaderError,
};
use crate::layout::{
    bits_code_of, bytes_of_u64, bytes_of_word, chan_field_of, enc_code_of, endian_code_of,
    id_flag_of, lemma_be64_split, lemma_field_ranges, lemma_pack_fields,
    lemma_word_of_bytes_of_word, magic_of, pts_flag_of, rate_code_of, sample_size_of, splice_u64,
    splice_word, u64_at, with_bits_code, with_chan_field, with_enc_code, with_id_flag,
    with_pts_flag, with_rate_code, with_sample_size, word_of_bytes, MAGIC_MASK, MAGIC_SHIFT,
    MAGIC_WORD, MAX_SAMPLE_SIZE,
};
use vstd::prelude::*;

verus! {

/// The magic field of a word depends only on the top six bits of the
/// buffer's first byte.
proof fn lemma_magic_from_byte0(b0: u8, b1: u8, b2: u8, b3: u8)
    by (bit_vector)
    ensures
        magic_of(
            ((b0 as u32) << 24) | ((b1 as u32) << 16) | ((b2 as u32) << 8) | (b3 as u32),
        ) == (b0 as u32) >> 2,
{
}

/// Flipping any one of the top six bits of a byte changes its top six bits.
proof fn lemma_bit_flip_changes_high_bits(b0: u8, j: u32)
    by (bit_vector)
    requires
        2 <= j <= 7,
    ensures
        ((b0 ^ (1u8 << j)) as u32) >> 2 != (b0 as u32) >> 2,
{
}

/// Each off-by-one corruption of the magic pattern — one too high, one too
/// low, the pattern shifted right or left within its field, or the pattern
/// placed one bit position too high — leaves a word whose magic field no
/// longer reads as the pattern.
proof fn lemma_magic_misplacements(w: u32)
    by (bit_vector)
    ensures
        magic_of((w & !MAGIC_MASK) | (((MAGIC_WORD + 1) as u32) << MAGIC_SHIFT)) != MAGIC_WORD,
        magic_of((w & !MAGIC_MASK) | (((MAGIC_WORD - 1) as u32) << MAGIC_SHIFT)) != MAGIC_WORD,
        magic_of((w & !MAGIC_MASK) | ((MAGIC_WORD >> 1) << MAGIC_SHIFT)) != MAGIC_WORD,
        magic_of((w & !MAGIC_MASK) | ((MAGIC_WORD << 1) << MAGIC_SHIFT)) != MAGIC_WORD,
        magic_of((w & !MAGIC_MASK) | (MAGIC_WORD << (MAGIC_SHIFT + 1))) != MAGIC_WORD,
{
}

/// Writing `v` into the sample-size field changes that field to `v` and no
/// other field of the word.
pub proof fn lemma_with_sample_size_isolated(w: u32, v: u16)
    by (bit_vector)
    requires
        v <= 0xFFF,
    ensures
        ({
            let w2 = with_sample_size(w, v);
            &&& sample_size_of(w2) == v
            &&& magic_of(w2) == magic_of(w)
            &&& rate_code_of(w2) == rate_code_of(w)
            &&& bits_code_of(w2) == bits_code_of(w)
            &&& pts_flag_of(w2) == pts_flag_of(w)
            &&& id_flag_of(w2) == id_flag_of(w)
            &&& enc_code_of(w2) == enc_code_of(w)
            &&& endian_code_of(w2) == endian_code_of(w)
            &&& chan_field_of(w2) == chan_field_of(w)
        }),
{
}

/// Writing `code` into the bits-per-sample field changes that field to
/// `code` and no other field of the word.
pub proof fn lemma_with_bits_code_isolated(w: u32, code: u32)
    by (bit_vector)
    requires
        code <= 3,
    ensures
        ({
            let w2 = with_bits_code(w, code);
            &&& bits_code_of(w2) == code
            &&& magic_of(w2) == magic_of(w)
            &&& rate_code_of(w2) == rate_code_of(w)
            &&& pts_flag_of(w2) == pts_flag_of(w)
            &&& id_flag_of(w2) == id_flag_of(w)
            &&& enc_code_of(w2) == enc_code_of(w)
            &&& endian_code_of(w2) == endian_code_of(w)
            &&& chan_field_of(w2) == chan_field_of(w)
            &&& sample_size_of(w2) == sample_size_of(w)
        }),
{
}

/// Writing `code` into the sample-rate field changes that field to `code`
/// and no other field of the word.
pub proof fn lemma_with_rate_code_isolated(w: u32, code: u32)
    by (bit_vector)
    requires
        code <= 3,
    ensures
        ({
            let w2 = with_rate_code(w, code);
            &&& rate_code_of(w2) == code
            &&& magic_of(w2) == magic_of(w)
            &&& bits_code_of(w2) == bits_code_of(w)
            &&& pts_flag_of(w2) == pts_flag_of(w)
            &&& id_flag_of(w2) == id_flag_of(w)
            &&& enc_code_of(w2) == enc_code_of(w)
            &&& endian_code_of(w2) == endian_code_of(w)
            &&& chan_field_of(w2) == chan_field_of(w)
            &&& sample_size_of(w2) == sample_size_of(w)
        }),
{
}

/// Writing `code` into the encoding field changes that field to `code` and
/// no other field of the word.
pub proof fn lemma_with_enc_code_isolated(w: u32, code: u32)
    by (bit_vector)
    requires
        code <= 7,
    ensures
        ({
            let w2 = with_enc_code(w, code);
            &&& enc_code_of(w2) == code
            &&& magic_of(w2) == magic_of(w)
            &&& rate_code_of(w2) == rate_code_of(w)
            &&& bits_code_of(w2) == bits_code_of(w)
            &&& pts_flag_of(w2) == pts_flag_of(w)
            &&& id_flag_of(w2) == id_flag_of(w)
            &&& endian_code_of(w2) == endian_code_of(w)
            &&& chan_field_of(w2) == chan_field_of(w)
            &&& sample_size_of(w2) == sample_size_of(w)
        }),
{
}

/// Writing `field` into the channel field changes that field to `field` and
/// no other field of the word.
pub proof fn lemma_with_chan_field_isolated(w: u32, field: u32)
    by (bit_vector)
    requires
        field <= 0xF,
    ensures
        ({
            let w2 = with_chan_field(w, field);
            &&& chan_field_of(w2) == field
            &&& magic_of(w2) == magic_of(w)
            &&& rate_code_of(w2) == rate_code_of(w)
            &&& bits_code_of(w2) == bits_code_of(w)
            &&& pts_flag_of(w2) == pts_flag_of(w)
            &&& id_flag_of(w2) == id_flag_of(w)
            &&& enc_code_of(w2) == enc_code_of(w)
            &&& endian_code_of(w2) == endian_code_of(w)
            &&& sample_size_of(w2) == sample_size_of(w)
        }),
{
}

/// Forcing the correlation-id presence flag changes that flag and no other
/// field of the word.
pub proof fn lemma_with_id_flag_isolated(w: u32, present: bool)
    by (bit_vector)
    ensures
        ({
            let w2 = with_id_flag(w, present);
            &&& id_flag_of(w2) == present
            &&& magic_of(w2) == magic_of(w)
            &&& rate_code_of(w2) == rate_code_of(w)
            &&& bits_code_of(w2) == bits_code_of(w)
            &&& pts_flag_of(w2) == pts_flag_of(w)
            &&& enc_code_of(w2) == enc_code_of(w)
            &&& endian_code_of(w2) == endian_code_of(w)
            &&& chan_field_of(w2) == chan_field_of(w)
            &&& sample_size_of(w2) == sample_size_of(w)
        }),
{
}

/// Forcing the timestamp presence flag changes that flag and no other field
/// of the word.
pub proof fn lemma_with_pts_flag_isolated(w: u32, present: bool)
    by (bit_vector)
    ensures
        ({
            let w2 = with_pts_flag(w, present);
            &&& pts_flag_of(w2) == present
            &&& magic_of(w2) == magic_of(w)
            &&& rate_code_of(w2) == rate_code_of(w)
            &&& bits_code_of(w2) == bits_code_of(w)
            &&& id_flag_of(w2) == id_flag_of(w)
            &&& enc_code_of(w2) == enc_code_of(w)
            &&& endian_code_of(w2) == endian_code_of(w)
            &&& chan_field_of(w2) == chan_field_of(w)
            &&& sample_size_of(w2) == sample_size_of(w)
        }),
{
}

/// Replacing a buffer's leading word keeps its length, reads back as the new
/// word, and leaves every trailing 64-bit field unchanged.
pub proof fn lemma_splice_word_reads(s: Seq<u8>, w2: u32)
    requires
        s.len() >= 4,
    ensures
        splice_word(s, w2).len() == s.len(),
        word_of_bytes(splice_word(s, w2)) == w2,
        forall|i: int| 4 <= i < s.len() ==> #[trigger] splice_word(s, w2)[i] == s[i],
        forall|off: int|
            4 <= off && off + 8 <= s.len() ==> #[trigger] u64_at(splice_word(s, w2), off) == u64_at(
                s,
                off,
            ),
{
    lemma_word_of_bytes_of_word(w2, s.subrange(4, s.len() as int));
    let s2 = splice_word(s, w2);
    assert forall|i: int| 4 <= i < s.len() implies #[trigger] s2[i] == s[i] by {
        assert(s2[i] == s.subrange(4, s.len() as int)[i - 4]);
    }
    assert forall|off: int|
        4 <= off && off + 8 <= s.len() implies #[trigger] u64_at(s2, off) == u64_at(s, off) by {
        assert(s2[off] == s[off]);
        assert(s2[off + 1] == s[off + 1]);
        assert(s2[off + 2] == s[off + 2]);
        assert(s2[off + 3] == s[off + 3]);
        assert(s2[off + 4] == s[off + 4]);
        assert(s2[off + 5] == s[off + 5]);
        assert(s2[off + 6] == s[off + 6]);
        assert(s2[off + 7] == s[off + 7]);
    }
}

/// Replacing the eight bytes at `off` keeps the buffer's length, reads back
/// as the new value, and leaves every byte outside the window — in
/// particular the leading word when `off >= 4`, and any disjoint 64-bit
/// field — unchanged.
pub proof fn lemma_splice_u64_reads(s: Seq<u8>, off: int, x: u64)
    requires
        4 <= off,
        off + 8 <= s.len(),
    ensures
        splice_u64(s, off, x).len() == s.len(),
        u64_at(splice_u64(s, off, x), off) == x,
        forall|i: int|
            0 <= i < s.len() && !(off <= i < off + 8) ==> #[trigger] splice_u64(s, off, x)[i]
                == s[i],
        word_of_bytes(splice_u64(s, off, x)) == word_of_bytes(s),
        forall|off2: int|
            0 <= off2 && off2 + 8 <= s.len() && (off2 + 8 <= off || off2 >= off + 8)
                ==> #[trigger] u64_at(splice_u64(s, off, x), off2) == u64_at(s, off2),
{
    let s2 = splice_u64(s, off, x);
    assert forall|i: int| 0 <= i < s.len() && !(off <= i < off + 8) implies #[trigger] s2[i]
        == s[i] by {
        if i < off {
            assert(s2[i] == s.subrange(0, off)[i]);
        } else {
            assert(s2[i] == s.subrange(off + 8, s.len() as int)[i - (off + 8)]);
        }
    }
    assert(s2[off] == bytes_of_u64(x)[0]);
    assert(s2[off + 1] == bytes_of_u64(x)[1]);
    assert(s2[off + 2] == bytes_of_u64(x)[2]);
    assert(s2[off + 3] == bytes_of_u64(x)[3]);
    assert(s2[off + 4] == bytes_of_u64(x)[4]);
    assert(s2[off + 5] == bytes_of_u64(x)[5]);
    assert(s2[off + 6] == bytes_of_u64(x)[6]);
    assert(s2[off + 7] == bytes_of_u64(x)[7]);
    lemma_be64_split(x);
    assert forall|off2: int|
        0 <= off2 && off2 + 8 <= s.len() && (off2 + 8 <= off || off2 >= off + 8) implies #[trigger] u64_at(
        s2,
        off2,
    ) == u64_at(s, off2) by {
        assert(s2[off2] == s[off2]);
        assert(s2[off2 + 1] == s[off2 + 1]);
        assert(s2[off2 + 2] == s[off2 + 2]);
        assert(s2[off2 + 3] == s[off2 + 3]);
        assert(s2[off2 + 4] == s[off2 + 4]);
        assert(s2[off2 + 5] == s[off2 + 5]);
        assert(s2[off2 + 6] == s[off2 + 6]);
        assert(s2[off2 + 7] == s[off2 + 7]);
    }
}

/// Round trip: decoding the wire form of any well-formed, wire-encodable
/// header yields that header back, field for field, and the wire form's
/// length is exactly the header's reported size.
pub proof fn lemma_encode_decode_round_trip(h: FrameHeader)
    requires
        h.wf(),
        h.encoding != EncodingFlag::H264,
    ensures
        h.encoded_bytes().len() == h.spec_size(),
        spec_decode(h.encoded_bytes()) == Result::<FrameHeader, HeaderError>::Ok(h),
{
    let w = h.wire_word();
    let s = h.encoded_bytes();
    let id_part = match h.id {
        Some(v) => bytes_of_u64(v),
        None => Seq::<u8>::empty(),
    };
    let pts_part = match h.pts {
        Some(v) => bytes_of_u64(v),
        None => Seq::<u8>::empty(),
    };
    let rest = id_part + pts_part;
    assert(s =~= bytes_of_word(w) + rest);
    lemma_word_of_bytes_of_word(w, rest);
    assert(word_of_bytes(s) == w);
    lemma_pack_fields(
        spec_rate_code(h.sample_rate),
        spec_bits_code(h.bits_per_sample),
        h.pts is Some,
        h.id is Some,
        encoding_code(h.encoding),
        endian_code(h.endianness),
        (h.channels - 1) as u32,
        h.sample_size as u32,
    );
    if h.id is Some {
        let v = h.id->0;
        assert(s[4] == bytes_of_u64(v)[0]);
        assert(s[5] == bytes_of_u64(v)[1]);
        assert(s[6] == bytes_of_u64(v)[2]);
        assert(s[7] == bytes_of_u64(v)[3]);
        assert(s[8] == bytes_of_u64(v)[4]);
        assert(s[9] == bytes_of_u64(v)[5]);
        assert(s[10] == bytes_of_u64(v)[6]);
        assert(s[11] == bytes_of_u64(v)[7]);
        lemma_be64_split(v);
        assert(u64_at(s, 4) == v);
    }
    if h.pts is Some {
        let v = h.pts->0;
        let off: int = if h.id is Some {
            12
        } else {
            4
        };
        assert(s[off] == bytes_of_u64(v)[0]);
        assert(s[off + 1] == bytes_of_u64(v)[1]);
        assert(s[off + 2] == bytes_of_u64(v)[2]);
        assert(s[off + 3] == bytes_of_u64(v)[3]);
        assert(s[off + 4] == bytes_of_u64(v)[4]);
        assert(s[off + 5] == bytes_of_u64(v)[5]);
        assert(s[off + 6] == bytes_of_u64(v)[6]);
        assert(s[off + 7] == bytes_of_u64(v)[7]);
        lemma_be64_split(v);
        assert(u64_at(s, off) == v);
    }
    assert(spec_decode(s) is Ok);
    assert(spec_decode(s)->Ok_0 == h);
}

/// A buffer whose word does not carry the magic pattern is rejected
/// everywhere: validation answers `false`, and decoding and all four
/// extractions fail on the magic check.
pub proof fn lemma_bad_magic_rejected(s: Seq<u8>)
    requires
        s.len() >= 4,
        magic_of(word_of_bytes(s)) != MAGIC_WORD,
    ensures
        spec_validate(s) == Result::<bool, HeaderError>::Ok(false),
        spec_decode(s) == Result::<FrameHeader, HeaderError>::Err(HeaderError::InvalidMagic),
        spec_extract_sample_count(s) == Result::<u16, HeaderError>::Err(HeaderError::InvalidMagic),
        spec_extract_encoding(s) == Result::<EncodingFlag, HeaderError>::Err(
            HeaderError::InvalidMagic,
        ),
        spec_extract_id(s) == Result::<Option<u64>, HeaderError>::Err(HeaderError::InvalidMagic),
        spec_extract_pts(s) == Result::<Option<u64>, HeaderError>::Err(HeaderError::InvalidMagic),
{
}

/// Magic sensitivity, bit by bit: flipping any single bit of the magic
/// region — the top six bits of byte 0 — in a buffer that carried the magic
/// pattern makes validation answer `false` and decoding and extraction fail.
pub proof fn lemma_magic_bit_flip_rejected(s: Seq<u8>, j: u32)
    requires
        s.len() >= 4,
        magic_of(word_of_bytes(s)) == MAGIC_WORD,
        2 <= j <= 7,
    ensures
        ({
            let s2 = s.update(0, s[0] ^ (1u8 << j));
            &&& spec_validate(s2) == Result::<bool, HeaderError>::Ok(false)
            &&& spec_decode(s2) == Result::<FrameHeader, HeaderError>::Err(
                HeaderError::InvalidMagic,
            )
            &&& spec_extract_sample_count(s2) == Result::<u16, HeaderError>::Err(
                HeaderError::InvalidMagic,
            )
            &&& spec_extract_encoding(s2) == Result::<EncodingFlag, HeaderError>::Err(
                HeaderError::InvalidMagic,
            )
            &&& spec_extract_id(s2) == Result::<Option<u64>, HeaderError>::Err(
                HeaderError::InvalidMagic,
            )
            &&& spec_extract_pts(s2) == Result::<Option<u64>, HeaderError>::Err(
                HeaderError::InvalidMagic,
            )
        }),
{
    let s2 = s.update(0, s[0] ^ (1u8 << j));
    lemma_magic_from_byte0(s[0], s[1], s[2], s[3]);
    lemma_magic_from_byte0(s2[0], s2[1], s2[2], s2[3]);
    lemma_bit_flip_changes_high_bits(s[0], j);
    lemma_bad_magic_rejected(s2);
}

/// Magic sensitivity, off by one: sliding the magic pattern one value up or
/// down, shifting the pattern itself one bit in either direction, or placing
/// it one bit position too high all leave a word that every operation
/// rejects.
pub proof fn lemma_magic_off_by_one_rejected(s: Seq<u8>)
    requires
        s.len() >= 4,
    ensures
        spec_validate(splice_word(s, (word_of_bytes(s) & !MAGIC_MASK) | (((MAGIC_WORD + 1) as u32)
            << MAGIC_SHIFT))) == Result::<bool, HeaderError>::Ok(false),
        spec_validate(splice_word(s, (word_of_bytes(s) & !MAGIC_MASK) | (((MAGIC_WORD - 1) as u32)
            << MAGIC_SHIFT))) == Result::<bool, HeaderError>::Ok(false),
        spec_validate(splice_word(s, (word_of_bytes(s) & !MAGIC_MASK) | ((MAGIC_WORD >> 1)
            << MAGIC_SHIFT))) == Result::<bool, HeaderError>::Ok(false),
        spec_validate(splice_word(s, (word_of_bytes(s) & !MAGIC_MASK) | ((MAGIC_WORD << 1)
            << MAGIC_SHIFT))) == Result::<bool, HeaderError>::Ok(false),
        spec_validate(splice_word(s, (word_of_bytes(s) & !MAGIC_MASK) | (MAGIC_WORD << (MAGIC_SHIFT
            + 1)))) == Result::<bool, HeaderError>::Ok(false),
        spec_decode(splice_word(s, (word_of_bytes(s) & !MAGIC_MASK) | (((MAGIC_WORD + 1) as u32)
            << MAGIC_SHIFT))) == Result::<FrameHeader, HeaderError>::Err(HeaderError::InvalidMagic),
        spec_decode(splice_word(s, (word_of_bytes(s) & !MAGIC_MASK) | (((MAGIC_WORD - 1) as u32)
            << MAGIC_SHIFT))) == Result::<FrameHeader, HeaderError>::Err(HeaderError::InvalidMagic),
        spec_decode(splice_word(s, (word_of_bytes(s) & !MAGIC_MASK) | ((MAGIC_WORD >> 1)
            << MAGIC_SHIFT))) == Result::<FrameHeader, HeaderError>::Err(HeaderError::InvalidMagic),
        spec_decode(splice_word(s, (word_of_bytes(s) & !MAGIC_MASK) | ((MAGIC_WORD << 1)
            << MAGIC_SHIFT))) == Result::<FrameHeader, HeaderError>::Err(HeaderError::InvalidMagic),
        spec_decode(splice_word(s, (word_of_bytes(s) & !MAGIC_MASK) | (MAGIC_WORD << (MAGIC_SHIFT
            + 1)))) == Result::<FrameHeader, HeaderError>::Err(HeaderError::InvalidMagic),
{
    let w = word_of_bytes(s);
    lemma_magic_misplacements(w);
    lemma_splice_word_reads(s, (w & !MAGIC_MASK) | (((MAGIC_WORD + 1) as u32) << MAGIC_SHIFT));
    lemma_splice_word_reads(s, (w & !MAGIC_MASK) | (((MAGIC_WORD - 1) as u32) << MAGIC_SHIFT));
    lemma_splice_word_reads(s, (w & !MAGIC_MASK) | ((MAGIC_WORD >> 1) << MAGIC_SHIFT));
    lemma_splice_word_reads(s, (w & !MAGIC_MASK) | ((MAGIC_WORD << 1) << MAGIC_SHIFT));
    lemma_splice_word_reads(s, (w & !MAGIC_MASK) | (MAGIC_WORD << (MAGIC_SHIFT + 1)));
    lemma_bad_magic_rejected(splice_word(s, (w & !MAGIC_MASK) | (((MAGIC_WORD + 1) as u32) << MAGIC_SHIFT)));
    lemma_bad_magic_rejected(splice_word(s, (w & !MAGIC_MASK) | (((MAGIC_WORD - 1) as u32) << MAGIC_SHIFT)));
    lemma_bad_magic_rejected(splice_word(s, (w & !MAGIC_MASK) | ((MAGIC_WORD >> 1) << MAGIC_SHIFT)));
    lemma_bad_magic_rejected(splice_word(s, (w & !MAGIC_MASK) | ((MAGIC_WORD << 1) << MAGIC_SHIFT)));
    lemma_bad_magic_rejected(
        splice_word(s, (w & !MAGIC_MASK) | (MAGIC_WORD << (MAGIC_SHIFT + 1))),
    );
}

/// Overwriting byte 0 of any buffer with zero destroys the magic pattern:
/// validation answers `false`, and decoding and all four extractions fail.
pub proof fn lemma_zero_first_byte_rejected(s: Seq<u8>)
    requires
        s.len() >= 4,
    ensures
        ({
            let s2 = s.update(0, 0u8);
            &&& spec_validate(s2) == Result::<bool, HeaderError>::Ok(false)
            &&& spec_decode(s2) == Result::<FrameHeader, HeaderError>::Err(
                HeaderError::InvalidMagic,
            )
            &&& spec_extract_sample_count(s2) == Result::<u16, HeaderError>::Err(
                HeaderError::InvalidMagic,
            )
            &&& spec_extract_encoding(s2) == Result::<EncodingFlag, HeaderError>::Err(
                HeaderError::InvalidMagic,
            )
            &&& spec_extract_id(s2) == Result::<Option<u64>, HeaderError>::Err(
                HeaderError::InvalidMagic,
            )
            &&& spec_extract_pts(s2) == Result::<Option<u64>, HeaderError>::Err(
                HeaderError::InvalidMagic,
            )
        }),
{
    let s2 = s.update(0, 0u8);
    lemma_magic_from_byte0(s2[0], s2[1], s2[2], s2[3]);
    assert(((0u8) as u32) >> 2 == 0) by (bit_vector);
    lemma_bad_magic_rejected(s2);
}

/// A decodable buffer is structurally valid, and long enough for every
/// optional field its presence bits announce.
proof fn lemma_decode_ok_valid(s: Seq<u8>)
    requires
        spec_decode(s) is Ok,
    ensures
        s.len() >= 4,
        word_fields_valid(word_of_bytes(s)),
        spec_validate(s) == Result::<bool, HeaderError>::Ok(true),
        id_flag_of(word_of_bytes(s)) ==> s.len() >= 12,
        pts_flag_of(word_of_bytes(s)) ==> s.len() >= (if id_flag_of(word_of_bytes(s)) {
            20int
        } else {
            12
        }),
{
    lemma_field_ranges(word_of_bytes(s));
}

/// Field isolation for `patch_sample_size`: on a decodable buffer, patching
/// the sample size to a legal value succeeds, and the patched buffer decodes
/// to the original header with only its sample size changed.
pub proof fn lemma_patch_sample_size_isolation(s: Seq<u8>, v: u16)
    requires
        spec_decode(s) is Ok,
        v <= MAX_SAMPLE_SIZE,
    ensures
        spec_patch_sample_size(s, v).1 is Ok,
        spec_decode(spec_patch_sample_size(s, v).0) == Result::<FrameHeader, HeaderError>::Ok(
            FrameHeader { sample_size: v, ..spec_decode(s)->Ok_0 },
        ),
{
    lemma_decode_ok_valid(s);
    let w = word_of_bytes(s);
    let w2 = with_sample_size(w, v);
    lemma_with_sample_size_isolated(w, v);
    lemma_splice_word_reads(s, w2);
}

/// Field isolation for `patch_bits_per_sample`: on a decodable buffer,
/// patching the bit depth to a legal value succeeds, and the patched buffer
/// decodes to the original header with only its bit depth changed.
pub proof fn lemma_patch_bits_per_sample_isolation(s: Seq<u8>, bits: u8)
    requires
        spec_decode(s) is Ok,
        bits_ok(bits),
    ensures
        spec_patch_bits_per_sample(s, bits).1 is Ok,
        spec_decode(spec_patch_bits_per_sample(s, bits).0) == Result::<
            FrameHeader,
            HeaderError,
        >::Ok(FrameHeader { bits_per_sample: bits, ..spec_decode(s)->Ok_0 }),
{
    lemma_decode_ok_valid(s);
    let w = word_of_bytes(s);
    let w2 = with_bits_code(w, spec_bits_code(bits));
    lemma_with_bits_code_isolated(w, spec_bits_code(bits));
    lemma_splice_word_reads(s, w2);
}

/// Field isolation for `patch_sample_rate`: on a decodable buffer, patching
/// the sample rate to a legal value succeeds, and the patched buffer decodes
/// to the original header with only its sample rate changed.
pub proof fn lemma_patch_sample_rate_isolation(s: Seq<u8>, rate: u32)
    requires
        spec_decode(s) is Ok,
        rate_ok(rate),
    ensures
        spec_patch_sample_rate(s, rate).1 is Ok,
        spec_decode(spec_patch_sample_rate(s, rate).0) == Result::<FrameHeader, HeaderError>::Ok(
            FrameHeader { sample_rate: rate, ..spec_decode(s)->Ok_0 },
        ),
{
    lemma_decode_ok_valid(s);
    let w = word_of_bytes(s);
    let w2 = with_rate_code(w, spec_rate_code(rate));
    lemma_with_rate_code_isolated(w, spec_rate_code(rate));
    lemma_splice_word_reads(s, w2);
}

/// Field isolation for `patch_encoding`: on a decodable buffer, patching to
/// any decodable codec tag succeeds, and the patched buffer decodes to the
/// original header with only its codec tag changed. The reserved tag is
/// excluded: its wire code has no decoding.
pub proof fn lemma_patch_encoding_isolation(s: Seq<u8>, encoding: EncodingFlag)
    requires
        spec_decode(s) is Ok,
        encoding != EncodingFlag::H264,
    ensures
        spec_patch_encoding(s, encoding).1 is Ok,
        spec_decode(spec_patch_encoding(s, encoding).0) == Result::<FrameHeader, HeaderError>::Ok(
            FrameHeader { encoding, ..spec_decode(s)->Ok_0 },
        ),
{
    lemma_decode_ok_valid(s);
    let w = word_of_bytes(s);
    let w2 = with_enc_code(w, encoding_code(encoding));
    lemma_with_enc_code_isolated(w, encoding_code(encoding));
    lemma_splice_word_reads(s, w2);
}

/// Field isolation for `patch_channels`: on a decodable buffer, patching the
/// channel count to a legal value succeeds, and the patched buffer decodes
/// to the original header with only its channel count changed.
pub proof fn lemma_patch_channels_isolation(s: Seq<u8>, channels: u8)
    requires
        spec_decode(s) is Ok,
        1 <= channels <= 16,
    ensures
        spec_patch_channels(s, channels).1 is Ok,
        spec_decode(spec_patch_channels(s, channels).0) == Result::<FrameHeader, HeaderError>::Ok(
            FrameHeader { channels, ..spec_decode(s)->Ok_0 },
        ),
{
    lemma_decode_ok_valid(s);
    let w = word_of_bytes(s);
    let w2 = with_chan_field(w, (channels - 1) as u32);
    lemma_with_chan_field_isolated(w, (channels - 1) as u32);
    lemma_splice_word_reads(s, w2);
}

/// Field isolation for `patch_id`: on a decodable buffer, setting or
/// clearing the correlation id succeeds given room, and the patched buffer
/// decodes to the original header with only its id changed.
///
/// The presence/offset coupling of the format bounds the law: a patch that
/// changes whether an id is present moves the timestamp's byte offset, so
/// those inputs are admitted only when no timestamp is present.
pub proof fn lemma_patch_id_isolation(s: Seq<u8>, id: Option<u64>)
    requires
        spec_decode(s) is Ok,
        id is Some ==> s.len() >= 12,
        ((id is Some) != (spec_decode(s)->Ok_0.id is Some)) ==> spec_decode(s)->Ok_0.pts is None,
    ensures
        spec_patch_id(s, id).1 is Ok,
        spec_decode(spec_patch_id(s, id).0) == Result::<FrameHeader, HeaderError>::Ok(
            FrameHeader { id, ..spec_decode(s)->Ok_0 },
        ),
{
    lemma_decode_ok_valid(s);
    let w = word_of_bytes(s);
    let w2 = with_id_flag(w, id is Some);
    lemma_with_id_flag_isolated(w, id is Some);
    lemma_splice_word_reads(s, w2);
    if let Some(v) = id {
        let mid = splice_word(s, w2);
        lemma_splice_u64_reads(mid, 4, v);
    }
}

/// Field isolation for `patch_pts`: on a decodable buffer with room at the
/// timestamp's offset, setting or clearing the timestamp succeeds, and the
/// patched buffer decodes to the original header with only its timestamp
/// changed. The offset is derived from the id presence bit, which this patch
/// never touches, so the id and every fixed field survive either way.
pub proof fn lemma_patch_pts_isolation(s: Seq<u8>, pts: Option<u64>)
    requires
        spec_decode(s) is Ok,
        pts is Some ==> s.len() >= (if id_flag_of(word_of_bytes(s)) {
            20int
        } else {
            12
        }),
    ensures
        spec_patch_pts(s, pts).1 is Ok,
        spec_decode(spec_patch_pts(s, pts).0) == Result::<FrameHeader, HeaderError>::Ok(
            FrameHeader { pts, ..spec_decode(s)->Ok_0 },
        ),
{
    lemma_decode_ok_valid(s);
    let w = word_of_bytes(s);
    let w2 = with_pts_flag(w, pts is Some);
    lemma_with_pts_flag_isolated(w, pts is Some);
    lemma_splice_word_reads(s, w2);
    if let Some(v) = pts {
        let mid = splice_word(s, w2);
        let off: int = if id_flag_of(w) {
            12
        } else {
            4
        };
        lemma_splice_u64_reads(mid, off, v);
    }
}

} // verus!
