//! Bit layout of the packed 32-bit header word, and the big-endian byte
//! encodings of the word and of the optional trailing 64-bit fields.
//!
//! This module is the single source of truth for field positions: the codec,
//! the validator and every extract/patch operation state their contracts over
//! the field readers defined here, so none of them can disagree about what a
//! bit means.

use vstd::prelude::*;

verus! {

/// Fixed pattern that occupies the top bits of every packed header word.
pub const MAGIC_WORD: u32 = 0x2A;

/// Bit position of the magic pattern within the packed word.
pub const MAGIC_SHIFT: u32 = 26;

/// Mask selecting the magic bits of the packed word.
pub const MAGIC_MASK: u32 = 0x3F << 26;

/// Bit position of the 2-bit sample-rate code.
pub const SAMPLE_RATE_SHIFT: u32 = 24;

/// Mask selecting the sample-rate code.
pub const SAMPLE_RATE_MASK: u32 = 0x3 << 24;

/// Bit position of the 2-bit bits-per-sample code.
pub const BITS_SHIFT: u32 = 22;

/// Mask selecting the bits-per-sample code.
pub const BITS_MASK: u32 = 0x3 << 22;

/// Bit position of the presentation-timestamp presence flag.
pub const PTS_SHIFT: u32 = 21;

/// Mask selecting the presentation-timestamp presence flag.
pub const PTS_MASK: u32 = 0x1 << 21;

/// Bit position of the correlation-id presence flag.
pub const ID_SHIFT: u32 = 20;

/// Mask selecting the correlation-id presence flag.
pub const ID_MASK: u32 = 0x1 << 20;

/// Bit position of the 3-bit encoding code.
pub const ENCODING_SHIFT: u32 = 17;

/// Mask selecting the encoding code.
pub const ENCODING_MASK: u32 = 0x7 << 17;

/// Bit position of the payload endianness bit.
pub const ENDIAN_SHIFT: u32 = 16;

/// Mask selecting the payload endianness bit.
pub const ENDIAN_MASK: u32 = 0x1 << 16;

/// Bit position of the 4-bit channel field (stored as channel count minus one).
pub const CHANNELS_SHIFT: u32 = 12;

/// Mask selecting the channel field.
pub const CHANNELS_MASK: u32 = 0xF << 12;

/// Mask selecting the 12-bit sample-size field at the bottom of the word.
pub const SAMPLE_SIZE_MASK: u32 = 0xFFF;

/// Largest sample size that fits in the 12-bit field.
pub const MAX_SAMPLE_SIZE: u16 = 0xFFF;

/// The magic field of a packed word.
pub open spec fn magic_of(w: u32) -> u32 {
    (w & MAGIC_MASK) >> MAGIC_SHIFT
}

/// The sample-rate code of a packed word.
pub open spec fn rate_code_of(w: u32) -> u32 {
    (w & SAMPLE_RATE_MASK) >> SAMPLE_RATE_SHIFT
}

/// The bits-per-sample code of a packed word.
pub open spec fn bits_code_of(w: u32) -> u32 {
    (w & BITS_MASK) >> BITS_SHIFT
}

/// Whether the presentation-timestamp presence flag of a packed word is set.
pub open spec fn pts_flag_of(w: u32) -> bool {
    (w & PTS_MASK) >> PTS_SHIFT == 1
}

/// Whether the correlation-id presence flag of a packed word is set.
pub open spec fn id_flag_of(w: u32) -> bool {
    (w & ID_MASK) >> ID_SHIFT == 1
}

/// The encoding code of a packed word.
pub open spec fn enc_code_of(w: u32) -> u32 {
    (w & ENCODING_MASK) >> ENCODING_SHIFT
}

/// The endianness bit of a packed word.
pub open spec fn endian_code_of(w: u32) -> u32 {
    (w & ENDIAN_MASK) >> ENDIAN_SHIFT
}

/// The raw 4-bit channel field of a packed word (channel count minus one).
pub open spec fn chan_field_of(w: u32) -> u32 {
    (w & CHANNELS_MASK) >> CHANNELS_SHIFT
}

/// The 12-bit sample-size field of a packed word.
pub open spec fn sample_size_of(w: u32) -> u32 {
    w & SAMPLE_SIZE_MASK
}

/// A presence flag as the single bit it is stored in.
pub open spec fn bool_bit(b: bool) -> u32 {
    if b {
        1
    } else {
        0
    }
}

/// The packed word assembled from its eight fields and the magic pattern.
pub open spec fn pack_word(
    rate_code: u32,
    bits_code: u32,
    pts: bool,
    id: bool,
    enc_code: u32,
    endian_code: u32,
    chan_field: u32,
    ssize: u32,
) -> u32 {
    (MAGIC_WORD << MAGIC_SHIFT) | (rate_code << SAMPLE_RATE_SHIFT) | (bits_code << BITS_SHIFT) | (
    bool_bit(pts) << PTS_SHIFT) | (bool_bit(id) << ID_SHIFT) | (enc_code << ENCODING_SHIFT) | (
    endian_code << ENDIAN_SHIFT) | (chan_field << CHANNELS_SHIFT) | ssize
}

/// A word with its sample-size field cleared and replaced by `v`.
pub open spec fn with_sample_size(w: u32, v: u16) -> u32 {
    (w & !SAMPLE_SIZE_MASK) | (v as u32)
}

/// A word with its bits-per-sample code cleared and replaced by `code`.
pub open spec fn with_bits_code(w: u32, code: u32) -> u32 {
    (w & !BITS_MASK) | ((code << BITS_SHIFT) & BITS_MASK)
}

/// A word with its sample-rate code cleared and replaced by `code`.
pub open spec fn with_rate_code(w: u32, code: u32) -> u32 {
    (w & !SAMPLE_RATE_MASK) | ((code << SAMPLE_RATE_SHIFT) & SAMPLE_RATE_MASK)
}

/// A word with its encoding code cleared and replaced by `code`.
pub open spec fn with_enc_code(w: u32, code: u32) -> u32 {
    (w & !ENCODING_MASK) | ((code << ENCODING_SHIFT) & ENCODING_MASK)
}

/// A word with its channel field cleared and replaced by `field`.
pub open spec fn with_chan_field(w: u32, field: u32) -> u32 {
    (w & !CHANNELS_MASK) | ((field << CHANNELS_SHIFT) & CHANNELS_MASK)
}

/// A word with its correlation-id presence flag forced to `present`.
pub open spec fn with_id_flag(w: u32, present: bool) -> u32 {
    (w & !ID_MASK) | ((bool_bit(present) << ID_SHIFT) & ID_MASK)
}

/// A word with its timestamp presence flag forced to `present`.
pub open spec fn with_pts_flag(w: u32, present: bool) -> u32 {
    (w & !PTS_MASK) | ((bool_bit(present) << PTS_SHIFT) & PTS_MASK)
}

/// Every field reader stays within the width of its field.
pub proof fn lemma_field_ranges(w: u32)
    by (bit_vector)
    ensures
        magic_of(w) <= 0x3F,
        rate_code_of(w) <= 3,
        bits_code_of(w) <= 3,
        enc_code_of(w) <= 7,
        endian_code_of(w) <= 1,
        chan_field_of(w) <= 0xF,
        sample_size_of(w) <= 0xFFF,
        (w & PTS_MASK) >> PTS_SHIFT <= 1,
        (w & ID_MASK) >> ID_SHIFT <= 1,
{
}

/// The 32-bit word held in the first four bytes of a buffer, big-endian.
pub open spec fn word_of_bytes(s: Seq<u8>) -> u32
    recommends
        s.len() >= 4,
{
    ((s[0] as u32) << 24) | ((s[1] as u32) << 16) | ((s[2] as u32) << 8) | (s[3] as u32)
}

/// The four big-endian bytes of a 32-bit word.
pub open spec fn bytes_of_word(w: u32) -> Seq<u8> {
    seq![(w >> 24) as u8, (w >> 16) as u8, (w >> 8) as u8, w as u8]
}

/// The 64-bit value held in the eight bytes starting at `off`, big-endian.
pub open spec fn u64_at(s: Seq<u8>, off: int) -> u64
    recommends
        0 <= off,
        off + 8 <= s.len(),
{
    ((s[off] as u64) << 56) | ((s[off + 1] as u64) << 48) | ((s[off + 2] as u64) << 40) | ((s[off
        + 3] as u64) << 32) | ((s[off + 4] as u64) << 24) | ((s[off + 5] as u64) << 16) | ((s[off
        + 6] as u64) << 8) | (s[off + 7] as u64)
}

/// The eight big-endian bytes of a 64-bit value.
pub open spec fn bytes_of_u64(x: u64) -> Seq<u8> {
    seq![
        (x >> 56) as u8,
        (x >> 48) as u8,
        (x >> 40) as u8,
        (x >> 32) as u8,
        (x >> 24) as u8,
        (x >> 16) as u8,
        (x >> 8) as u8,
        x as u8,
    ]
}

/// A buffer with its leading word replaced by `w`: the four bytes of `w`
/// followed by everything after the original word.
pub open spec fn splice_word(s: Seq<u8>, w: u32) -> Seq<u8>
    recommends
        s.len() >= 4,
{
    bytes_of_word(w) + s.subrange(4, s.len() as int)
}

/// A buffer with the eight bytes starting at `off` replaced by the big-endian
/// bytes of `x`.
pub open spec fn splice_u64(s: Seq<u8>, off: int, x: u64) -> Seq<u8>
    recommends
        0 <= off,
        off + 8 <= s.len(),
{
    s.subrange(0, off) + bytes_of_u64(x) + s.subrange(off + 8, s.len() as int)
}

/// Splitting a 32-bit word into its four big-endian bytes and reassembling
/// them yields the word back.
pub proof fn lemma_be32_split(w: u32)
    by (bit_vector)
    ensures
        ((((w >> 24) as u8) as u32) << 24) | ((((w >> 16) as u8) as u32) << 16) | ((((w
            >> 8) as u8) as u32) << 8) | ((w as u8) as u32) == w,
{
}

/// Splitting a 64-bit value into its eight big-endian bytes and reassembling
/// them yields the value back.
pub proof fn lemma_be64_split(x: u64)
    by (bit_vector)
    ensures
        ((((x >> 56) as u8) as u64) << 56) | ((((x >> 48) as u8) as u64) << 48) | ((((x
            >> 40) as u8) as u64) << 40) | ((((x >> 32) as u8) as u64) << 32) | ((((x
            >> 24) as u8) as u64) << 24) | ((((x >> 16) as u8) as u64) << 16) | ((((x
            >> 8) as u8) as u64) << 8) | ((x as u8) as u64) == x,
{
}

/// Reassembling the bytes of a word reads back as that word, whatever follows.
pub proof fn lemma_word_of_bytes_of_word(w: u32, rest: Seq<u8>)
    ensures
        word_of_bytes(bytes_of_word(w) + rest) == w,
{
    let s = bytes_of_word(w) + rest;
    assert(s[0] == (w >> 24) as u8);
    assert(s[1] == (w >> 16) as u8);
    assert(s[2] == (w >> 8) as u8);
    assert(s[3] == w as u8);
    lemma_be32_split(w);
}

/// Reading any field back out of a freshly packed word yields the value that
/// was packed in, provided each value fits its field.
pub proof fn lemma_pack_fields(
    rate_code: u32,
    bits_code: u32,
    pts: bool,
    id: bool,
    enc_code: u32,
    endian_code: u32,
    chan_field: u32,
    ssize: u32,
)
    by (bit_vector)
    requires
        rate_code <= 3,
        bits_code <= 3,
        enc_code <= 7,
        endian_code <= 1,
        chan_field <= 0xF,
        ssize <= 0xFFF,
    ensures
        ({
            let w = pack_word(rate_code, bits_code, pts, id, enc_code, endian_code, chan_field, ssize);
            &&& magic_of(w) == MAGIC_WORD
            &&& rate_code_of(w) == rate_code
            &&& bits_code_of(w) == bits_code
            &&& pts_flag_of(w) == pts
            &&& id_flag_of(w) == id
            &&& enc_code_of(w) == enc_code
            &&& endian_code_of(w) == endian_code
            &&& chan_field_of(w) == chan_field
            &&& sample_size_of(w) == ssize
        }),
{
}

/// Reads the leading 32-bit word of a buffer, big-endian.
pub(crate) fn read_word(bytes: &[u8]) -> (w: u32)
    requires
        bytes@.len() >= 4,
    ensures
        w == word_of_bytes(bytes@),
{
    ((bytes[0] as u32) << 24) | ((bytes[1] as u32) << 16) | ((bytes[2] as u32) << 8) | (
    bytes[3] as u32)
}

/// Reads the 64-bit value held in the eight bytes starting at `off`,
/// big-endian.
pub(crate) fn read_u64_at(bytes: &[u8], off: usize) -> (x: u64)
    requires
        off + 8 <= bytes@.len(),
    ensures
        x == u64_at(bytes@, off as int),
{
    ((bytes[off] as u64) << 56) | ((bytes[off + 1] as u64) << 48) | ((bytes[off + 2] as u64) << 40)
        | ((bytes[off + 3] as u64) << 32) | ((bytes[off + 4] as u64) << 24) | ((bytes[off
        + 5] as u64) << 16) | ((bytes[off + 6] as u64) << 8) | (bytes[off + 7] as u64)
}

/// Appends the four big-endian bytes of `w` to a buffer.
pub(crate) fn push_word(buffer: &mut Vec<u8>, w: u32)
    ensures
        final(buffer)@ == old(buffer)@ + bytes_of_word(w),
{
    buffer.push((w >> 24) as u8);
    buffer.push((w >> 16) as u8);
    buffer.push((w >> 8) as u8);
    buffer.push(w as u8);
    proof {
        assert(buffer@ =~= old(buffer)@ + bytes_of_word(w));
    }
}

/// Appends the eight big-endian bytes of `x` to a buffer.
pub(crate) fn push_u64(buffer: &mut Vec<u8>, x: u64)
    ensures
        final(buffer)@ == old(buffer)@ + bytes_of_u64(x),
{
    buffer.push((x >> 56) as u8);
    buffer.push((x >> 48) as u8);
    buffer.push((x >> 40) as u8);
    buffer.push((x >> 32) as u8);
    buffer.push((x >> 24) as u8);
    buffer.push((x >> 16) as u8);
    buffer.push((x >> 8) as u8);
    buffer.push(x as u8);
    proof {
        assert(buffer@ =~= old(buffer)@ + bytes_of_u64(x));
    }
}

/// Overwrites the leading four bytes of a buffer with the big-endian bytes of
/// `w`, leaving everything after the word untouched.
pub(crate) fn write_word(buffer: &mut Vec<u8>, w: u32)
    requires
        old(buffer)@.len() >= 4,
    ensures
        final(buffer)@ == splice_word(old(buffer)@, w),
{
    buffer[0] = (w >> 24) as u8;
    buffer[1] = (w >> 16) as u8;
    buffer[2] = (w >> 8) as u8;
    buffer[3] = w as u8;
    proof {
        assert(buffer@ =~= splice_word(old(buffer)@, w));
    }
}

/// Overwrites the eight bytes starting at `off` with the big-endian bytes of
/// `x`, leaving every other byte untouched.
pub(crate) fn write_u64_at(buffer: &mut Vec<u8>, off: usize, x: u64)
    requires
        off + 8 <= old(buffer)@.len(),
    ensures
        final(buffer)@ == splice_u64(old(buffer)@, off as int, x),
{
    let n: usize = buffer.len();
    buffer[off] = (x >> 56) as u8;
    buffer[off + 1] = (x >> 48) as u8;
    buffer[off + 2] = (x >> 40) as u8;
    buffer[off + 3] = (x >> 32) as u8;
    buffer[off + 4] = (x >> 24) as u8;
    buffer[off + 5] = (x >> 16) as u8;
    buffer[off + 6] = (x >> 8) as u8;
    buffer[off + 7] = x as u8;
    proof {
        assert(buffer@ =~= splice_u64(old(buffer)@, off as int, x));
    }
}

} // verus!
