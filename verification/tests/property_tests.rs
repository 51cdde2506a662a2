use framehdr::{EncodingFlag, Endianness, FrameHeader, HeaderError};

fn encode_to_vec(header: &FrameHeader) -> Vec<u8> {
    let mut buffer = Vec::new();
    header.encode(&mut buffer).unwrap();
    buffer
}

#[test]
fn boundary_channels() {
    for channels in [1u8, 16] {
        assert!(FrameHeader::new(
            EncodingFlag::PCMSigned,
            1024,
            48000,
            channels,
            16,
            Endianness::LittleEndian,
            None,
            None,
        )
        .is_ok());
    }
    for channels in [0u8, 17] {
        assert_eq!(
            FrameHeader::new(
                EncodingFlag::PCMSigned,
                1024,
                48000,
                channels,
                16,
                Endianness::LittleEndian,
                None,
                None,
            )
            .unwrap_err(),
            HeaderError::InvalidChannels
        );
    }
}

#[test]
fn boundary_sample_size() {
    assert!(FrameHeader::new(
        EncodingFlag::PCMSigned,
        4095,
        48000,
        2,
        16,
        Endianness::LittleEndian,
        None,
        None,
    )
    .is_ok());
    assert_eq!(
        FrameHeader::new(
            EncodingFlag::PCMSigned,
            4096,
            48000,
            2,
            16,
            Endianness::LittleEndian,
            None,
            None,
        )
        .unwrap_err(),
        HeaderError::InvalidSampleSize
    );
}

#[test]
fn boundary_sample_rates() {
    for rate in [16000u32, 44100, 48000, 96000] {
        assert!(FrameHeader::new(
            EncodingFlag::PCMSigned,
            1024,
            rate,
            2,
            16,
            Endianness::LittleEndian,
            None,
            None,
        )
        .is_ok());
    }
    for rate in [0u32, 8000, 22050, 32000, 44099, 192000] {
        assert_eq!(
            FrameHeader::new(
                EncodingFlag::PCMSigned,
                1024,
                rate,
                2,
                16,
                Endianness::LittleEndian,
                None,
                None,
            )
            .unwrap_err(),
            HeaderError::InvalidSampleRate
        );
    }
}

#[test]
fn boundary_bits_per_sample() {
    for bits in [16u8, 24, 32] {
        assert!(FrameHeader::new(
            EncodingFlag::PCMSigned,
            1024,
            48000,
            2,
            bits,
            Endianness::LittleEndian,
            None,
            None,
        )
        .is_ok());
    }
    for bits in [0u8, 8, 20, 64] {
        assert_eq!(
            FrameHeader::new(
                EncodingFlag::PCMSigned,
                1024,
                48000,
                2,
                bits,
                Endianness::LittleEndian,
                None,
                None,
            )
            .unwrap_err(),
            HeaderError::InvalidBitsPerSample
        );
    }
}

// Opus frame with a timestamp but no id: 12 bytes on the wire, the packed
// word first, then the timestamp big-endian, and the fast-path extraction
// sees the timestamp without a full decode.
#[test]
fn opus_pts_scenario() {
    let header = FrameHeader::new(
        EncodingFlag::Opus,
        960,
        48000,
        2,
        16,
        Endianness::LittleEndian,
        None,
        Some(1000),
    )
    .unwrap();
    let buffer = encode_to_vec(&header);

    assert_eq!(buffer.len(), 12);
    assert_eq!(header.size(), 12);
    assert_eq!(&buffer[4..12], &1000u64.to_be_bytes());

    let decoded = FrameHeader::decode(&buffer).unwrap();
    assert_eq!(*decoded.encoding(), EncodingFlag::Opus);
    assert_eq!(decoded.sample_size(), 960);
    assert_eq!(decoded.sample_rate(), 48000);
    assert_eq!(decoded.channels(), 2);
    assert_eq!(decoded.bits_per_sample(), 16);
    assert_eq!(*decoded.endianness(), Endianness::LittleEndian);
    assert_eq!(decoded.id(), None);
    assert_eq!(decoded.pts(), Some(1000));

    assert_eq!(FrameHeader::extract_pts(&buffer).unwrap(), Some(1000));
}

// With both optional fields present the timestamp sits at offset 12; with
// only the timestamp present it sits at offset 4.
#[test]
fn pts_offset_follows_id_presence() {
    let both = encode_to_vec(
        &FrameHeader::new(
            EncodingFlag::FLAC,
            512,
            44100,
            2,
            24,
            Endianness::BigEndian,
            Some(7),
            Some(0x0102030405060708),
        )
        .unwrap(),
    );
    assert_eq!(both.len(), 20);
    assert_eq!(&both[12..20], &0x0102030405060708u64.to_be_bytes());
    assert_eq!(
        FrameHeader::extract_pts(&both).unwrap(),
        Some(0x0102030405060708)
    );

    let pts_only = encode_to_vec(
        &FrameHeader::new(
            EncodingFlag::FLAC,
            512,
            44100,
            2,
            24,
            Endianness::BigEndian,
            None,
            Some(0x0102030405060708),
        )
        .unwrap(),
    );
    assert_eq!(pts_only.len(), 12);
    assert_eq!(&pts_only[4..12], &0x0102030405060708u64.to_be_bytes());
    assert_eq!(
        FrameHeader::extract_pts(&pts_only).unwrap(),
        Some(0x0102030405060708)
    );
}

// Corrupting byte 0 of a valid buffer destroys the magic pattern for every
// operation at once.
#[test]
fn zero_first_byte_rejected_everywhere() {
    let mut buffer = encode_to_vec(
        &FrameHeader::new(
            EncodingFlag::AAC,
            1024,
            96000,
            6,
            32,
            Endianness::BigEndian,
            Some(9),
            Some(10),
        )
        .unwrap(),
    );
    buffer[0] = 0;

    assert_eq!(FrameHeader::validate_header(&buffer).unwrap(), false);
    assert_eq!(
        FrameHeader::decode(&buffer).unwrap_err(),
        HeaderError::InvalidMagic
    );
    assert_eq!(
        FrameHeader::extract_sample_count(&buffer).unwrap_err(),
        HeaderError::InvalidMagic
    );
    assert_eq!(
        FrameHeader::extract_encoding(&buffer).unwrap_err(),
        HeaderError::InvalidMagic
    );
    assert_eq!(
        FrameHeader::extract_id(&buffer).unwrap_err(),
        HeaderError::InvalidMagic
    );
    assert_eq!(
        FrameHeader::extract_pts(&buffer).unwrap_err(),
        HeaderError::InvalidMagic
    );
}

// Flipping any single bit of the magic region (the top six bits of byte 0)
// makes validation answer false and decoding fail.
#[test]
fn magic_bit_flips_rejected() {
    let buffer = encode_to_vec(
        &FrameHeader::new(
            EncodingFlag::Opus,
            960,
            48000,
            2,
            16,
            Endianness::LittleEndian,
            None,
            None,
        )
        .unwrap(),
    );
    assert_eq!(FrameHeader::validate_header(&buffer).unwrap(), true);

    for bit in 2..8u32 {
        let mut corrupted = buffer.clone();
        corrupted[0] ^= 1u8 << bit;
        assert_eq!(
            FrameHeader::validate_header(&corrupted).unwrap(),
            false,
            "flipping bit {} of byte 0 must invalidate the magic",
            bit
        );
        assert_eq!(
            FrameHeader::decode(&corrupted).unwrap_err(),
            HeaderError::InvalidMagic
        );
    }
}

#[test]
fn round_trip_big_endian_all_fields() {
    let header = FrameHeader::new(
        EncodingFlag::PCMFloat,
        2880,
        16000,
        12,
        24,
        Endianness::BigEndian,
        Some(u64::MAX),
        None,
    )
    .unwrap();
    let buffer = encode_to_vec(&header);
    assert_eq!(buffer.len(), 12);

    let decoded = FrameHeader::decode(&buffer).unwrap();
    assert_eq!(*decoded.encoding(), EncodingFlag::PCMFloat);
    assert_eq!(decoded.sample_size(), 2880);
    assert_eq!(decoded.sample_rate(), 16000);
    assert_eq!(decoded.channels(), 12);
    assert_eq!(decoded.bits_per_sample(), 24);
    assert_eq!(*decoded.endianness(), Endianness::BigEndian);
    assert_eq!(decoded.id(), Some(u64::MAX));
    assert_eq!(decoded.pts(), None);
}

#[test]
fn short_buffers_are_caller_errors() {
    for len in 0..4usize {
        let short = vec![0x55u8; len];
        assert_eq!(
            FrameHeader::validate_header(&short).unwrap_err(),
            HeaderError::BufferTooSmall
        );
        assert_eq!(
            FrameHeader::extract_sample_count(&short).unwrap_err(),
            HeaderError::BufferTooSmall
        );
        assert_eq!(
            FrameHeader::extract_encoding(&short).unwrap_err(),
            HeaderError::BufferTooSmall
        );
        assert_eq!(
            FrameHeader::extract_id(&short).unwrap_err(),
            HeaderError::BufferTooSmall
        );
        assert_eq!(
            FrameHeader::extract_pts(&short).unwrap_err(),
            HeaderError::BufferTooSmall
        );
        assert_eq!(
            FrameHeader::decode(&short).unwrap_err(),
            HeaderError::UnexpectedEnd
        );
        let mut patchable = short.clone();
        assert_eq!(
            FrameHeader::patch_sample_size(&mut patchable, 100).unwrap_err(),
            HeaderError::BufferTooSmall
        );
        assert_eq!(patchable, short);
    }
}

#[test]
fn undefined_wire_codes_rejected() {
    let base = encode_to_vec(
        &FrameHeader::new(
            EncodingFlag::PCMSigned,
            100,
            48000,
            2,
            16,
            Endianness::LittleEndian,
            None,
            None,
        )
        .unwrap(),
    );

    // Force the 3-bit encoding field to an undefined code.
    for code in [5u32, 6, 7] {
        let mut buffer = base.clone();
        let mut word = u32::from_be_bytes(buffer[..4].try_into().unwrap());
        word = (word & !(0x7 << 17)) | (code << 17);
        buffer[..4].copy_from_slice(&word.to_be_bytes());
        assert_eq!(FrameHeader::validate_header(&buffer).unwrap(), false);
        assert_eq!(
            FrameHeader::decode(&buffer).unwrap_err(),
            HeaderError::InvalidEncoding
        );
        assert_eq!(
            FrameHeader::extract_encoding(&buffer).unwrap_err(),
            HeaderError::InvalidEncoding
        );
        // The magic still reads, so the sample count is still extractable.
        assert_eq!(FrameHeader::extract_sample_count(&buffer).unwrap(), 100);
        // A patch refuses the structurally invalid buffer.
        let mut patchable = buffer.clone();
        assert_eq!(
            FrameHeader::patch_channels(&mut patchable, 2).unwrap_err(),
            HeaderError::InvalidHeader
        );
        assert_eq!(patchable, buffer);
    }

    // Force the 2-bit bit-depth field to its undefined code.
    let mut buffer = base.clone();
    let mut word = u32::from_be_bytes(buffer[..4].try_into().unwrap());
    word = (word & !(0x3 << 22)) | (3 << 22);
    buffer[..4].copy_from_slice(&word.to_be_bytes());
    assert_eq!(FrameHeader::validate_header(&buffer).unwrap(), false);
    assert_eq!(
        FrameHeader::decode(&buffer).unwrap_err(),
        HeaderError::InvalidBitsPerSample
    );
}

#[test]
fn truncated_optional_fields() {
    let with_both = encode_to_vec(
        &FrameHeader::new(
            EncodingFlag::Opus,
            960,
            48000,
            2,
            16,
            Endianness::LittleEndian,
            Some(0xABCD),
            Some(0x1234),
        )
        .unwrap(),
    );

    // The word alone: the flags promise 16 more bytes that are not there.
    let word_only = with_both[..4].to_vec();
    assert_eq!(
        FrameHeader::extract_id(&word_only).unwrap_err(),
        HeaderError::TruncatedId
    );
    assert_eq!(
        FrameHeader::extract_pts(&word_only).unwrap_err(),
        HeaderError::TruncatedPts
    );
    assert_eq!(
        FrameHeader::decode(&word_only).unwrap_err(),
        HeaderError::UnexpectedEnd
    );

    // The word and the id: the timestamp is still missing.
    let no_pts = with_both[..12].to_vec();
    assert_eq!(FrameHeader::extract_id(&no_pts).unwrap(), Some(0xABCD));
    assert_eq!(
        FrameHeader::extract_pts(&no_pts).unwrap_err(),
        HeaderError::TruncatedPts
    );
    assert_eq!(
        FrameHeader::decode(&no_pts).unwrap_err(),
        HeaderError::UnexpectedEnd
    );

    // Validation never looks past the word, so it still answers true.
    assert_eq!(FrameHeader::validate_header(&word_only).unwrap(), true);
}

#[test]
fn patch_optional_fields_need_room() {
    let word_only = encode_to_vec(
        &FrameHeader::new(
            EncodingFlag::PCMSigned,
            100,
            48000,
            2,
            16,
            Endianness::LittleEndian,
            None,
            None,
        )
        .unwrap(),
    );
    assert_eq!(word_only.len(), 4);

    let mut buffer = word_only.clone();
    assert_eq!(
        FrameHeader::patch_id(&mut buffer, Some(1)).unwrap_err(),
        HeaderError::NoRoomForId
    );
    assert_eq!(buffer, word_only, "a failed patch must not touch the buffer");

    let mut buffer = word_only.clone();
    assert_eq!(
        FrameHeader::patch_pts(&mut buffer, Some(1)).unwrap_err(),
        HeaderError::NoRoomForPts
    );
    assert_eq!(buffer, word_only, "a failed patch must not touch the buffer");

    // Clearing needs no room and only rewrites the presence bit.
    let mut buffer = word_only.clone();
    assert!(FrameHeader::patch_id(&mut buffer, None).is_ok());
    assert!(FrameHeader::patch_pts(&mut buffer, None).is_ok());
    assert_eq!(buffer, word_only);
}

#[test]
fn patch_id_on_existing_id() {
    let buffer = encode_to_vec(
        &FrameHeader::new(
            EncodingFlag::FLAC,
            2048,
            96000,
            8,
            32,
            Endianness::LittleEndian,
            Some(0x1111),
            Some(0x2222),
        )
        .unwrap(),
    );

    let mut patched = buffer.clone();
    FrameHeader::patch_id(&mut patched, Some(0x3333)).unwrap();
    let decoded = FrameHeader::decode(&patched).unwrap();
    assert_eq!(decoded.id(), Some(0x3333));
    assert_eq!(decoded.pts(), Some(0x2222));
    // Only the id bytes changed.
    assert_eq!(&patched[..4], &buffer[..4]);
    assert_eq!(&patched[12..], &buffer[12..]);
}

#[test]
fn patched_buffer_equals_directly_constructed() {
    // Constructing with the final values and patching towards them must
    // produce identical bytes.
    let direct = encode_to_vec(
        &FrameHeader::new(
            EncodingFlag::AAC,
            640,
            96000,
            5,
            32,
            Endianness::LittleEndian,
            None,
            None,
        )
        .unwrap(),
    );

    let mut patched = encode_to_vec(
        &FrameHeader::new(
            EncodingFlag::PCMSigned,
            100,
            48000,
            2,
            16,
            Endianness::LittleEndian,
            None,
            None,
        )
        .unwrap(),
    );
    FrameHeader::patch_encoding(&mut patched, EncodingFlag::AAC).unwrap();
    FrameHeader::patch_sample_size(&mut patched, 640).unwrap();
    FrameHeader::patch_sample_rate(&mut patched, 96000).unwrap();
    FrameHeader::patch_channels(&mut patched, 5).unwrap();
    FrameHeader::patch_bits_per_sample(&mut patched, 32).unwrap();

    assert_eq!(patched, direct);
}

#[test]
fn failed_patch_leaves_buffer_unchanged() {
    let buffer = encode_to_vec(
        &FrameHeader::new(
            EncodingFlag::Opus,
            960,
            48000,
            2,
            16,
            Endianness::LittleEndian,
            None,
            None,
        )
        .unwrap(),
    );

    let mut patchable = buffer.clone();
    assert!(FrameHeader::patch_sample_size(&mut patchable, 4096).is_err());
    assert_eq!(patchable, buffer);
    assert!(FrameHeader::patch_sample_rate(&mut patchable, 8000).is_err());
    assert_eq!(patchable, buffer);
    assert!(FrameHeader::patch_channels(&mut patchable, 17).is_err());
    assert_eq!(patchable, buffer);
    assert!(FrameHeader::patch_bits_per_sample(&mut patchable, 12).is_err());
    assert_eq!(patchable, buffer);
}

#[test]
fn h264_is_not_wire_decodable() {
    // The constructor accepts the reserved tag, and encoding packs its code,
    // but no decoding exists for it.
    let header = FrameHeader::new(
        EncodingFlag::H264,
        100,
        48000,
        2,
        16,
        Endianness::LittleEndian,
        None,
        None,
    )
    .unwrap();
    let buffer = encode_to_vec(&header);
    assert_eq!(FrameHeader::validate_header(&buffer).unwrap(), false);
    assert_eq!(
        FrameHeader::decode(&buffer).unwrap_err(),
        HeaderError::InvalidEncoding
    );
}
