use gif_parser::error::GifError;
use gif_parser::gif::GifSignature;
use gif_parser::gif::GifVersion;
use gif_parser::gif::GlobalColorMap;
use gif_parser::gif::IDPackedFields;
use gif_parser::gif::ImageDescriptor;
use gif_parser::gif::LSDPackedFields;
use gif_parser::gif::LocalColorMap;
use gif_parser::gif::LogicalScreenDescriptor;
use gif_parser::gif::RasterData;
use gif_parser::gif::Terminator;
use gif_parser::parser::GifBuffer;

fn sig_result(bytes: &[u8]) -> Result<GifSignature, GifError> {
    let mut buf = GifBuffer::new(bytes.to_vec());
    GifSignature::parse(&mut buf)
}

#[test]
fn signature_gif89a() {
    let sig = sig_result(b"GIF89a").unwrap();
    assert_eq!(sig.magic, b"GIF".to_vec());
    assert_eq!(sig.version, GifVersion::GIF89a);
}

#[test]
fn signature_gif87a() {
    let sig = sig_result(b"GIF87a").unwrap();
    assert_eq!(sig.magic, b"GIF".to_vec());
    assert_eq!(sig.version, GifVersion::GIF87a);
}

#[test]
fn signature_lowercase_magic_is_normalized() {
    let sig = sig_result(b"gif89a").unwrap();
    assert_eq!(sig.magic, b"GIF".to_vec());
    assert_eq!(sig.version, GifVersion::GIF89a);
}

#[test]
fn signature_wrong_magic() {
    assert_eq!(sig_result(b"JIF89a"), Err(GifError::InvalidSignature));
    assert_eq!(sig_result(b"PNG89a"), Err(GifError::InvalidSignature));
}

#[test]
fn signature_unknown_version() {
    assert_eq!(sig_result(b"GIF88a"), Err(GifError::UnsupportedVersion));
    assert_eq!(sig_result(b"GIF89A"), Err(GifError::UnsupportedVersion));
}

#[test]
fn signature_short_input() {
    assert_eq!(sig_result(b"GI"), Err(GifError::BufferUnderrun));
    assert_eq!(sig_result(b"GIF8"), Err(GifError::BufferUnderrun));
}

#[test]
fn version_bytes_round_trip() {
    for v in [GifVersion::GIF87a, GifVersion::GIF89a] {
        let bytes = v.version_bytes();
        assert_eq!(GifVersion::from_bytes(&bytes), Ok(v));
    }
    assert_eq!(
        GifVersion::from_bytes(&b"90a".to_vec()),
        Err(GifError::UnsupportedVersion)
    );
}

#[test]
fn lsd_packed_bit_extraction_all_bytes() {
    for b in 0..=255u8 {
        let p = LSDPackedFields::from_byte(b);
        assert_eq!(p.global_color_table_flag, (b >> 7) & 1 == 1);
        assert_eq!(p.color_resolution, ((b >> 4) & 0b111) + 1);
        assert_eq!(p.sort_flag, (b >> 3) & 1 == 1);
        assert_eq!(p.global_color_table_size, (b & 0b111) + 1);
    }
}

#[test]
fn lsd_packed_round_trip_all_bytes() {
    for b in 0..=255u8 {
        assert_eq!(LSDPackedFields::from_byte(b).to_byte(), b);
    }
}

#[test]
fn id_packed_bit_extraction_all_bytes() {
    for b in 0..=255u8 {
        let p = IDPackedFields::from_byte(b);
        assert_eq!(p.local_color_table_flag, (b >> 7) & 1 == 1);
        assert_eq!(p.interlace_flag, (b >> 6) & 1 == 1);
        assert_eq!(p.sort_flag, (b >> 5) & 1 == 1);
        assert_eq!(p.reserved, (b >> 3) & 0b11);
        assert_eq!(p.local_color_table_size, (b & 0b111) + 1);
    }
}

#[test]
fn id_packed_round_trip_all_bytes() {
    for b in 0..=255u8 {
        assert_eq!(IDPackedFields::from_byte(b).to_byte(), b);
    }
}

fn screen_descriptor(packed: u8) -> LogicalScreenDescriptor {
    let mut buf = GifBuffer::new(vec![10, 0, 5, 0, packed, 0, 0]);
    LogicalScreenDescriptor::parse(&mut buf).unwrap()
}

#[test]
fn screen_descriptor_fields() {
    let mut buf = GifBuffer::new(vec![10, 0, 5, 0, 0x80, 3, 9]);
    let d = LogicalScreenDescriptor::parse(&mut buf).unwrap();
    assert_eq!(d.logical_screen_width, 10);
    assert_eq!(d.logical_screen_height, 5);
    assert!(d.packed_fields.global_color_table_flag);
    assert_eq!(d.packed_fields.global_color_table_size, 1);
    assert_eq!(d.background_color_index, 3);
    assert_eq!(d.pixel_aspect_ratio, 9);
    assert_eq!(buf.get_pointer(), 7);
}

#[test]
fn screen_descriptor_short_input() {
    let mut buf = GifBuffer::new(vec![10, 0, 5, 0, 0, 0]);
    assert_eq!(
        LogicalScreenDescriptor::parse(&mut buf),
        Err(GifError::BufferUnderrun)
    );
    assert_eq!(buf.get_pointer(), 0);
}

#[test]
fn color_table_absent_consumes_nothing() {
    let sd = screen_descriptor(0x00);
    let mut buf = GifBuffer::new(vec![1, 2, 3, 4, 5, 6]);
    assert_eq!(GlobalColorMap::parse(&mut buf, &sd), Ok(None));
    assert_eq!(buf.get_pointer(), 0);
}

#[test]
fn color_table_smallest_exponent_consumes_six_bytes() {
    // Packed byte 0x80: flag set, raw size field 0b000, so exponent 1 and
    // 3 * 2^1 = 6 table bytes.
    let sd = screen_descriptor(0x80);
    let mut buf = GifBuffer::new(vec![0, 1, 2, 3, 4, 5, 99]);
    let m = GlobalColorMap::parse(&mut buf, &sd).unwrap().unwrap();
    assert_eq!(m.size, 6);
    assert_eq!(m.intensities.len(), 6);
    assert_eq!(buf.get_pointer(), 6);
}

#[test]
fn color_table_length_matches_exponent() {
    for raw_size in 0..=7u8 {
        let exponent = raw_size + 1;
        let expected = 3 * (1usize << exponent);
        let sd = screen_descriptor(0x80 | raw_size);
        let mut buf = GifBuffer::new(vec![0; expected]);
        let m = GlobalColorMap::parse(&mut buf, &sd).unwrap().unwrap();
        assert_eq!(m.size, expected);
        assert_eq!(m.intensities.len(), expected);
        assert_eq!(buf.get_pointer(), expected);
    }
}

#[test]
fn color_table_short_input_underruns() {
    let sd = screen_descriptor(0x80);
    let mut buf = GifBuffer::new(vec![0, 1, 2, 3, 4]);
    assert_eq!(
        GlobalColorMap::parse(&mut buf, &sd),
        Err(GifError::BufferUnderrun)
    );
    assert_eq!(buf.get_pointer(), 0);
}

#[test]
fn color_table_intensity_scaling() {
    // Exponent 1: divisor 2^1 - 1 = 1, so each byte becomes the low eight
    // bits of raw * 255.
    let sd = screen_descriptor(0x80);
    let mut buf = GifBuffer::new(vec![0, 1, 2, 255, 10, 100]);
    let m = GlobalColorMap::parse(&mut buf, &sd).unwrap().unwrap();
    assert_eq!(m.intensities[0], 0);
    assert_eq!(m.intensities[1], 255);
    assert_eq!(m.intensities[2], (2u32 * 255 % 256) as u8);
    assert_eq!(m.intensities[3], (255u32 * 255 % 256) as u8);
    assert_eq!(m.intensities[4], (10u32 * 255 % 256) as u8);
    assert_eq!(m.intensities[5], (100u32 * 255 % 256) as u8);
}

#[test]
fn color_table_identity_at_largest_exponent() {
    // Exponent 8: divisor 255, so raw * 255 / 255 leaves each byte as-is.
    let sd = screen_descriptor(0x87);
    let mut bytes = vec![0u8; 768];
    for (i, b) in bytes.iter_mut().enumerate() {
        *b = (i % 256) as u8;
    }
    let mut buf = GifBuffer::new(bytes.clone());
    let m = GlobalColorMap::parse(&mut buf, &sd).unwrap().unwrap();
    assert_eq!(m.intensities, bytes);
}

#[test]
fn image_descriptor_fields() {
    let mut buf = GifBuffer::new(vec![0x2C, 1, 0, 2, 0, 3, 0, 4, 0, 0x40]);
    let d = ImageDescriptor::parse(&mut buf).unwrap();
    assert_eq!(d.image_left, 1);
    assert_eq!(d.image_top, 2);
    assert_eq!(d.image_width, 3);
    assert_eq!(d.image_height, 4);
    assert!(d.packed_fields.interlace_flag);
    assert!(!d.packed_fields.local_color_table_flag);
    assert_eq!(buf.get_pointer(), 10);
}

#[test]
fn image_descriptor_wrong_separator_consumes_one_byte() {
    let mut buf = GifBuffer::new(vec![0x21, 1, 0, 2, 0, 3, 0, 4, 0, 0]);
    assert_eq!(
        ImageDescriptor::parse(&mut buf),
        Err(GifError::InvalidImageSeparator)
    );
    assert_eq!(buf.get_pointer(), 1);
}

#[test]
fn image_descriptor_short_input() {
    let mut buf = GifBuffer::new(vec![0x2C, 1, 0]);
    assert_eq!(ImageDescriptor::parse(&mut buf), Err(GifError::BufferUnderrun));
}

#[test]
fn local_color_map_mirrors_flag() {
    let mut with_flag = GifBuffer::new(vec![0x2C, 0, 0, 0, 0, 0, 0, 0, 0, 0x80]);
    let d = ImageDescriptor::parse(&mut with_flag).unwrap();
    let mut rest = GifBuffer::new(vec![1, 2, 3]);
    assert_eq!(LocalColorMap::parse(&mut rest, &d), Some(LocalColorMap {}));
    assert_eq!(rest.get_pointer(), 0);

    let mut without_flag = GifBuffer::new(vec![0x2C, 0, 0, 0, 0, 0, 0, 0, 0, 0x00]);
    let d = ImageDescriptor::parse(&mut without_flag).unwrap();
    assert_eq!(LocalColorMap::parse(&mut rest, &d), None);
}

#[test]
fn raster_data_captures_interlace_flag() {
    let mut buf = GifBuffer::new(vec![0x2C, 0, 0, 0, 0, 0, 0, 0, 0, 0x40]);
    let d = ImageDescriptor::parse(&mut buf).unwrap();
    let mut rest = GifBuffer::new(Vec::new());
    assert_eq!(RasterData::parse(&mut rest, &d), RasterData { interlaced: true });
}

#[test]
fn terminator_parse_is_a_placeholder() {
    let mut buf = GifBuffer::new(vec![0x3B]);
    assert_eq!(Terminator::parse(&mut buf), Terminator {});
    assert_eq!(buf.get_pointer(), 0);
}
