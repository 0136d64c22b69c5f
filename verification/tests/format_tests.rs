use vimba::PixelFormat;

#[test]
fn bits_per_pixel_matches_occupancy() {
    assert_eq!(PixelFormat::Mono8.bits_per_pixel(), 8);
    assert_eq!(PixelFormat::Mono10.bits_per_pixel(), 16);
    assert_eq!(PixelFormat::Mono10p.bits_per_pixel(), 10);
    assert_eq!(PixelFormat::Mono12Packed.bits_per_pixel(), 12);
    assert_eq!(PixelFormat::Rgb8.bits_per_pixel(), 24);
    assert_eq!(PixelFormat::Rgba16.bits_per_pixel(), 64);
    assert_eq!(PixelFormat::Yuv411.bits_per_pixel(), 12);
    assert_eq!(PixelFormat::BayerBG12p.bits_per_pixel(), 12);
}

#[test]
fn bits_per_channel_table() {
    assert_eq!(PixelFormat::Mono8.bits_per_channel(), 8);
    assert_eq!(PixelFormat::Mono12Packed.bits_per_channel(), 12);
    assert_eq!(PixelFormat::BayerGR10p.bits_per_channel(), 10);
    assert_eq!(PixelFormat::Yuv444.bits_per_channel(), 8);
    assert_eq!(PixelFormat::Rgb14.bits_per_channel(), 14);
    assert_eq!(PixelFormat::Bgra16.bits_per_channel(), 16);
}

#[test]
fn num_channels_table() {
    assert_eq!(PixelFormat::Mono16.num_channels(), 1);
    assert_eq!(PixelFormat::BayerRG12.num_channels(), 1);
    assert_eq!(PixelFormat::Rgb10.num_channels(), 3);
    assert_eq!(PixelFormat::YCbCr8_CbYCr.num_channels(), 3);
    assert_eq!(PixelFormat::Bgra14.num_channels(), 4);
}

#[test]
fn is_color_table() {
    assert!(!PixelFormat::Mono8.is_color());
    assert!(!PixelFormat::BayerRG8.is_color());
    assert!(PixelFormat::Rgb8.is_color());
    assert!(PixelFormat::Yuv422.is_color());
    assert!(PixelFormat::Bgra10.is_color());
}

#[test]
fn code_round_trip() {
    let formats = [
        PixelFormat::Mono8,
        PixelFormat::Mono12p,
        PixelFormat::BayerGB10,
        PixelFormat::Rgb16,
        PixelFormat::Bgra8,
        PixelFormat::YCbCr422_8_CbYCrY,
    ];
    for f in formats {
        assert_eq!(PixelFormat::from_code(f.code()), Some(f));
    }
}

#[test]
fn from_code_rejects_unknown() {
    assert_eq!(PixelFormat::from_code(0), None);
    assert_eq!(PixelFormat::from_code(0xDEAD_BEEF), None);
}

#[test]
fn default_format_is_mono8() {
    assert_eq!(PixelFormat::default(), PixelFormat::Mono8);
}

#[test]
fn unpack_two_byte_samples() {
    let raw = [0x01u8, 0x02, 0xFF, 0x00];
    let out = PixelFormat::Mono16.unpack_to_u16(&raw).unwrap();
    assert_eq!(out, vec![0x0201, 0x00FF]);
}

#[test]
fn unpack_two_byte_samples_drops_odd_tail() {
    let raw = [0x10u8, 0x20, 0x30];
    let out = PixelFormat::BayerGR16.unpack_to_u16(&raw).unwrap();
    assert_eq!(out, vec![0x2010]);
}

#[test]
fn unpack_packed_ten_bit_samples() {
    let raw = [0xAAu8, 0xCC, 0x0F, 0x55, 0x33];
    let out = PixelFormat::Mono10p.unpack_to_u16(&raw).unwrap();
    // Sample i starts at bit 10*i; each is the little-endian word at its
    // starting byte shifted down by the in-byte offset.
    assert_eq!(out, vec![0xCCAA, 0x0FCC >> 2, 0x550F >> 4, 0x3355 >> 6]);
}

#[test]
fn unpack_packed_twelve_bit_samples() {
    let raw = [0x12u8, 0x34, 0x56];
    let out = PixelFormat::BayerRG12Packed.unpack_to_u16(&raw).unwrap();
    assert_eq!(out, vec![0x3412, 0x5634 >> 4]);
}

#[test]
fn unpack_rejects_other_formats() {
    let raw = [1u8, 2, 3, 4];
    assert!(PixelFormat::Mono8.unpack_to_u16(&raw).is_none());
    assert!(PixelFormat::Mono12p.unpack_to_u16(&raw).is_none());
    assert!(PixelFormat::Mono12Packed.unpack_to_u16(&raw).is_none());
    assert!(PixelFormat::Yuv444.unpack_to_u16(&raw).is_none());
}

#[test]
fn unpack_empty_input() {
    let raw: [u8; 0] = [];
    assert_eq!(PixelFormat::Mono16.unpack_to_u16(&raw).unwrap(), Vec::<u16>::new());
    assert_eq!(PixelFormat::Mono10p.unpack_to_u16(&raw).unwrap(), Vec::<u16>::new());
}
