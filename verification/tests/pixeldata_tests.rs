//! Pixel-data behavior: the sample shifts, window/level mapping,
//! validation errors, and the decoders on literal byte layouts.

use medicom::load::{IndexVec, MilliVec, VolDims};
use medicom::pdinfo::PixelDataSliceInfo;
use medicom::pdslice::{PixelDataSlice, PixelDataSliceI16, PixelDataSliceU16};
use medicom::pixelbuf::PixelDataBufferI8;
use medicom::pixeldata::{shift_i16, shift_i32, shift_i8, BitsAlloc, LoadError, PhotoInterp};
use medicom::vr::Vr;
use medicom::winlevel::WindowLevel;

#[test]
fn test_shift_i8() {
    assert_eq!(0u8, shift_i8(i8::MIN));
    assert_eq!(1u8, shift_i8(i8::MIN + 1));
    assert_eq!(127u8, shift_i8(-1));
    assert_eq!(128u8, shift_i8(0));
    assert_eq!(129u8, shift_i8(1));
    assert_eq!(254u8, shift_i8(i8::MAX - 1));
    assert_eq!(255u8, shift_i8(i8::MAX));
}

#[test]
fn test_shift_i16() {
    assert_eq!(0u16, shift_i16(i16::MIN));
    assert_eq!(1u16, shift_i16(i16::MIN + 1));
    assert_eq!(32767u16, shift_i16(-1));
    assert_eq!(32768u16, shift_i16(0));
    assert_eq!(32769u16, shift_i16(1));
    assert_eq!(65534u16, shift_i16(i16::MAX - 1));
    assert_eq!(65535u16, shift_i16(i16::MAX));
}

#[test]
fn test_shift_i32() {
    assert_eq!(0u32, shift_i32(i32::MIN));
    assert_eq!(1u32, shift_i32(i32::MIN + 1));
    assert_eq!(2147483647u32, shift_i32(-1));
    assert_eq!(2147483648u32, shift_i32(0));
    assert_eq!(2147483649u32, shift_i32(1));
    assert_eq!(4294967294u32, shift_i32(i32::MAX - 1));
    assert_eq!(4294967295u32, shift_i32(i32::MAX));
}

#[test]
fn test_winlevel() {
    // Center 100 and width 200 over the byte output range, in
    // thousandths.
    let wl = WindowLevel::new(Vec::new(), 100_000, 200_000, 0, 255_000);
    let v = (wl.apply(0) / 1000) as u8;
    assert_eq!(u8::MIN, v);
    let v = (wl.apply(200_000) / 1000) as u8;
    assert_eq!(u8::MAX, v);
    let v = (wl.apply(100_000) / 1000) as u8;
    assert_eq!(u8::MAX / 2 + 1, v);
}

#[test]
fn winlevel_edges_hit_output_range() {
    // Half a width below the center lands on the output minimum, half
    // a width above it on the output maximum.
    let wl = WindowLevel::new(Vec::new(), 40_000, 80_000, -5_000, 95_000);
    assert_eq!(wl.apply(40_000 - 80_000 / 2), -5_000);
    assert_eq!(wl.apply(40_000 + 80_000 / 2), 95_000);
}

fn base_info() -> PixelDataSliceInfo {
    let mut info = PixelDataSliceInfo::new(false);
    info.vr = Vr::OW;
    info.rows = 1;
    info.cols = 2;
    info.samples_per_pixel = 1;
    info.photo_interp = Some(PhotoInterp::Monochrome2);
    info.bits_alloc = BitsAlloc::Sixteen;
    info.bits_stored = 12;
    info.high_bit = 11;
    info.pixel_rep = 1;
    info.slice_thickness = 1_000;
    info.pixel_spacing_x = 1_000;
    info.pixel_spacing_y = 1_000;
    info
}

#[test]
fn mono_16bit_extrema_skip_padding() {
    // BitsAllocated=16 BitsStored=12 PixelRepresentation=1 Rows=1
    // Cols=2 PixelPaddingValue=0x0800, little-endian samples 0x0800
    // and 0x0FFF: the pad value contributes nothing to the extrema.
    let mut info = base_info();
    info.pixel_pad = Some(0x0800);
    info.pd_bytes = vec![0x00, 0x08, 0xFF, 0x0F];
    let slice = PixelDataSliceI16::from_mono_16bit(info).unwrap();
    assert_eq!(slice.buffer(), &vec![0x0800i16, 0x0FFF]);
    assert_eq!(slice.info().min_val, 0x0FFF);
    assert_eq!(slice.info().max_val, 0x0FFF);
}

#[test]
fn rgb_8bit_decodes_to_u8_triplets() {
    // Rows=2 Cols=2 SamplesPerPixel=3 PlanarConfiguration=0 RGB: four
    // pixels red, green, blue, white.
    let mut info = PixelDataSliceInfo::new(false);
    info.vr = Vr::OB;
    info.rows = 2;
    info.cols = 2;
    info.samples_per_pixel = 3;
    info.planar_config = 0;
    info.photo_interp = Some(PhotoInterp::Rgb);
    info.bits_alloc = BitsAlloc::Eight;
    info.slice_thickness = 1_000;
    info.pixel_spacing_x = 1_000;
    info.pixel_spacing_y = 1_000;
    info.pd_bytes = vec![
        0xFF, 0x00, 0x00, 0x00, 0xFF, 0x00, 0x00, 0x00, 0xFF, 0xFF, 0xFF, 0xFF,
    ];
    match info.load_pixel_data().unwrap() {
        PixelDataSlice::U8(s) => {
            assert_eq!(
                s.buffer(),
                &vec![0xFFu8, 0x00, 0x00, 0x00, 0xFF, 0x00, 0x00, 0x00, 0xFF, 0xFF, 0xFF, 0xFF]
            );
            let px = [
                (s.buffer()[0], s.buffer()[1], s.buffer()[2]),
                (s.buffer()[3], s.buffer()[4], s.buffer()[5]),
                (s.buffer()[6], s.buffer()[7], s.buffer()[8]),
                (s.buffer()[9], s.buffer()[10], s.buffer()[11]),
            ];
            assert_eq!(px[0], (255, 0, 0));
            assert_eq!(px[1], (0, 255, 0));
            assert_eq!(px[2], (0, 0, 255));
            assert_eq!(px[3], (255, 255, 255));
        }
        _ => panic!("expected the 8-bit RGB variant"),
    }
}

#[test]
fn validate_reports_each_error() {
    let mut info = base_info();
    info.pd_bytes = Vec::new();
    assert_eq!(info.validate().unwrap_err(), LoadError::MissingPixelData);

    let mut info = base_info();
    info.pd_bytes = vec![0, 0];
    info.cols = 0;
    assert_eq!(info.validate().unwrap_err(), LoadError::InvalidSize(0, 1));

    let mut info = base_info();
    info.pd_bytes = vec![0, 0];
    info.vr = Vr::SS;
    assert_eq!(info.validate().unwrap_err(), LoadError::InvalidVr(Vr::SS));

    let mut info = base_info();
    info.pd_bytes = vec![0, 0];
    info.bits_alloc = BitsAlloc::Unsupported(12);
    assert_eq!(info.validate().unwrap_err(), LoadError::InvalidBitsAlloc(12));

    let mut info = base_info();
    info.pd_bytes = vec![0, 0];
    info.samples_per_pixel = 2;
    assert_eq!(
        info.validate().unwrap_err(),
        LoadError::InvalidPhotoInterpSamples(PhotoInterp::Monochrome2, 2)
    );

    let mut info = base_info();
    info.pd_bytes = vec![0, 0];
    info.slice_thickness = 0;
    info.spacing_between_slices = 0;
    assert_eq!(info.validate().unwrap_err(), LoadError::InvalidDims);
}

#[test]
fn encapsulated_syntax_is_rejected_wholesale() {
    // Compressed pixel data is detected and refused before any
    // decoding.
    let mut info = base_info();
    info.pd_bytes = vec![0, 0];
    info.encapsulated = true;
    assert_eq!(info.validate().unwrap_err(), LoadError::Encapsulated);
    let mut info = base_info();
    info.pd_bytes = vec![0x00, 0x08, 0xFF, 0x0F];
    info.encapsulated = true;
    assert!(matches!(info.load_pixel_data(), Err(LoadError::Encapsulated)));
}

#[test]
fn validate_coerces_bits_stored_and_high_bit() {
    let mut info = base_info();
    info.pd_bytes = vec![0, 0];
    info.bits_stored = 0;
    info.high_bit = 99;
    info.validate().unwrap();
    assert_eq!(info.bits_stored, 16);
    assert_eq!(info.high_bit, 15);
}

#[test]
fn i8_buffer_normalizes_between_extrema() {
    let mut info = PixelDataSliceInfo::new(false);
    info.cols = 2;
    info.rows = 1;
    info.samples_per_pixel = 1;
    info.photo_interp = Some(PhotoInterp::Monochrome2);
    let buf = PixelDataBufferI8::new(info, vec![-10i8, 0, 10, 20], -10, 20);
    assert_eq!(buf.normalize(-10), 0);
    assert_eq!(buf.normalize(20), 127);
    assert_eq!(buf.normalize(5), (15 * 127 / 30) as i8);
    let p = buf.get_pixel(1).unwrap();
    assert_eq!(p.x, 1);
    assert_eq!(p.y, 0);
    assert_eq!(p.r, buf.normalize(0));
}

#[test]
fn i8_buffer_inverts_for_monochrome1() {
    let mut info = PixelDataSliceInfo::new(false);
    info.cols = 2;
    info.rows = 1;
    info.samples_per_pixel = 1;
    info.photo_interp = Some(PhotoInterp::Monochrome1);
    let buf = PixelDataBufferI8::new(info, vec![0i8, 100], 0, 100);
    assert_eq!(buf.normalize(0), -1);
    assert_eq!(buf.normalize(100), -128);
}

#[test]
fn short_buffer_is_an_invalid_pixel_source() {
    let mut info = base_info();
    info.pd_bytes = vec![0x00, 0x08, 0xFF];
    match PixelDataSliceI16::from_mono_16bit(info) {
        Err(LoadError::InvalidPixelSource(_)) => {}
        other => panic!("expected an invalid-source failure, got {:?}", other.is_ok()),
    }
}

#[test]
fn out_of_range_sample_is_a_pixel_value_error() {
    let mut info = base_info();
    info.photo_interp = Some(PhotoInterp::Rgb);
    info.samples_per_pixel = 3;
    info.pixel_rep = 0;
    info.cols = 1;
    info.pd_bytes = vec![0xFF, 0xFF, 0x00, 0x00, 0x00, 0x00];
    let slice = PixelDataSliceU16::from_rgb_16bit(info).unwrap();
    match slice.into_i16() {
        Err(LoadError::PixelValueError(v)) => assert_eq!(v, 0xFFFF),
        other => panic!("expected a value-range failure, got {:?}", other.is_ok()),
    }
}

#[test]
fn best_winlevel_prefers_the_last_window() {
    // The "Min/Max" window synthesized during decoding comes last and
    // wins.
    let mut info = base_info();
    info.pixel_pad = Some(0x0800);
    info.pd_bytes = vec![0x00, 0x08, 0xFF, 0x0F];
    let slice = PixelDataSliceI16::from_mono_16bit(info).unwrap();
    let wl = slice.best_winlevel();
    assert_eq!(wl.center, 0x0FFF * 1000);
    assert_eq!(wl.width, 0);
    assert_eq!(wl.name, b"Min/Max".to_vec());
}

#[test]
fn photo_interp_and_bits_alloc_parse() {
    assert!(PhotoInterp::from_value(b"RGB").is_rgb());
    assert!(PhotoInterp::from_value(b"MONOCHROME1").is_monochrome());
    assert!(PhotoInterp::from_value(b"MONOCHROME2").is_monochrome());
    assert_eq!(PhotoInterp::from_value(b"PALETTE COLOR"), PhotoInterp::Unsupported);
    assert_eq!(BitsAlloc::from_val(8), BitsAlloc::Eight);
    assert_eq!(BitsAlloc::from_val(16), BitsAlloc::Sixteen);
    assert_eq!(BitsAlloc::from_val(32), BitsAlloc::ThirtyTwo);
    assert_eq!(BitsAlloc::from_val(12), BitsAlloc::Unsupported(12));
    assert_eq!(BitsAlloc::from_val(12).val(), 12);
}

#[test]
fn volume_geometry_types_compare() {
    let a = VolDims::new(
        MilliVec { x: 0, y: 0, z: 0 },
        IndexVec { x: 2, y: 2, z: 1 },
        MilliVec { x: 1_000, y: 1_000, z: 1_000 },
    );
    let b = VolDims::new(
        MilliVec { x: 5_000, y: 0, z: 0 },
        IndexVec { x: 2, y: 2, z: 9 },
        MilliVec { x: 1_009, y: 991, z: 1_000 },
    );
    // Counts on x/y and spacing within a hundredth of a millimeter
    // match; z count and origin are not compared.
    assert!(a.matches(&b));
    let c = VolDims::new(
        MilliVec { x: 0, y: 0, z: 0 },
        IndexVec { x: 3, y: 2, z: 1 },
        MilliVec { x: 1_000, y: 1_000, z: 1_000 },
    );
    assert!(!a.matches(&c));
    let p = a.coordinate(IndexVec { x: 1, y: 2, z: 3 });
    assert_eq!(p, MilliVec { x: 1_000, y: 2_000, z: 3_000 });
}
