//! Volume behavior: sorted slice insertion, geometry agreement, pixel
//! reads, axis orientation, and the loading bookkeeping types.

use medicom::imgvol::ImageVolume;
use medicom::load::{
    IndexVec, LoadableChunkKey, LoadableKey, MilliVec, SeriesSourceLoadResult, VolAxis,
};
use medicom::pdinfo::PixelDataSliceInfo;
use medicom::pixeldata::{BitsAlloc, LoadError, PhotoInterp, SliceMismatch};
use medicom::vr::Vr;

/// A loadable 2x2 monochrome slice at the given z position, in
/// thousandths of a millimeter, with four 8-bit samples.
fn slice_at(z: i64, samples: [u8; 4]) -> PixelDataSliceInfo {
    let mut info = PixelDataSliceInfo::new(false);
    info.vr = Vr::OW;
    info.rows = 2;
    info.cols = 2;
    info.samples_per_pixel = 1;
    info.photo_interp = Some(PhotoInterp::Monochrome2);
    info.bits_alloc = BitsAlloc::Eight;
    info.slice_thickness = 1_000;
    info.pixel_spacing_x = 1_000;
    info.pixel_spacing_y = 1_000;
    info.image_pos = MilliVec { x: 0, y: 0, z };
    info.sop_uid = format!("1.2.3.{z}").into_bytes();
    info.series_uid = b"1.2.3".to_vec();
    info.pd_bytes = samples.to_vec();
    info
}

#[test]
fn slices_sort_by_z_position() {
    // Slices arrive out of order; the volume keeps them ordered by
    // their z position and moves its origin to the lowest slice.
    let mut vol = ImageVolume::new();
    vol.load_slice(slice_at(30_000, [3, 3, 3, 3])).unwrap();
    vol.load_slice(slice_at(10_000, [1, 1, 1, 1])).unwrap();
    vol.load_slice(slice_at(20_000, [2, 2, 2, 2])).unwrap();
    assert_eq!(vol.infos.len(), 3);
    let zs: Vec<i64> = vol.infos.iter().map(|i| i.image_pos.z).collect();
    assert_eq!(zs, vec![10_000, 20_000, 30_000]);
    for w in zs.windows(2) {
        assert!(w[0] <= w[1]);
    }
    assert_eq!(vol.slices[0], vec![1i16, 1, 1, 1]);
    assert_eq!(vol.slices[2], vec![3i16, 3, 3, 3]);
    assert_eq!(vol.dims.origin().z, 10_000);
    assert_eq!(vol.dims.counts().z, 3);
    assert_eq!(vol.min_val, 1);
    assert_eq!(vol.max_val, 3);
}

#[test]
fn duplicate_z_position_is_rejected() {
    let mut vol = ImageVolume::new();
    vol.load_slice(slice_at(10_000, [1, 1, 1, 1])).unwrap();
    match vol.load_slice(slice_at(10_000, [2, 2, 2, 2])) {
        Err(LoadError::InconsistentSliceFormat(_, reason)) => {
            assert_eq!(reason, SliceMismatch::SameZPos);
        }
        other => panic!("expected a same-z rejection, got {:?}", other.is_ok()),
    }
    assert_eq!(vol.infos.len(), 1);
}

#[test]
fn series_and_geometry_mismatches_are_rejected() {
    let mut vol = ImageVolume::new();
    vol.load_slice(slice_at(10_000, [1, 1, 1, 1])).unwrap();

    let mut other_series = slice_at(20_000, [2, 2, 2, 2]);
    other_series.series_uid = b"9.9.9".to_vec();
    match vol.load_slice(other_series) {
        Err(LoadError::InconsistentSliceFormat(_, reason)) => {
            assert_eq!(reason, SliceMismatch::SeriesUid);
        }
        other => panic!("expected a series rejection, got {:?}", other.is_ok()),
    }

    let mut other_dims = slice_at(20_000, [2, 2, 2, 2]);
    other_dims.cols = 3;
    other_dims.pd_bytes = vec![2; 6];
    match vol.load_slice(other_dims) {
        Err(LoadError::InconsistentSliceFormat(_, reason)) => {
            assert_eq!(reason, SliceMismatch::Dims);
        }
        other => panic!("expected a dims rejection, got {:?}", other.is_ok()),
    }

    let mut other_slope = slice_at(20_000, [2, 2, 2, 2]);
    other_slope.slope = Some(2_000);
    match vol.load_slice(other_slope) {
        Err(LoadError::InconsistentSliceFormat(_, reason)) => {
            assert_eq!(reason, SliceMismatch::Slope);
        }
        other => panic!("expected a slope rejection, got {:?}", other.is_ok()),
    }

    // Rejected slices left the volume untouched.
    assert_eq!(vol.infos.len(), 1);
}

#[test]
fn pixels_read_back_rescaled() {
    let mut first = slice_at(10_000, [0, 10, 20, 30]);
    first.slope = Some(2_000);
    first.intercept = Some(-5_000);
    let mut vol = ImageVolume::new();
    vol.load_slice(first).unwrap();
    let p = vol.get_pixel(IndexVec { x: 1, y: 1, z: 0 }).unwrap();
    // Raw 30 under slope 2 and intercept -5, in thousandths.
    assert_eq!(p.r, 30 * 2_000 - 5_000);
    assert_eq!(p.g, p.r);
    assert_eq!(p.b, p.r);
    assert!(vol.get_pixel(IndexVec { x: 0, y: 0, z: 5 }).is_err());
}

#[test]
fn axis_dims_orient_the_volume() {
    let mut vol = ImageVolume::new();
    vol.load_slice(slice_at(10_000, [1, 1, 1, 1])).unwrap();
    vol.load_slice(slice_at(20_000, [2, 2, 2, 2])).unwrap();
    let z = vol.axis_dims(&VolAxis::Z);
    assert_eq!((z.x, z.y, z.z), (2, 2, 2));
    let x = vol.axis_dims(&VolAxis::X);
    assert_eq!((x.x, x.y, x.z), (2, 2, 2));

    let mut it = vol.slice_iter(&VolAxis::Z, 1);
    let mut count = 0;
    while let Some(p) = it.next() {
        assert_eq!(p.coord.z, 1);
        assert_eq!(p.r, 2_000);
        count += 1;
    }
    assert_eq!(count, 4);
}

#[test]
fn volume_extrema_skip_the_padding_sentinel() {
    // A 16-bit slice with the 0x0800 padding sentinel: after loading,
    // only the real sample 0x0FFF contributes to the volume's range.
    let mut info = PixelDataSliceInfo::new(false);
    info.vr = Vr::OW;
    info.rows = 1;
    info.cols = 2;
    info.samples_per_pixel = 1;
    info.photo_interp = Some(PhotoInterp::Monochrome2);
    info.bits_alloc = BitsAlloc::Sixteen;
    info.bits_stored = 12;
    info.high_bit = 11;
    info.pixel_rep = 1;
    info.pixel_pad = Some(0x0800);
    info.slice_thickness = 1_000;
    info.pixel_spacing_x = 1_000;
    info.pixel_spacing_y = 1_000;
    info.series_uid = b"1.2.3".to_vec();
    info.pd_bytes = vec![0x00, 0x08, 0xFF, 0x0F];
    let mut vol = ImageVolume::new();
    vol.load_slice(info).unwrap();
    assert_eq!(vol.min_val, 0x0FFF);
    assert_eq!(vol.max_val, 0x0FFF);
}

#[test]
fn minmax_window_covers_the_recorded_range() {
    let mut vol = ImageVolume::new();
    vol.load_slice(slice_at(10_000, [10, 20, 30, 40])).unwrap();
    let wl = vol.minmax_winlevel();
    assert_eq!(wl.width, 30_000);
    assert_eq!(wl.center, 25_000);
    assert!(wl.name.is_empty());
}

#[test]
fn minmax_window_carries_the_full_rescale() {
    // Both the center and the width go through slope and intercept,
    // as the raw window arithmetic does.
    let mut first = slice_at(10_000, [10, 20, 30, 40]);
    first.slope = Some(2_000);
    first.intercept = Some(500);
    let mut vol = ImageVolume::new();
    vol.load_slice(first).unwrap();
    let wl = vol.minmax_winlevel();
    assert_eq!(wl.width, 30 * 2_000 + 500);
    assert_eq!(wl.center, 25 * 2_000 + 500);
}

#[test]
fn load_bookkeeping_counts() {
    let key = LoadableKey::new("1.2.3".to_string());
    assert_eq!(key.key(), "1.2.3");
    let chunk = LoadableChunkKey::new("file-7".to_string());
    assert_eq!(chunk.chunk_key(), "file-7");

    let mut progress = SeriesSourceLoadResult::new(vec![
        LoadableChunkKey::new("a".to_string()),
        LoadableChunkKey::new("b".to_string()),
    ]);
    assert_eq!(progress.num_total(), 2);
    assert_eq!(progress.num_loaded(), 0);
    progress.add_loaded(LoadableChunkKey::new("a".to_string()));
    progress.add_failed(LoadableChunkKey::new("b".to_string()));
    assert_eq!(progress.num_loaded(), 1);
    assert_eq!(progress.num_failed(), 1);
    assert_eq!(progress.total().len(), 2);
}

#[test]
fn sixteen_bit_monochrome_decodes_to_signed_samples() {
    // Little-endian 16-bit signed samples: 0x0100 = 256, 0xFFFF = -1,
    // 0x7FFF = 32767, 0x8000 = -32768.
    let mut info = slice_at(10_000, [0, 0, 0, 0]);
    info.bits_alloc = BitsAlloc::Sixteen;
    info.pixel_rep = 1;
    info.pd_bytes = vec![0x00, 0x01, 0xFF, 0xFF, 0xFF, 0x7F, 0x00, 0x80];
    let (_, buf) = medicom::imgvol::decode_to_i16(info).unwrap();
    assert_eq!(buf, vec![256i16, -1, 32767, -32768]);
}

#[test]
fn patient_identifiers_update_even_on_a_rejected_slice() {
    let mut vol = ImageVolume::new();
    let mut first = slice_at(10_000, [1, 1, 1, 1]);
    first.patient_name = b"ONE".to_vec();
    vol.load_slice(first).unwrap();
    let mut dup = slice_at(10_000, [2, 2, 2, 2]);
    dup.patient_name = b"TWO".to_vec();
    assert!(vol.load_slice(dup).is_err());
    assert_eq!(vol.patient_name, b"TWO".to_vec());
    assert_eq!(vol.infos.len(), 1);
}
