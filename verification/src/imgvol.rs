//! Image volumes: slices of one series decoded to i16 and kept sorted
//! by their z position, under geometry that every slice must share.

use vstd::prelude::*;

use crate::bytes::{bytes_eq_vec, clone_bytes};
use crate::load::{IndexVec, MilliVec, VolAxis, VolDims, VolPixel, COORD_BOUND, EPSILON_MILLIS};
use crate::pdinfo::PixelDataSliceInfo;
use crate::pdslice::{
    spec_sample_bytes, spec_samples, spec_slice_rgb, PixelDataSliceI16, PixelDataSliceI32,
    PixelDataSliceU16, PixelDataSliceU32, PixelDataSliceU8,
};
use crate::pixeldata::{BitsAlloc, LoadError, PhotoInterp, SliceMismatch};
use crate::winlevel::WindowLevel;

verus! {

/// The k-th i16 sample `decode_to_i16` produces from a slice's
/// PixelData bytes, by bit depth and color interpretation.
pub open spec fn spec_decoded_i16(info: PixelDataSliceInfo, k: int) -> int {
    let b = info.pd_bytes@;
    let be = info.big_endian;
    let signed = info.pixel_rep != 0;
    if spec_slice_rgb(info) {
        match info.bits_alloc {
            BitsAlloc::Eight => b[k] as int,
            BitsAlloc::Sixteen => crate::pdslice::spec_rgb16_sample(b, k, be, signed),
            _ => crate::pdslice::spec_rgb32_sample(b, k, be, signed),
        }
    } else {
        match info.bits_alloc {
            BitsAlloc::Eight => b[k] as int,
            BitsAlloc::Sixteen => crate::pdslice::spec_mono16_sample(b, k, be, signed),
            _ => crate::pdslice::spec_mono32_sample(b, k, be, signed),
        }
    }
}

/// Decodes a slice straight to an i16 buffer, whatever its bit depth:
/// the volume's uniform sample type. Succeeds whenever validation
/// passes, the bytes cover every sample, and every sample fits in
/// i16; 8-bit monochrome samples always fit.
pub fn decode_to_i16(info: PixelDataSliceInfo) -> (r: Result<
    (PixelDataSliceInfo, Vec<i16>),
    LoadError,
>)
    ensures
        r is Ok ==> crate::pdinfo::spec_validate_err(info) is None,
        crate::pdinfo::spec_validate_err(info) is None && ((info.bits_alloc is Eight
            && spec_slice_rgb(info)) || ((info.bits_alloc is Eight || info.bits_alloc is Sixteen)
            && !spec_slice_rgb(info) && spec_samples(info) * spec_sample_bytes(info.bits_alloc)
            <= info.pd_bytes@.len())) ==> r is Ok,
        crate::pdinfo::spec_validate_err(info) matches Some(ve) ==> r == Result::<
            (PixelDataSliceInfo, Vec<i16>),
            LoadError,
        >::Err(ve),
        match r {
            Ok(p) => p.0.image_pos == info.image_pos && p.0.series_uid@ == info.series_uid@
                && (if info.bits_alloc is Eight && spec_slice_rgb(info) {
                    p.1@.len() == info.pd_bytes@.len()
                } else {
                    p.1@.len() == spec_samples(info)
                }) && (forall|k: int|
                0 <= k < p.1@.len() ==> #[trigger] p.1@[k] as int == spec_decoded_i16(info, k)),
            Err(err) => crate::pdinfo::spec_validate_err(info) == Some(err) || (
            crate::pdinfo::spec_validate_err(info) is None && ((err is InvalidPixelSource
                && spec_samples(info) * spec_sample_bytes(info.bits_alloc)
                > info.pd_bytes@.len()) || (err is PixelValueError && exists|k: int|
                0 <= k < spec_samples(info) && !(-0x8000 <= #[trigger] spec_decoded_i16(info, k)
                    <= 0x7FFF)))),
        },
{
    let mut this = info;
    match this.validate() {
        Ok(()) => (),
        Err(err) => {
            return Err(err);
        },
    }
    proof {
        assert(this.pd_bytes@ == info.pd_bytes@ && this.big_endian == info.big_endian
            && this.pixel_rep == info.pixel_rep && this.bits_alloc == info.bits_alloc
            && this.photo_interp == info.photo_interp && this.samples_per_pixel
            == info.samples_per_pixel);
        assert(spec_samples(this) == spec_samples(info));
        assert(spec_slice_rgb(this) == spec_slice_rgb(info));
        assert(forall|k: int| #[trigger] spec_decoded_i16(this, k) == spec_decoded_i16(info, k));
    }
    let rgb: bool = this.is_rgb();
    match (this.bits_alloc, rgb) {
        (BitsAlloc::Unsupported(val), _) => Err(LoadError::InvalidBitsAlloc(val)),
        (BitsAlloc::Eight, true) => Ok(PixelDataSliceU8::from_rgb_8bit(this).into_i16()),
        (BitsAlloc::Eight, false) => match PixelDataSliceI16::from_mono_8bit(this) {
            Ok(s) => Ok(s.into_buffer()),
            Err(e) => Err(e),
        },
        (BitsAlloc::Sixteen, true) => match PixelDataSliceU16::from_rgb_16bit(this) {
            Ok(s) => {
                let ghost sbuf = s.buffer@;
                let r = s.into_i16();
                proof {
                    if r is Err {
                        let k0 = choose|k: int|
                            0 <= k < sbuf.len() && #[trigger] sbuf[k] > 0x7FFF;
                        assert(!(-0x8000 <= spec_decoded_i16(info, k0) <= 0x7FFF));
                        assert(0 <= k0 < spec_samples(info));
                    }
                }
                r
            },
            Err(e) => Err(e),
        },
        (BitsAlloc::Sixteen, false) => match PixelDataSliceI16::from_mono_16bit(this) {
            Ok(s) => Ok(s.into_buffer()),
            Err(e) => Err(e),
        },
        (BitsAlloc::ThirtyTwo, true) => match PixelDataSliceU32::from_rgb_32bit(this) {
            Ok(s) => {
                let ghost sbuf = s.buffer@;
                let r = s.into_i16();
                proof {
                    if r is Err {
                        let k0 = choose|k: int|
                            0 <= k < sbuf.len() && #[trigger] sbuf[k] > 0x7FFF;
                        assert(!(-0x8000 <= spec_decoded_i16(info, k0) <= 0x7FFF));
                        assert(0 <= k0 < spec_samples(info));
                    }
                }
                r
            },
            Err(e) => Err(e),
        },
        (BitsAlloc::ThirtyTwo, false) => match PixelDataSliceI32::from_mono_32bit(this) {
            Ok(s) => {
                let ghost sbuf = s.buffer@;
                let r = s.into_i16();
                proof {
                    if r is Err {
                        let k0 = choose|k: int|
                            0 <= k < sbuf.len() && !(-0x8000 <= #[trigger] sbuf[k] <= 0x7FFF);
                        assert(!(-0x8000 <= spec_decoded_i16(info, k0) <= 0x7FFF));
                        assert(0 <= k0 < spec_samples(info));
                    }
                }
                r
            },
            Err(e) => Err(e),
        },
    }
}


/// The z spacing one slice implies: Spacing Between Slices when
/// valid, else Slice Thickness, else zero.
pub open spec fn spec_z_mm(p: PixelDataSliceInfo) -> i64 {
    if p.spacing_between_slices > 0 {
        p.spacing_between_slices
    } else if p.slice_thickness > 0 {
        p.slice_thickness
    } else {
        0
    }
}

/// Whether a slice's quantities fall outside the ranges the volume's
/// arithmetic needs: loading rejects such a slice as invalid
/// dimensions before anything else.
pub open spec fn spec_load_bounds_reject(p: PixelDataSliceInfo) -> bool {
    ||| !(-COORD_BOUND <= p.pixel_spacing_x <= COORD_BOUND)
    ||| !(-COORD_BOUND <= p.pixel_spacing_y <= COORD_BOUND)
    ||| !(-COORD_BOUND <= spec_z_mm(p) <= COORD_BOUND)
    ||| !(-COORD_BOUND <= p.image_pos.x <= COORD_BOUND)
    ||| !(-COORD_BOUND <= p.image_pos.y <= COORD_BOUND)
    ||| !(-COORD_BOUND <= p.image_pos.z <= COORD_BOUND)
    ||| (p.planar_config != 0 && p.samples_per_pixel == 0)
    ||| !(-COORD_BOUND <= spec_slope_or_unit(p) <= COORD_BOUND)
    ||| !(-COORD_BOUND <= spec_intercept_or_zero(p) <= COORD_BOUND)
}

/// The slice's rescale slope in thousandths, one when unstated.
pub open spec fn spec_slope_or_unit(p: PixelDataSliceInfo) -> i64 {
    match p.slope {
        Some(v) => v,
        None => 1000,
    }
}

/// The slice's rescale intercept in thousandths, zero when unstated.
pub open spec fn spec_intercept_or_zero(p: PixelDataSliceInfo) -> i64 {
    match p.intercept {
        Some(v) => v,
        None => 0,
    }
}

/// The slice's sample stride: adjacent samples for interleaved
/// pixels, a plane's worth otherwise.
pub open spec fn spec_slice_stride(p: PixelDataSliceInfo) -> int {
    if p.planar_config == 0 {
        1int
    } else {
        p.pd_bytes@.len() as int / p.samples_per_pixel as int
    }
}

/// The slice's padding sentinel as an i16, when it fits.
pub open spec fn spec_pad_i16(p: PixelDataSliceInfo) -> Option<i16> {
    match p.pixel_pad {
        Some(v) => if v <= 0x7FFF {
            Some(v as i16)
        } else {
            None
        },
        None => None,
    }
}

/// Which shared quantity a slice disagrees with, checked in loading
/// order; `None` when the slice agrees with the volume (or the volume
/// is still empty).
pub open spec fn spec_load_mismatch(vol: ImageVolume, p: PixelDataSliceInfo) -> Option<
    SliceMismatch,
> {
    if vol.infos@.len() == 0 {
        None
    } else if p.series_uid@ != vol.series_uid@ {
        Some(SliceMismatch::SeriesUid)
    } else if !(vol.dims.counts.x == p.cols as int && vol.dims.counts.y == p.rows as int
        && crate::load::spec_dim_close(vol.dims.voxel_dims.x, p.pixel_spacing_x)
        && crate::load::spec_dim_close(vol.dims.voxel_dims.y, p.pixel_spacing_y)
        && crate::load::spec_dim_close(vol.dims.voxel_dims.z, spec_z_mm(p))) {
        Some(SliceMismatch::Dims)
    } else if spec_slice_stride(p) != vol.stride as int {
        Some(SliceMismatch::Stride)
    } else if spec_slice_rgb(p) != vol.is_rgb {
        Some(SliceMismatch::Rgb)
    } else if spec_pad_i16(p) != vol.pixel_pad {
        Some(SliceMismatch::PixelPad)
    } else if !(-EPSILON_MILLIS <= spec_slope_or_unit(p) - vol.slope <= EPSILON_MILLIS) {
        Some(SliceMismatch::Slope)
    } else if !(-EPSILON_MILLIS <= spec_intercept_or_zero(p) - vol.intercept <= EPSILON_MILLIS) {
        Some(SliceMismatch::Intercept)
    } else if p.samples_per_pixel as int != vol.samples_per_pixel as int {
        Some(SliceMismatch::SamplesPerPixel)
    } else {
        None
    }
}

/// One slice landed at `idx`: the descriptions and buffers are the old
/// lists with the new entries inserted there, the description carries
/// the slice's position, and the extrema widened by the clamped new
/// extrema.
pub open spec fn spec_inserted_at(
    pre: ImageVolume,
    post: ImageVolume,
    p: PixelDataSliceInfo,
    idx: int,
) -> bool {
    &&& post.infos@ == pre.infos@.insert(idx, post.infos@[idx])
    &&& post.slices@ == pre.slices@.insert(idx, post.slices@[idx])
    &&& post.infos@[idx].image_pos == p.image_pos
    &&& post.infos@[idx].series_uid@ == p.series_uid@
    &&& post.slices@[idx]@.len() == (if p.bits_alloc is Eight && spec_slice_rgb(p) {
        p.pd_bytes@.len() as int
    } else {
        spec_samples(p)
    })
    &&& forall|k: int|
        0 <= k < post.slices@[idx]@.len() ==> #[trigger] post.slices@[idx]@[k] as int
            == spec_decoded_i16(p, k)
    &&& post.min_val as int == (if spec_clamp_i16(post.infos@[idx].min_val) < pre.min_val {
        spec_clamp_i16(post.infos@[idx].min_val)
    } else {
        pre.min_val as int
    })
    &&& post.max_val as int == (if spec_clamp_i16(post.infos@[idx].max_val) > pre.max_val {
        spec_clamp_i16(post.infos@[idx].max_val)
    } else {
        pre.max_val as int
    })
}

/// The channel values the volume holds at a coordinate, in
/// thousandths: `None` exactly when the coordinate is outside the
/// loaded slices, past the buffer, or (for RGB) without room for all
/// three samples.
pub open spec fn spec_pixel_at(vol: ImageVolume, coord: IndexVec) -> Option<(int, int, int)> {
    if coord.z >= vol.slices@.len() {
        None
    } else {
        let buf = vol.slices@[coord.z as int]@;
        let pc = (coord.x + coord.y * vol.dims.counts.x) * vol.samples_per_pixel;
        if pc >= buf.len() {
            None
        } else if vol.is_rgb {
            if pc + 2 * vol.stride >= buf.len() {
                None
            } else {
                Some(
                    (buf[pc as int] * 1000, buf[pc + vol.stride] * 1000, buf[pc + 2 * vol.stride]
                        * 1000),
                )
            }
        } else {
            let v = buf[pc as int] * vol.slope + vol.intercept;
            Some((v, v, v))
        }
    }
}

/// Half a difference, truncated toward zero as the raw window
/// arithmetic truncates.
pub open spec fn spec_half_trunc(d: int) -> int {
    if d >= 0 {
        d / 2
    } else {
        -((-d) / 2)
    }
}

/// A wider value clamped into the i16 range.
pub open spec fn spec_clamp_i16(v: i64) -> int {
    if v < -0x8000 {
        -0x8000
    } else if v > 0x7FFF {
        0x7FFF
    } else {
        v as int
    }
}

/// Slices of one series loaded into memory, with i16 samples.
pub struct ImageVolume {
    pub slices: Vec<Vec<i16>>,
    pub infos: Vec<PixelDataSliceInfo>,
    pub patient_name: Vec<u8>,
    pub patient_id: Vec<u8>,
    pub series_uid: Vec<u8>,
    pub series_desc: Vec<u8>,
    pub dims: VolDims,
    pub stride: usize,
    pub is_rgb: bool,
    pub pixel_pad: Option<i16>,
    /// Rescale slope in thousandths; one when the slices named none.
    pub slope: i64,
    /// Rescale intercept in thousandths.
    pub intercept: i64,
    pub samples_per_pixel: usize,
    pub photo_interp: PhotoInterp,
    pub min_val: i16,
    pub max_val: i16,
}

impl ImageVolume {
    /// The volume's structural invariant: one buffer per slice
    /// description, slices strictly ordered by their z position, and
    /// the shared quantities within the ranges arithmetic needs.
    pub open spec fn wf(self) -> bool {
        &&& self.slices@.len() == self.infos@.len()
        &&& forall|i: int, j: int|
            0 <= i < j < self.infos@.len() ==> (#[trigger] self.infos@[i]).image_pos.z < (
            #[trigger] self.infos@[j]).image_pos.z
        &&& -COORD_BOUND <= self.slope <= COORD_BOUND
        &&& -COORD_BOUND <= self.intercept <= COORD_BOUND
        &&& -COORD_BOUND <= self.dims.voxel_dims.x <= COORD_BOUND
        &&& -COORD_BOUND <= self.dims.voxel_dims.y <= COORD_BOUND
        &&& -COORD_BOUND <= self.dims.voxel_dims.z <= COORD_BOUND
        &&& -COORD_BOUND <= self.dims.origin.x <= COORD_BOUND
        &&& -COORD_BOUND <= self.dims.origin.y <= COORD_BOUND
        &&& -COORD_BOUND <= self.dims.origin.z <= COORD_BOUND
        &&& forall|i: int|
            0 <= i < self.infos@.len() ==> {
                let ip = (#[trigger] self.infos@[i]).image_pos;
                -COORD_BOUND <= ip.x <= COORD_BOUND && -COORD_BOUND <= ip.y <= COORD_BOUND
                    && -COORD_BOUND <= ip.z <= COORD_BOUND
            }
    }

    /// An empty volume: no slices, unit slope, zero intercept, the
    /// extrema at their empty-fold values.
    pub fn new() -> (r: ImageVolume)
        ensures
            r.wf(),
            r.slices@.len() == 0,
            r.infos@.len() == 0,
            r.slope == 1000,
            r.intercept == 0,
            r.min_val == 0x7FFF,
            r.max_val == -0x8000,
    {
        ImageVolume {
            slices: Vec::new(),
            infos: Vec::new(),
            patient_name: Vec::new(),
            patient_id: Vec::new(),
            series_uid: Vec::new(),
            series_desc: Vec::new(),
            dims: VolDims::new(
                MilliVec { x: 0, y: 0, z: 0 },
                IndexVec { x: 0, y: 0, z: 0 },
                MilliVec { x: 0, y: 0, z: 0 },
            ),
            stride: 0,
            is_rgb: false,
            pixel_pad: None,
            slope: 1000,
            intercept: 0,
            samples_per_pixel: 0,
            photo_interp: PhotoInterp::Unsupported,
            min_val: 0x7FFF,
            max_val: -0x8000,
        }
    }

    /// Applies the volume's rescale to a raw sample value: the result
    /// in thousandths.
    pub fn rescale_millis(&self, val: i16) -> (r: i64)
        requires
            -COORD_BOUND <= self.slope <= COORD_BOUND,
            -COORD_BOUND <= self.intercept <= COORD_BOUND,
        ensures
            r == val * self.slope + self.intercept,
    {
        proof {
            assert(-0x8000 * COORD_BOUND <= (val as int) * self.slope <= 0x8000 * COORD_BOUND)
                by (nonlinear_arith)
                requires
                    -0x8000 <= val <= 0x7FFF,
                    -COORD_BOUND <= self.slope <= COORD_BOUND,
            ;
        }
        (val as i64) * self.slope + self.intercept
    }

    /// Loads one decoded slice description into this volume: the first
    /// slice fixes the shared geometry, every later one must agree with
    /// it, and the slice is placed so z positions stay ordered. Two
    /// slices at one z position cannot coexist. A rejected slice leaves
    /// the volume's slices untouched, though patient identifiers are
    /// taken from every slice, and a slice rejected only at placement
    /// (for sharing a z position, or overflowing the slice count) has
    /// already widened the recorded extrema.
    #[verifier::rlimit(100)]
    #[verifier::spinoff_prover]
    pub fn load_slice(&mut self, pdinfo: PixelDataSliceInfo) -> (r: Result<(), LoadError>)
        requires
            old(self).wf(),
        ensures
            final(self).wf(),
            pdinfo.patient_name@.len() > 0 ==> final(self).patient_name@
                == pdinfo.patient_name@,
            pdinfo.patient_name@.len() == 0 ==> final(self).patient_name@
                == old(self).patient_name@,
            pdinfo.patient_id@.len() > 0 ==> final(self).patient_id@ == pdinfo.patient_id@,
            pdinfo.patient_id@.len() == 0 ==> final(self).patient_id@ == old(self).patient_id@,
            old(self).infos@.len() > 0 ==> final(self).series_desc@ == old(self).series_desc@,
            old(self).infos@.len() == 0 && !spec_load_bounds_reject(pdinfo)
                ==> final(self).series_desc@ == pdinfo.series_desc@,
            old(self).infos@.len() == 0 && spec_load_bounds_reject(pdinfo)
                ==> final(self).series_desc@ == old(self).series_desc@,
            r is Ok ==> final(self).series_uid@ == (if old(self).infos@.len() == 0 {
                pdinfo.series_uid@
            } else {
                old(self).series_uid@
            }),
            final(self).min_val <= old(self).min_val && final(self).max_val >= old(self).max_val,
            spec_load_bounds_reject(pdinfo) || spec_load_mismatch(*old(self), pdinfo) is Some
                || crate::pdinfo::spec_validate_err(pdinfo) is Some
                ==> final(self).min_val == old(self).min_val
                && final(self).max_val == old(self).max_val,
            r matches Err(e) && (e is InvalidPixelSource || e is PixelValueError)
                ==> final(self).min_val == old(self).min_val
                && final(self).max_val == old(self).max_val,
            spec_load_bounds_reject(pdinfo) ==> r == Result::<(), LoadError>::Err(
                LoadError::InvalidDims,
            ),
            !spec_load_bounds_reject(pdinfo) ==> match spec_load_mismatch(*old(self), pdinfo) {
                Some(m) => r matches Err(LoadError::InconsistentSliceFormat(u, mm)) && mm == m
                    && u@ == pdinfo.sop_uid@,
                None => {
                    &&& (crate::pdinfo::spec_validate_err(pdinfo) matches Some(ve) ==> r
                        == Result::<(), LoadError>::Err(ve))
                    &&& (r matches Err(e) ==> {
                        ||| crate::pdinfo::spec_validate_err(pdinfo) == Some(e)
                        ||| (e is InvalidPixelSource && spec_samples(pdinfo) * spec_sample_bytes(
                            pdinfo.bits_alloc,
                        ) > pdinfo.pd_bytes@.len())
                        ||| (e is PixelValueError && !(pdinfo.bits_alloc is Eight
                            && !spec_slice_rgb(pdinfo)))
                        ||| (e matches LoadError::InconsistentSliceFormat(u, m) && m
                            == SliceMismatch::SameZPos && u@ == pdinfo.sop_uid@ && exists|i: int|
                            0 <= i < old(self).infos@.len() && (#[trigger] old(
                                self,
                            ).infos@[i]).image_pos.z == pdinfo.image_pos.z)
                        ||| (e is InvalidDims && old(self).dims.counts.z == usize::MAX)
                    })
                },
            },
            match r {
                Ok(()) => {
                    &&& exists|idx: int|
                        0 <= idx <= old(self).infos@.len() && #[trigger] spec_inserted_at(
                            *old(self),
                            *final(self),
                            pdinfo,
                            idx,
                        )
                    &&& final(self).dims.origin == final(self).infos@[0].image_pos
                    &&& (old(self).infos@.len() > 0 ==> final(self).dims.counts.z == old(
                        self,
                    ).dims.counts.z + 1)
                    &&& (old(self).infos@.len() == 0 ==> final(self).dims.counts.x
                        == pdinfo.cols as int && final(self).dims.counts.y == pdinfo.rows as int
                        && final(self).dims.counts.z == 1)
                },
                Err(_) => final(self).infos@ == old(self).infos@
                    && final(self).slices@ == old(self).slices@,
            },
    {
        if pdinfo.patient_name.len() > 0 {
            self.patient_name = clone_bytes(&pdinfo.patient_name);
        }
        if pdinfo.patient_id.len() > 0 {
            self.patient_id = clone_bytes(&pdinfo.patient_id);
        }
        let dims: VolDims = pdinfo.vol_dims();
        let vd: MilliVec = dims.voxel_dims();
        if vd.x < -COORD_BOUND || vd.x > COORD_BOUND || vd.y < -COORD_BOUND || vd.y > COORD_BOUND
            || vd.z < -COORD_BOUND || vd.z > COORD_BOUND {
            return Err(LoadError::InvalidDims);
        }
        if pdinfo.image_pos.x < -COORD_BOUND || pdinfo.image_pos.x > COORD_BOUND
            || pdinfo.image_pos.y < -COORD_BOUND || pdinfo.image_pos.y > COORD_BOUND
            || pdinfo.image_pos.z < -COORD_BOUND || pdinfo.image_pos.z > COORD_BOUND {
            return Err(LoadError::InvalidDims);
        }
        if pdinfo.planar_config != 0 && pdinfo.samples_per_pixel == 0 {
            return Err(LoadError::InvalidDims);
        }
        let stride: usize = pdinfo.stride();
        let is_rgb: bool = pdinfo.is_rgb();
        let pixel_pad: Option<i16> = match pdinfo.pixel_pad {
            Some(p) => {
                if p <= 0x7FFF {
                    Some(p as i16)
                } else {
                    None
                }
            },
            None => None,
        };
        let slope: i64 = match pdinfo.slope {
            Some(s) => s,
            None => 1000,
        };
        let intercept: i64 = match pdinfo.intercept {
            Some(s) => s,
            None => 0,
        };
        if slope < -COORD_BOUND || slope > COORD_BOUND || intercept < -COORD_BOUND || intercept
            > COORD_BOUND {
            return Err(LoadError::InvalidDims);
        }
        let samples: usize = pdinfo.samples_per_pixel as usize;
        let sop_uid: Vec<u8> = clone_bytes(&pdinfo.sop_uid);

        if self.infos.len() == 0 {
            self.series_uid = clone_bytes(&pdinfo.series_uid);
            self.series_desc = clone_bytes(&pdinfo.series_desc);
            self.dims = dims;
            self.stride = stride;
            self.is_rgb = is_rgb;
            self.pixel_pad = pixel_pad;
            self.slope = slope;
            self.intercept = intercept;
            self.samples_per_pixel = samples;
            self.photo_interp = match pdinfo.photo_interp {
                Some(pi) => pi,
                None => PhotoInterp::Unsupported,
            };
        } else {
            if !bytes_eq_vec(&pdinfo.series_uid, &self.series_uid) {
                return Err(
                    LoadError::InconsistentSliceFormat(sop_uid, SliceMismatch::SeriesUid),
                );
            }
            if !self.dims.matches(&dims) {
                return Err(LoadError::InconsistentSliceFormat(sop_uid, SliceMismatch::Dims));
            }
            if stride != self.stride {
                return Err(LoadError::InconsistentSliceFormat(sop_uid, SliceMismatch::Stride));
            }
            if is_rgb != self.is_rgb {
                return Err(LoadError::InconsistentSliceFormat(sop_uid, SliceMismatch::Rgb));
            }
            let pad_same: bool = match (pixel_pad, self.pixel_pad) {
                (Some(a), Some(b)) => a == b,
                (None, None) => true,
                _ => false,
            };
            if !pad_same {
                return Err(
                    LoadError::InconsistentSliceFormat(sop_uid, SliceMismatch::PixelPad),
                );
            }
            let ds: i64 = slope - self.slope;
            if ds > EPSILON_MILLIS || ds < -EPSILON_MILLIS {
                return Err(LoadError::InconsistentSliceFormat(sop_uid, SliceMismatch::Slope));
            }
            let di: i64 = intercept - self.intercept;
            if di > EPSILON_MILLIS || di < -EPSILON_MILLIS {
                return Err(
                    LoadError::InconsistentSliceFormat(sop_uid, SliceMismatch::Intercept),
                );
            }
            if samples != self.samples_per_pixel {
                return Err(
                    LoadError::InconsistentSliceFormat(sop_uid, SliceMismatch::SamplesPerPixel),
                );
            }
        }

        let z: i64 = pdinfo.image_pos.z;
        let (loaded_info, buffer): (PixelDataSliceInfo, Vec<i16>) = match decode_to_i16(pdinfo) {
            Ok(pair) => pair,
            Err(err) => {
                return Err(err);
            },
        };

        // The slice's extrema widen the volume's.
        let smin: i16 = clamp_i16(loaded_info.min_val);
        let smax: i16 = clamp_i16(loaded_info.max_val);
        if smin < self.min_val {
            self.min_val = smin;
        }
        if smax > self.max_val {
            self.max_val = smax;
        }

        // Insertion keeps z positions strictly increasing; a slice at
        // an existing z position is rejected.
        let n: usize = self.infos.len();
        let mut idx: usize = 0;
        while idx < n && self.infos[idx].image_pos.z < z
            invariant
                0 <= idx <= n,
                n == self.infos@.len(),
                forall|i: int| 0 <= i < idx ==> (#[trigger] self.infos@[i]).image_pos.z < z,
            decreases n - idx,
        {
            idx += 1;
        }
        if idx < n && self.infos[idx].image_pos.z == z {
            return Err(LoadError::InconsistentSliceFormat(sop_uid, SliceMismatch::SameZPos));
        }
        assert(idx < n ==> self.infos@[idx as int].image_pos.z > z);
        if n > 0 {
            if self.dims.counts().z == usize::MAX {
                return Err(LoadError::InvalidDims);
            }
            self.dims.inc_z_count();
        }
        let ghost pre = self.infos@;
        self.infos.insert(idx, loaded_info);
        self.slices.insert(idx, buffer);
        proof {
            assert(self.infos@ == pre.insert(idx as int, loaded_info));
            assert(forall|k: int| 0 <= k < idx ==> #[trigger] self.infos@[k] == pre[k]);
            assert(self.infos@[idx as int] == loaded_info);
            assert(forall|k: int|
                idx < k < self.infos@.len() ==> #[trigger] self.infos@[k] == pre[k - 1]);
            assert forall|i: int, j: int|
                0 <= i < j < self.infos@.len() implies (#[trigger] self.infos@[i]).image_pos.z < (
            #[trigger] self.infos@[j]).image_pos.z by {
                if i < idx && j > idx {
                    assert(pre[i].image_pos.z < z);
                    if idx < pre.len() {
                        assert(pre[idx as int].image_pos.z > z);
                    }
                    assert(pre[j - 1].image_pos.z >= pre[idx as int].image_pos.z);
                }
            }
        }
        // The lowest slice's position is the volume's origin.
        let first_pos: MilliVec = self.infos[0].image_pos;
        self.dims.set_origin(
            MilliVec { x: first_pos.x, y: first_pos.y, z: first_pos.z },
        );
        proof {
            assert(spec_inserted_at(*old(self), *self, pdinfo, idx as int));
        }
        Ok(())
    }
}

/// Clamps a wider value into the i16 range.
pub fn clamp_i16(v: i64) -> (r: i16)
    ensures
        r == (if v < -0x8000 {
            (-0x8000) as i64
        } else if v > 0x7FFF {
            0x7FFF as i64
        } else {
            v
        }),
{
    if v < -0x8000 {
        -0x8000
    } else if v > 0x7FFF {
        0x7FFF
    } else {
        v as i16
    }
}


impl ImageVolume {
    /// The volume's dimensions oriented to the given axis, as (width,
    /// height, depth).
    pub fn axis_dims(&self, axis: &VolAxis) -> (r: IndexVec)
        ensures
            axis is X ==> r == (IndexVec {
                x: self.dims.counts.y,
                y: self.dims.counts.z,
                z: self.dims.counts.x,
            }),
            axis is Y ==> r == (IndexVec {
                x: self.dims.counts.x,
                y: self.dims.counts.z,
                z: self.dims.counts.y,
            }),
            axis is Z ==> r == (IndexVec {
                x: self.dims.counts.x,
                y: self.dims.counts.y,
                z: self.dims.counts.z,
            }),
    {
        let counts: IndexVec = self.dims.counts();
        match axis {
            VolAxis::X => IndexVec { x: counts.y, y: counts.z, z: counts.x },
            VolAxis::Y => IndexVec { x: counts.x, y: counts.z, z: counts.y },
            VolAxis::Z => IndexVec { x: counts.x, y: counts.y, z: counts.z },
        }
    }

    /// A window/level over the values this volume actually holds: the
    /// recorded extrema give a raw center and width, each carried
    /// through the full rescale (slope and intercept), over the full
    /// output range, with no name.
    pub fn minmax_winlevel(&self) -> (r: WindowLevel)
        requires
            self.wf(),
        ensures
            r.center == (self.min_val + spec_half_trunc(self.max_val - self.min_val))
                * self.slope + self.intercept,
            r.width == (self.max_val - self.min_val) * self.slope + self.intercept,
            r.out_min == -crate::winlevel::WL_BOUND,
            r.out_max == crate::winlevel::WL_BOUND,
            r.name@.len() == 0,
    {
        let d: i32 = (self.max_val as i32) - (self.min_val as i32);
        let half: i32 = if d >= 0 {
            d / 2
        } else {
            -((-d) / 2)
        };
        let c_raw: i64 = (self.min_val as i64) + (half as i64);
        proof {
            assert(-0x1_8000 * COORD_BOUND <= c_raw * self.slope <= 0x1_8000 * COORD_BOUND)
                by (nonlinear_arith)
                requires
                    -0x1_8000 <= c_raw <= 0x1_8000,
                    -COORD_BOUND <= self.slope <= COORD_BOUND,
            ;
            assert(-0x1_0000 * COORD_BOUND <= (self.max_val - self.min_val) * self.slope
                <= 0x1_0000 * COORD_BOUND) by (nonlinear_arith)
                requires
                    -0x1_0000 <= self.max_val - self.min_val <= 0x1_0000,
                    -COORD_BOUND <= self.slope <= COORD_BOUND,
            ;
        }
        let center: i64 = c_raw * self.slope + self.intercept;
        let width: i64 = ((self.max_val as i64) - (self.min_val as i64)) * self.slope
            + self.intercept;
        WindowLevel {
            name: Vec::new(),
            center,
            width,
            out_min: -crate::winlevel::WL_BOUND,
            out_max: crate::winlevel::WL_BOUND,
        }
    }

    /// The pixel at a coordinate in the native (z-axis) orientation:
    /// RGB volumes read three samples a stride apart, monochrome ones
    /// read and rescale a single sample into all three channels, all in
    /// thousandths. Exactly the coordinates `spec_pixel_at` maps
    /// succeed.
    pub fn get_pixel(&self, coord: IndexVec) -> (r: Result<VolPixel, LoadError>)
        requires
            self.wf(),
        ensures
            match spec_pixel_at(*self, coord) {
                Some(t) => r matches Ok(p) && p.coord == coord && p.r == t.0 && p.g == t.1 && p.b
                    == t.2,
                None => r is Err,
            },
            coord.z >= self.slices@.len() ==> r == Result::<VolPixel, LoadError>::Err(
                LoadError::InvalidDims,
            ),
            coord.z < self.slices@.len() && r is Err ==> (r matches Err(e)
                && e is InvalidPixelSource),
    {
        if coord.z >= self.slices.len() {
            return Err(LoadError::InvalidDims);
        }
        let buffer: &Vec<i16> = &self.slices[coord.z];
        let blen: usize = buffer.len();
        let cols: usize = self.dims.counts().x;
        let ghost pci = (coord.x + coord.y * self.dims.counts.x) * self.samples_per_pixel;
        let pc: usize;
        if self.samples_per_pixel == 0 {
            assert(pci == 0) by (nonlinear_arith)
                requires
                    pci == (coord.x + coord.y * self.dims.counts.x) * self.samples_per_pixel,
                    self.samples_per_pixel == 0,
            ;
            pc = 0;
        } else {
        let yc: usize = match coord.y.checked_mul(cols) {
            Some(v) => v,
            None => {
                proof {
                    assert(pci >= coord.y * self.dims.counts.x) by (nonlinear_arith)
                        requires
                            pci == (coord.x + coord.y * self.dims.counts.x)
                                * self.samples_per_pixel,
                            self.samples_per_pixel >= 1,
                            coord.x >= 0,
                            coord.y * self.dims.counts.x >= 0,
                    ;
                }
                return Err(LoadError::InvalidPixelSource(blen));
            },
        };
        let px: usize = match coord.x.checked_add(yc) {
            Some(v) => v,
            None => {
                proof {
                    assert(pci >= coord.x + coord.y * self.dims.counts.x) by (nonlinear_arith)
                        requires
                            pci == (coord.x + coord.y * self.dims.counts.x)
                                * self.samples_per_pixel,
                            self.samples_per_pixel >= 1,
                            coord.x + coord.y * self.dims.counts.x >= 0,
                    ;
                }
                return Err(LoadError::InvalidPixelSource(blen));
            },
        };
        pc = match px.checked_mul(self.samples_per_pixel) {
            Some(v) => v,
            None => {
                return Err(LoadError::InvalidPixelSource(blen));
            },
        };
        }
        if pc >= blen {
            return Err(LoadError::InvalidPixelSource(blen));
        }
        if self.is_rgb {
            if self.stride > blen || pc >= blen - self.stride || self.stride > blen - self.stride
                || pc >= blen - self.stride - self.stride {
                assert(pc + 2 * self.stride >= blen);
                return Err(LoadError::InvalidPixelSource(pc));
            }
            assert(pc + 2 * self.stride < blen);
            let red: i16 = buffer[pc];
            let green: i16 = buffer[pc + self.stride];
            let blue: i16 = buffer[pc + self.stride + self.stride];
            assert(pc + self.stride + self.stride == pc + 2 * self.stride);
            Ok(
                VolPixel {
                    coord,
                    r: (red as i64) * 1000,
                    g: (green as i64) * 1000,
                    b: (blue as i64) * 1000,
                },
            )
        } else {
            let val: i64 = self.rescale_millis(buffer[pc]);
            Ok(VolPixel { coord, r: val, g: val, b: val })
        }
    }
}

/// An iterator over one oriented plane of a volume, in row-major order
/// of the plane: left to right, then top to bottom.
pub struct ImageVolumeAxisSliceIter<'a> {
    pub vol: &'a ImageVolume,
    pub axis: VolAxis,
    pub axis_index: usize,
    pub pixel_count: usize,
}

/// The volume coordinate of the `index`-th pixel of the oriented plane
/// at `axis_index`, or `None` once the plane is exhausted.
pub open spec fn spec_plane_coord(
    counts: IndexVec,
    axis: VolAxis,
    axis_index: usize,
    index: usize,
) -> Option<IndexVec> {
    let cols = (match axis {
        VolAxis::X => counts.y,
        VolAxis::Y => counts.x,
        VolAxis::Z => counts.x,
    }) as int;
    let rows = (match axis {
        VolAxis::X => counts.z,
        VolAxis::Y => counts.z,
        VolAxis::Z => counts.y,
    }) as int;
    if cols <= 0 || index >= rows * cols {
        None
    } else {
        let a = (index as int) % cols;
        let b = ((index as int) / cols) % rows;
        match axis {
            VolAxis::X => Some(IndexVec { x: axis_index, y: a as usize, z: b as usize }),
            VolAxis::Y => Some(IndexVec { x: a as usize, y: axis_index, z: b as usize }),
            VolAxis::Z => Some(IndexVec { x: a as usize, y: b as usize, z: axis_index }),
        }
    }
}

impl ImageVolume {
    /// Starts an iterator over the oriented plane at `axis_index`.
    pub fn slice_iter<'a>(&'a self, axis: &VolAxis, axis_index: usize) -> (r:
        ImageVolumeAxisSliceIter<'a>)
        ensures
            r.vol == self,
            r.axis == *axis,
            r.axis_index == axis_index,
            r.pixel_count == 0,
    {
        ImageVolumeAxisSliceIter { vol: self, axis: *axis, axis_index, pixel_count: 0 }
    }
}

impl<'a> ImageVolumeAxisSliceIter<'a> {
    /// The volume coordinate the `index`-th pixel of this plane names.
    pub fn compute_coord(&self, index: usize) -> (r: Option<IndexVec>)
        ensures
            r == spec_plane_coord(self.vol.dims.counts, self.axis, self.axis_index, index),
    {
        let counts: IndexVec = self.vol.dims.counts();
        let (cols, rows): (usize, usize) = match self.axis {
            VolAxis::X => (counts.y, counts.z),
            VolAxis::Y => (counts.x, counts.z),
            VolAxis::Z => (counts.x, counts.y),
        };
        if cols == 0 {
            return None;
        }
        match rows.checked_mul(cols) {
            Some(limit) => {
                if index >= limit {
                    return None;
                }
            },
            None => {
                // The plane is larger than any index can reach.
            },
        }
        let a: usize = index % cols;
        let b: usize = (index / cols) % rows;
        match self.axis {
            VolAxis::X => Some(IndexVec { x: self.axis_index, y: a, z: b }),
            VolAxis::Y => Some(IndexVec { x: a, y: self.axis_index, z: b }),
            VolAxis::Z => Some(IndexVec { x: a, y: b, z: self.axis_index }),
        }
    }

    /// The next pixel of the plane, or `None` once it is exhausted or a
    /// coordinate falls outside the loaded slices.
    pub fn next(&mut self) -> (r: Option<VolPixel>)
        requires
            old(self).vol.wf(),
        ensures
            final(self).vol == old(self).vol,
            final(self).axis == old(self).axis,
            final(self).axis_index == old(self).axis_index,
            match spec_plane_coord(
                old(self).vol.dims.counts,
                old(self).axis,
                old(self).axis_index,
                old(self).pixel_count,
            ) {
                None => r is None && final(self).pixel_count == old(self).pixel_count,
                Some(c) => (old(self).pixel_count < usize::MAX ==> final(self).pixel_count == old(
                    self,
                ).pixel_count + 1) && match spec_pixel_at(*old(self).vol, c) {
                    Some(t) => r matches Some(p) && p.coord == c && p.r == t.0 && p.g == t.1
                        && p.b == t.2,
                    None => r is None,
                },
            },
    {
        let coord: IndexVec = match self.compute_coord(self.pixel_count) {
            Some(c) => c,
            None => {
                return None;
            },
        };
        if self.pixel_count < usize::MAX {
            self.pixel_count = self.pixel_count + 1;
        }
        match self.vol.get_pixel(coord) {
            Ok(p) => Some(p),
            Err(_) => None,
        }
    }
}

/// Within a volume, each slice sits no higher than the next: the z
/// positions are ordered along the stack.
pub proof fn lemma_volume_z_sorted(vol: ImageVolume)
    requires
        vol.wf(),
    ensures
        forall|i: int|
            0 <= i < vol.infos@.len() - 1 ==> (#[trigger] vol.infos@[i]).image_pos.z <= vol.infos@[
                i + 1].image_pos.z,
{
}

} // verus!
