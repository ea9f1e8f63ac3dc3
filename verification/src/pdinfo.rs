//! The per-slice pixel-data description: every attribute needed to
//! interpret the PixelData bytes, gathered from the element stream, and
//! the validation that must pass before decoding.

use vstd::prelude::*;

use crate::bytes::{clone_bytes, u16_at};
use crate::element::{spec_trimmed_len, trim_trailing, DicomElement};
use crate::load::{IndexVec, MilliVec, VolDims};
use crate::pixeldata::{
    spec_bits_alloc_from, spec_bits_alloc_val, spec_photo_interp, BitsAlloc, LoadError, PhotoInterp,
};
use crate::tags;
use crate::values::{
    parse_ds_list, spec_ds_list, spec_ds_millis, spec_elem_first_token, spec_int_value,
};
use crate::vr::Vr;
use crate::winlevel::{WindowLevel, WL_BOUND};

verus! {

/// Everything needed to interpret one SOP's PixelData, with the raw
/// PixelData bytes moved out of the element stream. Distances and
/// rescale quantities are fixed-point thousandths.
pub struct PixelDataSliceInfo {
    pub big_endian: bool,
    pub vr: Vr,
    pub slice_thickness: i64,
    pub spacing_between_slices: i64,
    pub samples_per_pixel: u16,
    pub photo_interp: Option<PhotoInterp>,
    pub planar_config: u16,
    pub num_frames: i32,
    pub cols: u16,
    pub rows: u16,
    pub pixel_spacing_x: i64,
    pub pixel_spacing_y: i64,
    pub pixel_pad: Option<u16>,
    pub bits_alloc: BitsAlloc,
    pub bits_stored: u16,
    pub high_bit: u16,
    pub pixel_rep: u16,
    pub slope: Option<i64>,
    pub intercept: Option<i64>,
    pub unit: Vec<u8>,
    pub patient_pos: Vec<u8>,
    pub image_pos: MilliVec,
    pub patient_orientation: Vec<i64>,
    pub min_val: i64,
    pub max_val: i64,
    pub win_levels: Vec<WindowLevel>,
    pub sop_uid: Vec<u8>,
    pub series_uid: Vec<u8>,
    pub patient_name: Vec<u8>,
    pub patient_id: Vec<u8>,
    pub series_desc: Vec<u8>,
    /// Whether the dataset's transfer syntax is encapsulated, so the
    /// PixelData bytes are compressed and must not decode as raw
    /// samples.
    pub encapsulated: bool,
    pub pd_bytes: Vec<u8>,
}

/// Whether an element sits inside the PixelData element as one of its
/// fragments.
pub open spec fn spec_within_pd(e: DicomElement) -> bool {
    e.sq_path.len() > 0 && e.sq_path@.last().tag == tags::PIXEL_DATA
}

/// The first `u16` of an element's value, when it holds one.
pub open spec fn spec_elem_ushort(e: DicomElement) -> Option<u16> {
    if e.data@.len() >= 2 {
        Some(u16_at(e.data@, 0, e.big_endian) as u16)
    } else {
        None
    }
}

/// An element's value with trailing space padding removed.
pub open spec fn spec_elem_text(e: DicomElement) -> Seq<u8> {
    e.data@.subrange(0, spec_trimmed_len(e.data@, 0x20))
}

/// An element's value with trailing NUL padding removed, as UID values
/// are padded.
pub open spec fn spec_elem_uid(e: DicomElement) -> Seq<u8> {
    e.data@.subrange(0, spec_trimmed_len(e.data@, 0x00))
}

/// Whether two slice descriptions agree on everything except their
/// window/level list.
pub open spec fn spec_wl_untouched(a: PixelDataSliceInfo, b: PixelDataSliceInfo) -> bool {
    &&& b.big_endian == a.big_endian
    &&& b.vr == a.vr
    &&& b.slice_thickness == a.slice_thickness
    &&& b.spacing_between_slices == a.spacing_between_slices
    &&& b.samples_per_pixel == a.samples_per_pixel
    &&& b.photo_interp == a.photo_interp
    &&& b.planar_config == a.planar_config
    &&& b.num_frames == a.num_frames
    &&& b.cols == a.cols
    &&& b.rows == a.rows
    &&& b.pixel_spacing_x == a.pixel_spacing_x
    &&& b.pixel_spacing_y == a.pixel_spacing_y
    &&& b.pixel_pad == a.pixel_pad
    &&& b.bits_alloc == a.bits_alloc
    &&& b.bits_stored == a.bits_stored
    &&& b.high_bit == a.high_bit
    &&& b.pixel_rep == a.pixel_rep
    &&& b.slope == a.slope
    &&& b.intercept == a.intercept
    &&& b.unit@ == a.unit@
    &&& b.patient_pos@ == a.patient_pos@
    &&& b.image_pos == a.image_pos
    &&& b.patient_orientation@ == a.patient_orientation@
    &&& b.min_val == a.min_val
    &&& b.max_val == a.max_val
    &&& b.sop_uid@ == a.sop_uid@
    &&& b.series_uid@ == a.series_uid@
    &&& b.patient_name@ == a.patient_name@
    &&& b.patient_id@ == a.patient_id@
    &&& b.series_desc@ == a.series_desc@
    &&& b.encapsulated == a.encapsulated
    &&& b.pd_bytes@ == a.pd_bytes@
}

/// Whether two window/level entries carry the same values.
pub open spec fn spec_wl_eq(a: WindowLevel, b: WindowLevel) -> bool {
    a.center == b.center && a.width == b.width && a.out_min == b.out_min && a.out_max == b.out_max
        && a.name@ == b.name@
}

/// The shape of a positional window/level merge of `n_new` values into
/// `olds`: the result covers both lists, and entries past the new
/// values keep their old values.
pub open spec fn spec_wl_merge_shape(olds: Seq<WindowLevel>, news: Seq<WindowLevel>, n_new: int) -> bool {
    &&& news.len() == (if n_new > olds.len() {
        n_new
    } else {
        olds.len() as int
    })
    &&& forall|i: int| n_new <= i < olds.len() ==> spec_wl_eq(#[trigger] news[i], olds[i])
}

/// Copies a window/level entry.
fn clone_wl(w: &WindowLevel) -> (r: WindowLevel)
    ensures
        spec_wl_eq(r, *w),
{
    WindowLevel {
        name: clone_bytes(&w.name),
        center: w.center,
        width: w.width,
        out_min: w.out_min,
        out_max: w.out_max,
    }
}

/// Merges a list of window centers into a window/level list,
/// positionally: the i-th center lands in the i-th entry, a fresh entry
/// with a zero width and the full output range is grown for a center
/// past the end.
fn merge_centers(wls: &Vec<WindowLevel>, vs: &Vec<i64>) -> (r: Vec<WindowLevel>)
    ensures
        spec_wl_merge_shape(wls@, r@, vs@.len() as int),
        forall|i: int|
            0 <= i < vs@.len() ==> (#[trigger] r@[i]).center == vs@[i] && (if i < wls@.len() {
                r@[i].width == wls@[i].width && r@[i].out_min == wls@[i].out_min && r@[i].out_max
                    == wls@[i].out_max && r@[i].name@ == wls@[i].name@
            } else {
                r@[i].width == 0 && r@[i].out_min == -WL_BOUND && r@[i].out_max == WL_BOUND
            }),
{
    let n: usize = vs.len();
    let old_n: usize = wls.len();
    let total: usize = if n > old_n {
        n
    } else {
        old_n
    };
    let mut r: Vec<WindowLevel> = Vec::new();
    let mut i: usize = 0;
    while i < total
        invariant
            0 <= i <= total,
            n == vs@.len(),
            old_n == wls@.len(),
            total == (if n > old_n {
                n
            } else {
                old_n
            }),
            r@.len() == i,
            forall|k: int| (n as int) <= k < i ==> spec_wl_eq(#[trigger] r@[k], wls@[k]),
            forall|k: int|
                0 <= k < i && k < n ==> (#[trigger] r@[k]).center == vs@[k] && (if k < old_n {
                    r@[k].width == wls@[k].width && r@[k].out_min == wls@[k].out_min && r@[k].out_max
                        == wls@[k].out_max && r@[k].name@ == wls@[k].name@
                } else {
                    r@[k].width == 0 && r@[k].out_min == -WL_BOUND && r@[k].out_max == WL_BOUND
                }),
        decreases total - i,
    {
        if i < n {
            if i < old_n {
                let w = &wls[i];
                r.push(
                    WindowLevel {
                        name: clone_bytes(&w.name),
                        center: vs[i],
                        width: w.width,
                        out_min: w.out_min,
                        out_max: w.out_max,
                    },
                );
            } else {
                r.push(
                    WindowLevel {
                        name: Vec::new(),
                        center: vs[i],
                        width: 0,
                        out_min: -WL_BOUND,
                        out_max: WL_BOUND,
                    },
                );
            }
        } else {
            r.push(clone_wl(&wls[i]));
        }
        i += 1;
    }
    r
}

/// Merges a list of window widths into a window/level list, the same
/// way `merge_centers` merges centers.
fn merge_widths(wls: &Vec<WindowLevel>, vs: &Vec<i64>) -> (r: Vec<WindowLevel>)
    ensures
        spec_wl_merge_shape(wls@, r@, vs@.len() as int),
        forall|i: int|
            0 <= i < vs@.len() ==> (#[trigger] r@[i]).width == vs@[i] && (if i < wls@.len() {
                r@[i].center == wls@[i].center && r@[i].out_min == wls@[i].out_min && r@[i].out_max
                    == wls@[i].out_max && r@[i].name@ == wls@[i].name@
            } else {
                r@[i].center == 0 && r@[i].out_min == -WL_BOUND && r@[i].out_max == WL_BOUND
            }),
{
    let n: usize = vs.len();
    let old_n: usize = wls.len();
    let total: usize = if n > old_n {
        n
    } else {
        old_n
    };
    let mut r: Vec<WindowLevel> = Vec::new();
    let mut i: usize = 0;
    while i < total
        invariant
            0 <= i <= total,
            n == vs@.len(),
            old_n == wls@.len(),
            total == (if n > old_n {
                n
            } else {
                old_n
            }),
            r@.len() == i,
            forall|k: int| (n as int) <= k < i ==> spec_wl_eq(#[trigger] r@[k], wls@[k]),
            forall|k: int|
                0 <= k < i && k < n ==> (#[trigger] r@[k]).width == vs@[k] && (if k < old_n {
                    r@[k].center == wls@[k].center && r@[k].out_min == wls@[k].out_min
                        && r@[k].out_max == wls@[k].out_max && r@[k].name@ == wls@[k].name@
                } else {
                    r@[k].center == 0 && r@[k].out_min == -WL_BOUND && r@[k].out_max == WL_BOUND
                }),
        decreases total - i,
    {
        if i < n {
            if i < old_n {
                let w = &wls[i];
                r.push(
                    WindowLevel {
                        name: clone_bytes(&w.name),
                        center: w.center,
                        width: vs[i],
                        out_min: w.out_min,
                        out_max: w.out_max,
                    },
                );
            } else {
                r.push(
                    WindowLevel {
                        name: Vec::new(),
                        center: 0,
                        width: vs[i],
                        out_min: -WL_BOUND,
                        out_max: WL_BOUND,
                    },
                );
            }
        } else {
            r.push(clone_wl(&wls[i]));
        }
        i += 1;
    }
    r
}


/// Merges a list of window names into a window/level list, the same
/// way `merge_centers` merges centers.
fn merge_names(wls: &Vec<WindowLevel>, names: &Vec<Vec<u8>>) -> (r: Vec<WindowLevel>)
    ensures
        spec_wl_merge_shape(wls@, r@, names@.len() as int),
        forall|i: int|
            0 <= i < names@.len() ==> (#[trigger] r@[i]).name@ == names@[i]@ && (if i
                < wls@.len() {
                r@[i].center == wls@[i].center && r@[i].width == wls@[i].width && r@[i].out_min
                    == wls@[i].out_min && r@[i].out_max == wls@[i].out_max
            } else {
                r@[i].center == 0 && r@[i].width == 0 && r@[i].out_min == -WL_BOUND
                    && r@[i].out_max == WL_BOUND
            }),
{
    let n: usize = names.len();
    let old_n: usize = wls.len();
    let total: usize = if n > old_n {
        n
    } else {
        old_n
    };
    let mut r: Vec<WindowLevel> = Vec::new();
    let mut i: usize = 0;
    while i < total
        invariant
            0 <= i <= total,
            n == names@.len(),
            old_n == wls@.len(),
            total == (if n > old_n {
                n
            } else {
                old_n
            }),
            r@.len() == i,
            forall|k: int| (n as int) <= k < i ==> spec_wl_eq(#[trigger] r@[k], wls@[k]),
            forall|k: int|
                0 <= k < i && k < n ==> (#[trigger] r@[k]).name@ == names@[k]@ && (if k < old_n {
                    r@[k].center == wls@[k].center && r@[k].width == wls@[k].width && r@[k].out_min
                        == wls@[k].out_min && r@[k].out_max == wls@[k].out_max
                } else {
                    r@[k].center == 0 && r@[k].width == 0 && r@[k].out_min == -WL_BOUND
                        && r@[k].out_max == WL_BOUND
                }),
        decreases total - i,
    {
        if i < n {
            if i < old_n {
                let w = &wls[i];
                r.push(
                    WindowLevel {
                        name: clone_bytes(&names[i]),
                        center: w.center,
                        width: w.width,
                        out_min: w.out_min,
                        out_max: w.out_max,
                    },
                );
            } else {
                r.push(
                    WindowLevel {
                        name: clone_bytes(&names[i]),
                        center: 0,
                        width: 0,
                        out_min: -WL_BOUND,
                        out_max: WL_BOUND,
                    },
                );
            }
        } else {
            r.push(clone_wl(&wls[i]));
        }
        i += 1;
    }
    r
}

/// The tags the slice description folds in; any other element leaves
/// it untouched.
pub open spec fn spec_recognized(tag: u32) -> bool {
    ||| tag == tags::SLICE_THICKNESS
    ||| tag == tags::SPACING_BETWEEN_SLICES
    ||| tag == tags::SAMPLES_PER_PIXEL
    ||| tag == tags::PHOTOMETRIC_INTERPRETATION
    ||| tag == tags::PLANAR_CONFIGURATION
    ||| tag == tags::NUMBER_OF_FRAMES
    ||| tag == tags::ROWS
    ||| tag == tags::COLUMNS
    ||| tag == tags::PIXEL_SPACING
    ||| tag == tags::BITS_ALLOCATED
    ||| tag == tags::BITS_STORED
    ||| tag == tags::HIGH_BIT
    ||| tag == tags::PIXEL_REPRESENTATION
    ||| tag == tags::PIXEL_PADDING_VALUE
    ||| tag == tags::RESCALE_INTERCEPT
    ||| tag == tags::RESCALE_SLOPE
    ||| tag == tags::RESCALE_TYPE
    ||| tag == tags::UNITS
    ||| tag == tags::PATIENT_POSITION
    ||| tag == tags::IMAGE_POSITION_PATIENT
    ||| tag == tags::IMAGE_ORIENTATION_PATIENT
    ||| tag == tags::SOP_INSTANCE_UID
    ||| tag == tags::SERIES_INSTANCE_UID
    ||| tag == tags::PATIENTS_NAME
    ||| tag == tags::PATIENT_ID
    ||| tag == tags::SERIES_DESCRIPTION
    ||| tag == tags::WINDOW_CENTER
    ||| tag == tags::WINDOW_WIDTH
    ||| tag == tags::WINDOW_CENTER_WIDTH_EXPLANATION
    ||| tag == tags::PIXEL_DATA
}

/// The value a stream of elements leaves in a `u16` attribute: the
/// last parseable setter of the tag wins, elements inside pixel data
/// never set anything.
pub open spec fn spec_fold_ushort(init: u16, s: Seq<DicomElement>, tag: u32) -> u16
    decreases s.len(),
{
    if s.len() == 0 {
        init
    } else {
        let next = if s[0].tag == tag && !spec_within_pd(s[0]) {
            match spec_elem_ushort(s[0]) {
                Some(v) => v,
                None => init,
            }
        } else {
            init
        };
        spec_fold_ushort(next, s.drop_first(), tag)
    }
}

/// The value a stream leaves in the pixel-padding attribute.
pub open spec fn spec_fold_pad(init: Option<u16>, s: Seq<DicomElement>) -> Option<u16>
    decreases s.len(),
{
    if s.len() == 0 {
        init
    } else {
        let next = if s[0].tag == tags::PIXEL_PADDING_VALUE && !spec_within_pd(s[0]) {
            match spec_elem_ushort(s[0]) {
                Some(v) => Some(v),
                None => init,
            }
        } else {
            init
        };
        spec_fold_pad(next, s.drop_first())
    }
}

/// The value a stream leaves in the Bits Allocated attribute.
pub open spec fn spec_fold_bits(init: BitsAlloc, s: Seq<DicomElement>) -> BitsAlloc
    decreases s.len(),
{
    if s.len() == 0 {
        init
    } else {
        let next = if s[0].tag == tags::BITS_ALLOCATED && !spec_within_pd(s[0]) {
            match spec_elem_ushort(s[0]) {
                Some(v) => spec_bits_alloc_from(v),
                None => init,
            }
        } else {
            init
        };
        spec_fold_bits(next, s.drop_first())
    }
}

/// The PixelData bytes a stream carries: the PixelData element's own
/// bytes and its fragments' bytes, concatenated in order.
pub open spec fn spec_fold_pd(s: Seq<DicomElement>) -> Seq<u8>
    decreases s.len(),
{
    if s.len() == 0 {
        Seq::empty()
    } else {
        (if s[0].tag == tags::PIXEL_DATA || spec_within_pd(s[0]) {
            s[0].data@
        } else {
            Seq::empty()
        }) + spec_fold_pd(s.drop_first())
    }
}

/// Folding one more element steps each fold once.
proof fn lemma_folds_push(s: Seq<DicomElement>, e: DicomElement, tag: u32, u: u16, p: Option<u16>, b: BitsAlloc)
    ensures
        spec_fold_ushort(u, s.push(e), tag) == (if e.tag == tag && !spec_within_pd(e) {
            match spec_elem_ushort(e) {
                Some(v) => v,
                None => spec_fold_ushort(u, s, tag),
            }
        } else {
            spec_fold_ushort(u, s, tag)
        }),
        spec_fold_pad(p, s.push(e)) == (if e.tag == tags::PIXEL_PADDING_VALUE && !spec_within_pd(
            e,
        ) {
            match spec_elem_ushort(e) {
                Some(v) => Some(v),
                None => spec_fold_pad(p, s),
            }
        } else {
            spec_fold_pad(p, s)
        }),
        spec_fold_bits(b, s.push(e)) == (if e.tag == tags::BITS_ALLOCATED && !spec_within_pd(e) {
            match spec_elem_ushort(e) {
                Some(v) => spec_bits_alloc_from(v),
                None => spec_fold_bits(b, s),
            }
        } else {
            spec_fold_bits(b, s)
        }),
        spec_fold_pd(s.push(e)) == spec_fold_pd(s) + (if e.tag == tags::PIXEL_DATA
            || spec_within_pd(e) {
            e.data@
        } else {
            Seq::<u8>::empty()
        }),
    decreases s.len(),
{
    if s.len() == 0 {
        assert(s.push(e).drop_first() =~= s);
        assert(s.push(e)[0] == e);
        assert(spec_fold_ushort(u, Seq::<DicomElement>::empty(), tag) == u);
        assert(spec_fold_pad(p, Seq::<DicomElement>::empty()) == p);
        assert(spec_fold_bits(b, Seq::<DicomElement>::empty()) == b);
        let u1 = if e.tag == tag && !spec_within_pd(e) {
            match spec_elem_ushort(e) {
                Some(v) => v,
                None => u,
            }
        } else {
            u
        };
        assert(spec_fold_ushort(u, s.push(e), tag) == spec_fold_ushort(u1, s, tag));
        let p1 = if e.tag == tags::PIXEL_PADDING_VALUE && !spec_within_pd(e) {
            match spec_elem_ushort(e) {
                Some(v) => Some(v),
                None => p,
            }
        } else {
            p
        };
        assert(spec_fold_pad(p, s.push(e)) == spec_fold_pad(p1, s));
        let b1 = if e.tag == tags::BITS_ALLOCATED && !spec_within_pd(e) {
            match spec_elem_ushort(e) {
                Some(v) => spec_bits_alloc_from(v),
                None => b,
            }
        } else {
            b
        };
        assert(spec_fold_bits(b, s.push(e)) == spec_fold_bits(b1, s));
        assert(spec_fold_pd(s.push(e)) =~= spec_fold_pd(s) + (if e.tag == tags::PIXEL_DATA
            || spec_within_pd(e) {
            e.data@
        } else {
            Seq::<u8>::empty()
        }));
    } else {
        let u2 = if s[0].tag == tag && !spec_within_pd(s[0]) {
            match spec_elem_ushort(s[0]) {
                Some(v) => v,
                None => u,
            }
        } else {
            u
        };
        let p2 = if s[0].tag == tags::PIXEL_PADDING_VALUE && !spec_within_pd(s[0]) {
            match spec_elem_ushort(s[0]) {
                Some(v) => Some(v),
                None => p,
            }
        } else {
            p
        };
        let b2 = if s[0].tag == tags::BITS_ALLOCATED && !spec_within_pd(s[0]) {
            match spec_elem_ushort(s[0]) {
                Some(v) => spec_bits_alloc_from(v),
                None => b,
            }
        } else {
            b
        };
        lemma_folds_push(s.drop_first(), e, tag, u2, p2, b2);
        assert(s.push(e).drop_first() =~= s.drop_first().push(e));
        assert(s.push(e)[0] == s[0]);
        let head: Seq<u8> = if s[0].tag == tags::PIXEL_DATA || spec_within_pd(s[0]) {
            s[0].data@
        } else {
            Seq::empty()
        };
        let tail: Seq<u8> = if e.tag == tags::PIXEL_DATA || spec_within_pd(e) {
            e.data@
        } else {
            Seq::empty()
        };
        assert(head + (spec_fold_pd(s.drop_first()) + tail) =~= (head + spec_fold_pd(
            s.drop_first(),
        )) + tail);
    }
}

impl PixelDataSliceInfo {
    /// A description with nothing yet gathered: one frame assumed, no
    /// interpretation, no bytes.
    pub fn new(big_endian: bool) -> (r: PixelDataSliceInfo)
        ensures
            r.big_endian == big_endian,
            r.vr == Vr::OB,
            r.slice_thickness == 0 && r.spacing_between_slices == 0,
            r.samples_per_pixel == 0,
            r.photo_interp is None,
            r.planar_config == 0,
            r.num_frames == 1,
            r.cols == 0 && r.rows == 0,
            r.pixel_spacing_x == 0 && r.pixel_spacing_y == 0,
            r.pixel_pad is None,
            r.bits_alloc == BitsAlloc::Unsupported(0u16),
            r.bits_stored == 0 && r.high_bit == 0 && r.pixel_rep == 0,
            r.slope is None && r.intercept is None,
            r.unit@.len() == 0 && r.patient_pos@.len() == 0,
            r.image_pos == (MilliVec { x: 0i64, y: 0i64, z: 0i64 }),
            r.patient_orientation@.len() == 0,
            r.min_val == 0 && r.max_val == 0,
            r.win_levels@.len() == 0,
            r.sop_uid@.len() == 0 && r.series_uid@.len() == 0,
            r.patient_name@.len() == 0 && r.patient_id@.len() == 0,
            r.series_desc@.len() == 0,
            !r.encapsulated,
            r.pd_bytes@.len() == 0,
    {
        PixelDataSliceInfo {
            big_endian,
            vr: Vr::OB,
            slice_thickness: 0,
            spacing_between_slices: 0,
            samples_per_pixel: 0,
            photo_interp: None,
            planar_config: 0,
            num_frames: 1,
            cols: 0,
            rows: 0,
            pixel_spacing_x: 0,
            pixel_spacing_y: 0,
            pixel_pad: None,
            bits_alloc: BitsAlloc::Unsupported(0),
            bits_stored: 0,
            high_bit: 0,
            pixel_rep: 0,
            slope: None,
            intercept: None,
            unit: Vec::new(),
            patient_pos: Vec::new(),
            image_pos: MilliVec { x: 0, y: 0, z: 0 },
            patient_orientation: Vec::new(),
            min_val: 0,
            max_val: 0,
            win_levels: Vec::new(),
            sop_uid: Vec::new(),
            series_uid: Vec::new(),
            patient_name: Vec::new(),
            patient_id: Vec::new(),
            series_desc: Vec::new(),
            encapsulated: false,
            pd_bytes: Vec::new(),
        }
    }

    /// Folds one element into this description. Scalar attributes set
    /// their field when their value parses and leave everything else
    /// alone; window center/width/name lists merge positionally; the
    /// PixelData element and its fragments move their bytes out of the
    /// element, which is left empty.
    #[verifier::rlimit(100)]
    pub fn process_element(&mut self, e: &mut DicomElement)
        ensures
            old(e).tag == tags::SLICE_THICKNESS && !spec_within_pd(*old(e)) ==> match spec_ds_millis(
                spec_elem_first_token(old(e).data@),
            ) {
                Some(v) => *final(self) == (PixelDataSliceInfo {
                    slice_thickness: v,
                    ..*old(self)
                }),
                None => *final(self) == *old(self),
            },
            old(e).tag == tags::SPACING_BETWEEN_SLICES && !spec_within_pd(*old(e)) ==> match spec_ds_millis(
                spec_elem_first_token(old(e).data@),
            ) {
                Some(v) => *final(self) == (PixelDataSliceInfo {
                    spacing_between_slices: v,
                    ..*old(self)
                }),
                None => *final(self) == *old(self),
            },
            old(e).tag == tags::SAMPLES_PER_PIXEL && !spec_within_pd(*old(e)) ==> match spec_elem_ushort(*old(e)) {
                Some(v) => *final(self) == (PixelDataSliceInfo {
                    samples_per_pixel: v,
                    ..*old(self)
                }),
                None => *final(self) == *old(self),
            },
            old(e).tag == tags::PHOTOMETRIC_INTERPRETATION && !spec_within_pd(*old(e)) ==> *final(self) == (PixelDataSliceInfo {
                photo_interp: Some(spec_photo_interp(spec_elem_text(*old(e)))),
                ..*old(self)
            }),
            old(e).tag == tags::PLANAR_CONFIGURATION && !spec_within_pd(*old(e)) ==> match spec_elem_ushort(*old(e)) {
                Some(v) => *final(self) == (PixelDataSliceInfo { planar_config: v, ..*old(self) }),
                None => *final(self) == *old(self),
            },
            old(e).tag == tags::NUMBER_OF_FRAMES && !spec_within_pd(*old(e)) ==> match spec_int_value(
                spec_elem_first_token(old(e).data@),
            ) {
                Some(v) => *final(self) == (PixelDataSliceInfo { num_frames: v, ..*old(self) }),
                None => *final(self) == *old(self),
            },
            old(e).tag == tags::ROWS && !spec_within_pd(*old(e)) ==> match spec_elem_ushort(*old(e)) {
                Some(v) => *final(self) == (PixelDataSliceInfo { rows: v, ..*old(self) }),
                None => *final(self) == *old(self),
            },
            old(e).tag == tags::COLUMNS && !spec_within_pd(*old(e)) ==> match spec_elem_ushort(*old(e)) {
                Some(v) => *final(self) == (PixelDataSliceInfo { cols: v, ..*old(self) }),
                None => *final(self) == *old(self),
            },
            old(e).tag == tags::PIXEL_SPACING && !spec_within_pd(*old(e)) ==> match spec_ds_list(old(e).data@) {
                Some(vs) => {
                    if vs.len() == 2 {
                        // The first value is the spacing between rows.
                        *final(self) == (PixelDataSliceInfo {
                            pixel_spacing_y: vs[0],
                            pixel_spacing_x: vs[1],
                            ..*old(self)
                        })
                    } else {
                        *final(self) == *old(self)
                    }
                },
                None => *final(self) == *old(self),
            },
            old(e).tag == tags::BITS_ALLOCATED && !spec_within_pd(*old(e)) ==> match spec_elem_ushort(*old(e)) {
                Some(v) => *final(self) == (PixelDataSliceInfo {
                    bits_alloc: spec_bits_alloc_from(v),
                    ..*old(self)
                }),
                None => *final(self) == *old(self),
            },
            old(e).tag == tags::BITS_STORED && !spec_within_pd(*old(e)) ==> match spec_elem_ushort(*old(e)) {
                Some(v) => *final(self) == (PixelDataSliceInfo { bits_stored: v, ..*old(self) }),
                None => *final(self) == *old(self),
            },
            old(e).tag == tags::HIGH_BIT && !spec_within_pd(*old(e)) ==> match spec_elem_ushort(*old(e)) {
                Some(v) => *final(self) == (PixelDataSliceInfo { high_bit: v, ..*old(self) }),
                None => *final(self) == *old(self),
            },
            old(e).tag == tags::PIXEL_REPRESENTATION && !spec_within_pd(*old(e)) ==> match spec_elem_ushort(*old(e)) {
                Some(v) => *final(self) == (PixelDataSliceInfo { pixel_rep: v, ..*old(self) }),
                None => *final(self) == *old(self),
            },
            old(e).tag == tags::PIXEL_PADDING_VALUE && !spec_within_pd(*old(e)) ==> match spec_elem_ushort(*old(e)) {
                Some(v) => *final(self) == (PixelDataSliceInfo {
                    pixel_pad: Some(v),
                    ..*old(self)
                }),
                None => *final(self) == *old(self),
            },
            old(e).tag == tags::RESCALE_INTERCEPT && !spec_within_pd(*old(e)) ==> match spec_ds_millis(
                spec_elem_first_token(old(e).data@),
            ) {
                Some(v) => *final(self) == (PixelDataSliceInfo {
                    intercept: Some(v),
                    ..*old(self)
                }),
                None => *final(self) == *old(self),
            },
            old(e).tag == tags::RESCALE_SLOPE && !spec_within_pd(*old(e)) ==> match spec_ds_millis(
                spec_elem_first_token(old(e).data@),
            ) {
                Some(v) => *final(self) == (PixelDataSliceInfo { slope: Some(v), ..*old(self) }),
                None => *final(self) == *old(self),
            },
            (old(e).tag == tags::RESCALE_TYPE || old(e).tag == tags::UNITS) && !spec_within_pd(*old(e)) ==> {
                // Rescale Type wins over Units by arriving first.
                if old(self).unit@.len() == 0 {
                    *final(self) == (PixelDataSliceInfo {
                        unit: final(self).unit,
                        ..*old(self)
                    }) && final(self).unit@ == spec_elem_text(*old(e))
                } else {
                    *final(self) == *old(self)
                }
            },
            old(e).tag == tags::PATIENT_POSITION && !spec_within_pd(*old(e)) ==> *final(self) == (PixelDataSliceInfo {
                patient_pos: final(self).patient_pos,
                ..*old(self)
            }) && final(self).patient_pos@ == spec_elem_text(*old(e)),
            old(e).tag == tags::IMAGE_POSITION_PATIENT && !spec_within_pd(*old(e)) ==> match spec_ds_list(old(e).data@) {
                Some(vs) => {
                    if vs.len() == 3 {
                        *final(self) == (PixelDataSliceInfo {
                            image_pos: (MilliVec { x: vs[0], y: vs[1], z: vs[2] }),
                            ..*old(self)
                        })
                    } else {
                        *final(self) == *old(self)
                    }
                },
                None => *final(self) == *old(self),
            },
            old(e).tag == tags::IMAGE_ORIENTATION_PATIENT && !spec_within_pd(*old(e)) ==> match spec_ds_list(
                old(e).data@,
            ) {
                Some(vs) => {
                    if vs.len() == 6 {
                        *final(self) == (PixelDataSliceInfo {
                            patient_orientation: final(self).patient_orientation,
                            ..*old(self)
                        }) && final(self).patient_orientation@ == vs
                    } else {
                        *final(self) == *old(self)
                    }
                },
                None => *final(self) == *old(self),
            },
            old(e).tag == tags::WINDOW_CENTER_WIDTH_EXPLANATION && !spec_within_pd(*old(e))
                ==> spec_wl_untouched(*old(self), *final(self)) && {
                let names = Seq::new(
                    crate::values::spec_split_values(old(e).data@).len(),
                    |k: int|
                        crate::values::spec_trim_token(
                            crate::values::spec_split_values(old(e).data@)[k],
                        ),
                );
                &&& spec_wl_merge_shape(
                    old(self).win_levels@,
                    final(self).win_levels@,
                    names.len() as int,
                )
                &&& forall|i: int|
                    0 <= i < names.len() ==> (#[trigger] final(self).win_levels@[i]).name@
                        == names[i]
            },
            !spec_recognized(old(e).tag) && !spec_within_pd(*old(e)) ==> *final(self) == *old(
                self,
            ),
            old(e).tag != tags::PIXEL_DATA && !spec_within_pd(*old(e)) ==> *final(e) == *old(e),
            old(e).tag == tags::SOP_INSTANCE_UID && !spec_within_pd(*old(e)) ==> *final(self) == (PixelDataSliceInfo {
                sop_uid: final(self).sop_uid,
                ..*old(self)
            }) && final(self).sop_uid@ == spec_elem_uid(*old(e)),
            old(e).tag == tags::SERIES_INSTANCE_UID && !spec_within_pd(*old(e)) ==> *final(self) == (PixelDataSliceInfo {
                series_uid: final(self).series_uid,
                ..*old(self)
            }) && final(self).series_uid@ == spec_elem_uid(*old(e)),
            old(e).tag == tags::PATIENTS_NAME && !spec_within_pd(*old(e)) ==> *final(self) == (PixelDataSliceInfo {
                patient_name: final(self).patient_name,
                ..*old(self)
            }) && final(self).patient_name@ == spec_elem_text(*old(e)),
            old(e).tag == tags::PATIENT_ID && !spec_within_pd(*old(e)) ==> *final(self) == (PixelDataSliceInfo {
                patient_id: final(self).patient_id,
                ..*old(self)
            }) && final(self).patient_id@ == spec_elem_text(*old(e)),
            old(e).tag == tags::SERIES_DESCRIPTION && !spec_within_pd(*old(e)) ==> *final(self) == (PixelDataSliceInfo {
                series_desc: final(self).series_desc,
                ..*old(self)
            }) && final(self).series_desc@ == spec_elem_text(*old(e)),
            old(e).tag == tags::WINDOW_CENTER && !spec_within_pd(*old(e)) ==> spec_wl_untouched(*old(self), *final(self))
                && match spec_ds_list(old(e).data@) {
                Some(vs) => spec_wl_merge_shape(
                    old(self).win_levels@,
                    final(self).win_levels@,
                    vs.len() as int,
                ) && forall|i: int|
                    0 <= i < vs.len() ==> (#[trigger] final(self).win_levels@[i]).center == vs[i],
                None => final(self).win_levels@ == old(self).win_levels@,
            },
            old(e).tag == tags::WINDOW_WIDTH && !spec_within_pd(*old(e)) ==> spec_wl_untouched(*old(self), *final(self))
                && match spec_ds_list(old(e).data@) {
                Some(vs) => spec_wl_merge_shape(
                    old(self).win_levels@,
                    final(self).win_levels@,
                    vs.len() as int,
                ) && forall|i: int|
                    0 <= i < vs.len() ==> (#[trigger] final(self).win_levels@[i]).width == vs[i],
                None => final(self).win_levels@ == old(self).win_levels@,
            },
            old(e).tag == tags::PIXEL_DATA || spec_within_pd(*old(e)) ==> *final(self)
                == (PixelDataSliceInfo {
                vr: (if old(e).tag == tags::PIXEL_DATA {
                    old(e).vr
                } else {
                    old(self).vr
                }),
                pd_bytes: final(self).pd_bytes,
                ..*old(self)
            }) && final(self).pd_bytes@ == old(self).pd_bytes@ + old(e).data@
                && final(e).data@.len() == 0,
    {
        let tag: u32 = e.tag;
        if tag == tags::PIXEL_DATA || e.is_within_pixel_data() {
            if tag == tags::PIXEL_DATA {
                self.vr = e.vr;
            }
            let mut taken = e.take_data();
            let ghost taken0 = taken@;
            self.pd_bytes.append(&mut taken);
            assert(self.pd_bytes@ == old(self).pd_bytes@ + taken0);
            return ;
        }
        if tag == tags::SLICE_THICKNESS {
            if let Some(v) = e.parse_millis() {
                self.slice_thickness = v;
            }
        } else if tag == tags::SPACING_BETWEEN_SLICES {
            if let Some(v) = e.parse_millis() {
                self.spacing_between_slices = v;
            }
        } else if tag == tags::SAMPLES_PER_PIXEL {
            if let Some(v) = e.parse_ushort() {
                self.samples_per_pixel = v;
            }
        } else if tag == tags::PHOTOMETRIC_INTERPRETATION {
            let trimmed = trim_trailing(e.data.as_slice(), 0x20);
            self.photo_interp = Some(PhotoInterp::from_value(trimmed.as_slice()));
        } else if tag == tags::PLANAR_CONFIGURATION {
            if let Some(v) = e.parse_ushort() {
                self.planar_config = v;
            }
        } else if tag == tags::NUMBER_OF_FRAMES {
            if let Some(v) = e.parse_int() {
                self.num_frames = v;
            }
        } else if tag == tags::ROWS {
            if let Some(v) = e.parse_ushort() {
                self.rows = v;
            }
        } else if tag == tags::COLUMNS {
            if let Some(v) = e.parse_ushort() {
                self.cols = v;
            }
        } else if tag == tags::PIXEL_SPACING {
            if let Some(vs) = parse_ds_list(e.data.as_slice()) {
                if vs.len() == 2 {
                    self.pixel_spacing_y = vs[0];
                    self.pixel_spacing_x = vs[1];
                }
            }
        } else if tag == tags::BITS_ALLOCATED {
            if let Some(v) = e.parse_ushort() {
                self.bits_alloc = BitsAlloc::from_val(v);
            }
        } else if tag == tags::BITS_STORED {
            if let Some(v) = e.parse_ushort() {
                self.bits_stored = v;
            }
        } else if tag == tags::HIGH_BIT {
            if let Some(v) = e.parse_ushort() {
                self.high_bit = v;
            }
        } else if tag == tags::PIXEL_REPRESENTATION {
            if let Some(v) = e.parse_ushort() {
                self.pixel_rep = v;
            }
        } else if tag == tags::PIXEL_PADDING_VALUE {
            if let Some(v) = e.parse_ushort() {
                self.pixel_pad = Some(v);
            }
        } else if tag == tags::RESCALE_INTERCEPT {
            if let Some(v) = e.parse_millis() {
                self.intercept = Some(v);
            }
        } else if tag == tags::RESCALE_SLOPE {
            if let Some(v) = e.parse_millis() {
                self.slope = Some(v);
            }
        } else if tag == tags::RESCALE_TYPE || tag == tags::UNITS {
            if self.unit.len() == 0 {
                self.unit = trim_trailing(e.data.as_slice(), 0x20);
            }
        } else if tag == tags::PATIENT_POSITION {
            self.patient_pos = trim_trailing(e.data.as_slice(), 0x20);
        } else if tag == tags::IMAGE_POSITION_PATIENT {
            if let Some(vs) = parse_ds_list(e.data.as_slice()) {
                if vs.len() == 3 {
                    self.image_pos = MilliVec { x: vs[0], y: vs[1], z: vs[2] };
                }
            }
        } else if tag == tags::IMAGE_ORIENTATION_PATIENT {
            if let Some(vs) = parse_ds_list(e.data.as_slice()) {
                if vs.len() == 6 {
                    self.patient_orientation = vs;
                }
            }
        } else if tag == tags::SOP_INSTANCE_UID {
            self.sop_uid = trim_trailing(e.data.as_slice(), 0x00);
        } else if tag == tags::SERIES_INSTANCE_UID {
            self.series_uid = trim_trailing(e.data.as_slice(), 0x00);
        } else if tag == tags::PATIENTS_NAME {
            self.patient_name = trim_trailing(e.data.as_slice(), 0x20);
        } else if tag == tags::PATIENT_ID {
            self.patient_id = trim_trailing(e.data.as_slice(), 0x20);
        } else if tag == tags::SERIES_DESCRIPTION {
            self.series_desc = trim_trailing(e.data.as_slice(), 0x20);
        } else if tag == tags::WINDOW_CENTER {
            if let Some(vs) = parse_ds_list(e.data.as_slice()) {
                self.win_levels = merge_centers(&self.win_levels, &vs);
            }
        } else if tag == tags::WINDOW_WIDTH {
            if let Some(vs) = parse_ds_list(e.data.as_slice()) {
                self.win_levels = merge_widths(&self.win_levels, &vs);
            }
        } else if tag == tags::WINDOW_CENTER_WIDTH_EXPLANATION {
            let names = crate::values::parse_strings(e.data.as_slice());
            self.win_levels = merge_names(&self.win_levels, &names);
        }
    }
}


/// The Bits Stored and High Bit values after validation coerces them:
/// Bits Stored falls back to Bits Allocated when zero or oversize, and
/// High Bit to Bits Stored - 1 when out of its range.
pub open spec fn spec_coerced_bits(info: PixelDataSliceInfo) -> (u16, u16) {
    let ba = spec_bits_alloc_val(info.bits_alloc) as int;
    let bs = if info.bits_stored > ba || info.bits_stored == 0 {
        ba
    } else {
        info.bits_stored as int
    };
    let hb = if info.high_bit > ba - 1 || info.high_bit < bs - 1 {
        bs - 1
    } else {
        info.high_bit as int
    };
    ((bs as u16), (hb as u16))
}

/// The error validation raises for a description, if any: missing
/// bytes, a degenerate size, a VR other than OB/OW, an unsupported bit
/// depth, a photometric interpretation that contradicts the sample
/// count, or invalid spacing.
pub open spec fn spec_validate_err(info: PixelDataSliceInfo) -> Option<LoadError> {
    if info.encapsulated {
        Some(LoadError::Encapsulated)
    } else if info.pd_bytes@.len() == 0 {
        Some(LoadError::MissingPixelData)
    } else if info.cols == 0 || info.rows == 0 {
        Some(LoadError::InvalidSize(info.cols, info.rows))
    } else if info.vr != Vr::OB && info.vr != Vr::OW {
        Some(LoadError::InvalidVr(info.vr))
    } else if info.bits_alloc is Unsupported {
        Some(LoadError::InvalidBitsAlloc(spec_bits_alloc_val(info.bits_alloc)))
    } else if (info.photo_interp matches Some(pi) && ((pi is Rgb && info.samples_per_pixel != 3)
        || ((pi is Monochrome1 || pi is Monochrome2) && info.samples_per_pixel != 1))) {
        Some(
            LoadError::InvalidPhotoInterpSamples(
                info.photo_interp->Some_0,
                info.samples_per_pixel,
            ),
        )
    } else if !(info.slice_thickness > 0) && !(info.spacing_between_slices > 0) {
        Some(LoadError::InvalidDims)
    } else if !(info.pixel_spacing_x > 0) || !(info.pixel_spacing_y > 0) {
        Some(LoadError::InvalidDims)
    } else {
        None
    }
}

/// Whether validation fails before it coerces the bit fields.
pub open spec fn spec_validate_early_err(info: PixelDataSliceInfo) -> bool {
    info.encapsulated || info.pd_bytes@.len() == 0 || info.cols == 0 || info.rows == 0 || (info.vr != Vr::OB && info.vr
        != Vr::OW) || info.bits_alloc is Unsupported
}

impl PixelDataSliceInfo {
    /// Validates this description before decoding, coercing Bits Stored
    /// and High Bit into range once the bit depth itself is supported;
    /// an encapsulated transfer syntax is rejected outright.
    /// Which error comes back for which state is exactly
    /// `spec_validate_err`.
    pub fn validate(&mut self) -> (r: Result<(), LoadError>)
        ensures
            match r {
                Ok(()) => spec_validate_err(*old(self)) is None,
                Err(err) => Some(err) == spec_validate_err(*old(self)),
            },
            spec_validate_early_err(*old(self)) ==> *final(self) == *old(self),
            !spec_validate_early_err(*old(self)) ==> *final(self) == (PixelDataSliceInfo {
                bits_stored: spec_coerced_bits(*old(self)).0,
                high_bit: spec_coerced_bits(*old(self)).1,
                ..*old(self)
            }),
    {
        if self.encapsulated {
            // Compressed pixel data is detected and rejected wholesale;
            // it must not be decoded as raw samples.
            return Err(LoadError::Encapsulated);
        }
        if self.pd_bytes.len() == 0 {
            return Err(LoadError::MissingPixelData);
        }
        if self.cols == 0 || self.rows == 0 {
            return Err(LoadError::InvalidSize(self.cols, self.rows));
        }
        if !matches!(self.vr, Vr::OB) && !matches!(self.vr, Vr::OW) {
            return Err(LoadError::InvalidVr(self.vr));
        }
        if let BitsAlloc::Unsupported(val) = self.bits_alloc {
            return Err(LoadError::InvalidBitsAlloc(val));
        }

        // Bits Stored is generally Bits Allocated; High Bit is
        // generally Bits Stored - 1.
        let ba: u16 = self.bits_alloc.val();
        assert(ba == 8 || ba == 16 || ba == 32);
        if self.bits_stored > ba || self.bits_stored == 0 {
            self.bits_stored = ba;
        }
        if self.high_bit > ba - 1 || self.high_bit < self.bits_stored - 1 {
            self.high_bit = self.bits_stored - 1;
        }

        if let Some(pi) = &self.photo_interp {
            let rgb_bad: bool = pi.is_rgb() && self.samples_per_pixel != 3;
            let mono_bad: bool = pi.is_monochrome() && self.samples_per_pixel != 1;
            if rgb_bad || mono_bad {
                return Err(LoadError::InvalidPhotoInterpSamples(*pi, self.samples_per_pixel));
            }
        }

        // One of Slice Thickness or Spacing Between Slices must be a
        // valid spacing, and both pixel spacings must be.
        if !VolDims::is_valid_dim(self.slice_thickness) && !VolDims::is_valid_dim(
            self.spacing_between_slices,
        ) {
            return Err(LoadError::InvalidDims);
        }
        if !VolDims::is_valid_dim(self.pixel_spacing_x) || !VolDims::is_valid_dim(
            self.pixel_spacing_y,
        ) {
            return Err(LoadError::InvalidDims);
        }

        Ok(())
    }

    /// The distance between two samples of one pixel: adjacent when the
    /// planes are interleaved per pixel, a third of the buffer when each
    /// color fills a plane of its own.
    pub fn stride(&self) -> (r: usize)
        requires
            self.planar_config == 0 || self.samples_per_pixel > 0,
        ensures
            r == (if self.planar_config == 0 {
                1int
            } else {
                self.pd_bytes@.len() as int / self.samples_per_pixel as int
            }),
    {
        if self.planar_config == 0 {
            1
        } else {
            self.pd_bytes.len() / (self.samples_per_pixel as usize)
        }
    }

    /// Whether the samples are RGB triplets.
    pub fn is_rgb(&self) -> (r: bool)
        ensures
            r == (self.photo_interp == Some(PhotoInterp::Rgb) && self.samples_per_pixel == 3),
    {
        matches!(self.photo_interp, Some(PhotoInterp::Rgb)) && self.samples_per_pixel == 3
    }

    /// Whether the sample bytes hold signed values.
    pub fn is_signed(&self) -> (r: bool)
        ensures
            r == (self.pixel_rep != 0),
    {
        self.pixel_rep != 0
    }

    /// The volume geometry one slice implies: its position as origin,
    /// its columns and rows as the x/y counts with a depth of one, the
    /// pixel spacing, and whichever of Spacing Between Slices or Slice
    /// Thickness is valid as the z spacing.
    pub fn vol_dims(&self) -> (r: VolDims)
        ensures
            r.origin == self.image_pos,
            r.counts == (IndexVec { x: self.cols as usize, y: self.rows as usize, z: 1usize }),
            r.voxel_dims.x == self.pixel_spacing_x,
            r.voxel_dims.y == self.pixel_spacing_y,
            r.voxel_dims.z == (if self.spacing_between_slices > 0 {
                self.spacing_between_slices
            } else if self.slice_thickness > 0 {
                self.slice_thickness
            } else {
                0i64
            }),
    {
        let z_mm: i64 = if VolDims::is_valid_dim(self.spacing_between_slices) {
            self.spacing_between_slices
        } else if VolDims::is_valid_dim(self.slice_thickness) {
            self.slice_thickness
        } else {
            0
        };
        VolDims::new(
            self.image_pos,
            IndexVec { x: self.cols as usize, y: self.rows as usize, z: 1 },
            MilliVec { x: self.pixel_spacing_x, y: self.pixel_spacing_y, z: z_mm },
        )
    }

    /// Takes the PixelData bytes, leaving the description empty of
    /// them.
    pub fn take_bytes(&mut self) -> (r: Vec<u8>)
        ensures
            r@ == old(self).pd_bytes@,
            *final(self) == (PixelDataSliceInfo { pd_bytes: final(self).pd_bytes, ..*old(self) }),
            final(self).pd_bytes@.len() == 0,
    {
        let mut r: Vec<u8> = Vec::new();
        core::mem::swap(&mut r, &mut self.pd_bytes);
        r
    }

    /// Gathers a description from every element a parser has left:
    /// each attribute holds what its last parseable setter in the
    /// stream gave it, and the PixelData bytes of the element and its
    /// fragments move out of the stream in order. Succeeds exactly
    /// when the parser reaches the end of its source without an error;
    /// a parse failure is handed back and stays recorded on the
    /// parser, with its position and sequence path as context.
    #[verifier::rlimit(100)]
    #[verifier::spinoff_prover]
    pub fn process_parser(parser: &mut crate::parser::Parser) -> (r: Result<
        PixelDataSliceInfo,
        LoadError,
    >)
        requires
            old(parser).wf(),
        ensures
            final(parser).wf(),
            r is Ok <==> final(parser).error == old(parser).error,
            match r {
                Ok(info) => {
                    let delta = final(parser).emitted@.skip(old(parser).emitted@.len() as int);
                    &&& final(parser).iterator_ended
                    &&& (!old(parser).iterator_ended ==> final(parser).pos
                        == final(parser).bytes@.len())
                    &&& info.big_endian == (final(parser).ts
                        == crate::ts::TransferSyntax::ExplicitVrBe)
                    &&& info.encapsulated == (final(parser).ts
                        == crate::ts::TransferSyntax::Encapsulated)
                    &&& info.rows == spec_fold_ushort(0, delta, tags::ROWS)
                    &&& info.cols == spec_fold_ushort(0, delta, tags::COLUMNS)
                    &&& info.samples_per_pixel == spec_fold_ushort(
                        0,
                        delta,
                        tags::SAMPLES_PER_PIXEL,
                    )
                    &&& info.planar_config == spec_fold_ushort(0, delta, tags::PLANAR_CONFIGURATION)
                    &&& info.bits_stored == spec_fold_ushort(0, delta, tags::BITS_STORED)
                    &&& info.high_bit == spec_fold_ushort(0, delta, tags::HIGH_BIT)
                    &&& info.pixel_rep == spec_fold_ushort(0, delta, tags::PIXEL_REPRESENTATION)
                    &&& info.pixel_pad == spec_fold_pad(None, delta)
                    &&& info.bits_alloc == spec_fold_bits(BitsAlloc::Unsupported(0u16), delta)
                    &&& info.pd_bytes@ == spec_fold_pd(delta)
                },
                Err(le) => le matches LoadError::Parse(pe) && final(parser).error == Some(pe)
                    && old(parser).error is None && (le matches LoadError::Parse(pe2)
                    && crate::parser::spec_parse_err_cause(*final(parser), pe2)),
            },
    {
        let mut info = PixelDataSliceInfo::new(false);
        let ghost n0 = old(parser).emitted@.len() as int;
        proof {
            assert(parser.emitted@.skip(n0) =~= Seq::<DicomElement>::empty());
        }
        loop
            invariant_except_break
                parser.iterator_ended ==> old(parser).iterator_ended,
            invariant
                parser.wf(),
                parser.error == old(parser).error,
                n0 == old(parser).emitted@.len(),
                parser.emitted@.len() >= n0,
                parser.emitted@.skip(n0).len() == parser.emitted@.len() - n0,
                info.big_endian == false,
                info.encapsulated == false,
                info.rows == spec_fold_ushort(0, parser.emitted@.skip(n0), tags::ROWS),
                info.cols == spec_fold_ushort(0, parser.emitted@.skip(n0), tags::COLUMNS),
                info.samples_per_pixel == spec_fold_ushort(
                    0,
                    parser.emitted@.skip(n0),
                    tags::SAMPLES_PER_PIXEL,
                ),
                info.planar_config == spec_fold_ushort(
                    0,
                    parser.emitted@.skip(n0),
                    tags::PLANAR_CONFIGURATION,
                ),
                info.bits_stored == spec_fold_ushort(
                    0,
                    parser.emitted@.skip(n0),
                    tags::BITS_STORED,
                ),
                info.high_bit == spec_fold_ushort(0, parser.emitted@.skip(n0), tags::HIGH_BIT),
                info.pixel_rep == spec_fold_ushort(
                    0,
                    parser.emitted@.skip(n0),
                    tags::PIXEL_REPRESENTATION,
                ),
                info.pixel_pad == spec_fold_pad(None, parser.emitted@.skip(n0)),
                info.bits_alloc == spec_fold_bits(
                    BitsAlloc::Unsupported(0u16),
                    parser.emitted@.skip(n0),
                ),
                info.pd_bytes@ == spec_fold_pd(parser.emitted@.skip(n0)),
            ensures
                parser.iterator_ended,
                !old(parser).iterator_ended ==> parser.pos == parser.bytes@.len(),
            decreases parser.bytes@.len() - parser.pos,
        {
            let ghost delta0 = parser.emitted@.skip(n0);
            match parser.next_element() {
                Ok(Some(mut e)) => {
                    let ghost e0 = e;
                    proof {
                        assert(parser.emitted@.skip(n0) =~= delta0.push(e0));
                        lemma_folds_push(delta0, e0, tags::ROWS, 0, None, BitsAlloc::Unsupported(0u16));
                        lemma_folds_push(delta0, e0, tags::COLUMNS, 0, None, BitsAlloc::Unsupported(0u16));
                        lemma_folds_push(delta0, e0, tags::SAMPLES_PER_PIXEL, 0, None, BitsAlloc::Unsupported(0u16));
                        lemma_folds_push(delta0, e0, tags::PLANAR_CONFIGURATION, 0, None, BitsAlloc::Unsupported(0u16));
                        lemma_folds_push(delta0, e0, tags::BITS_STORED, 0, None, BitsAlloc::Unsupported(0u16));
                        lemma_folds_push(delta0, e0, tags::HIGH_BIT, 0, None, BitsAlloc::Unsupported(0u16));
                        lemma_folds_push(delta0, e0, tags::PIXEL_REPRESENTATION, 0, None, BitsAlloc::Unsupported(0u16));
                    }
                    info.process_element(&mut e);
                },
                Ok(None) => {
                    break ;
                },
                Err(err) => {
                    return Err(LoadError::Parse(err));
                },
            }
        }
        info.big_endian = parser.ts.big_endian();
        info.encapsulated = parser.ts.encapsulated();
        Ok(info)
    }
}
} // verus!
