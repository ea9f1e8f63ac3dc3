//! Decoding PixelData bytes into typed sample buffers: the six cases
//! that bit depth and photometric interpretation span, with per-slice
//! extrema that skip the pixel-padding sentinel.

use vstd::prelude::*;

use crate::bytes::{u16_at, u32_at};
use crate::pdinfo::PixelDataSliceInfo;
use crate::pixeldata::{shift_i16, shift_i32, BitsAlloc, LoadError, PhotoInterp};
use crate::winlevel::WindowLevel;

verus! {

/// The signed value carried by sixteen bits.
pub open spec fn spec_i16_of_bits(v: int) -> int {
    if v >= 0x8000 {
        v - 0x1_0000
    } else {
        v
    }
}

/// The signed value carried by thirty-two bits.
pub open spec fn spec_i32_of_bits(v: int) -> int {
    if v >= 0x8000_0000 {
        v - 0x1_0000_0000
    } else {
        v
    }
}

/// The k-th monochrome sample of a 16-bit slice: signed values read
/// directly, unsigned values clamped to the i16 maximum.
pub open spec fn spec_mono16_sample(b: Seq<u8>, k: int, big_endian: bool, signed: bool) -> int {
    let v = u16_at(b, 2 * k, big_endian);
    if signed {
        spec_i16_of_bits(v)
    } else if v > 0x7FFF {
        0x7FFF
    } else {
        v
    }
}

/// The k-th RGB sample of a 16-bit slice: unsigned values read
/// directly, signed values shifted into unsigned space.
pub open spec fn spec_rgb16_sample(b: Seq<u8>, k: int, big_endian: bool, signed: bool) -> int {
    let v = u16_at(b, 2 * k, big_endian);
    if signed {
        spec_i16_of_bits(v) + 0x8000
    } else {
        v
    }
}

/// The k-th monochrome sample of a 32-bit slice.
pub open spec fn spec_mono32_sample(b: Seq<u8>, k: int, big_endian: bool, signed: bool) -> int {
    let v = u32_at(b, 4 * k, big_endian);
    if signed {
        spec_i32_of_bits(v)
    } else if v > 0x7FFF_FFFF {
        0x7FFF_FFFF
    } else {
        v
    }
}

/// The k-th RGB sample of a 32-bit slice.
pub open spec fn spec_rgb32_sample(b: Seq<u8>, k: int, big_endian: bool, signed: bool) -> int {
    let v = u32_at(b, 4 * k, big_endian);
    if signed {
        spec_i32_of_bits(v) + 0x8000_0000
    } else {
        v
    }
}

/// The least sample of a buffer, ignoring the padding sentinel; the
/// type's maximum when every sample is padding.
pub open spec fn spec_min_skip_pad(s: Seq<int>, pad: Option<int>, top: int) -> int
    decreases s.len(),
{
    if s.len() == 0 {
        top
    } else {
        let m = spec_min_skip_pad(s.drop_last(), pad, top);
        if pad == Some(s.last()) {
            m
        } else if s.last() < m {
            s.last()
        } else {
            m
        }
    }
}

/// The greatest sample of a buffer, ignoring the padding sentinel; the
/// type's minimum when every sample is padding.
pub open spec fn spec_max_skip_pad(s: Seq<int>, pad: Option<int>, bottom: int) -> int
    decreases s.len(),
{
    if s.len() == 0 {
        bottom
    } else {
        let m = spec_max_skip_pad(s.drop_last(), pad, bottom);
        if pad == Some(s.last()) {
            m
        } else if s.last() > m {
            s.last()
        } else {
            m
        }
    }
}

/// Whether a window/level list already holds an entry within a
/// hundredth of the given center and width.
pub open spec fn spec_has_close_wl(wls: Seq<WindowLevel>, center: int, width: int) -> bool {
    exists|i: int|
        0 <= i < wls.len() && -10 < (#[trigger] wls[i]).center - center < 10 && -10 < wls[i].width
            - width < 10
}

/// The number of samples a slice holds: every sample of every pixel
/// of every frame.
pub open spec fn spec_samples(info: PixelDataSliceInfo) -> int {
    info.cols as int * info.rows as int * (if info.num_frames > 0 {
        info.num_frames as int
    } else {
        1int
    }) * info.samples_per_pixel as int
}

/// The number of samples a slice holds, or `None` exactly when the
/// buffer is too short for them at the given sample width.
pub fn sample_count(info: &PixelDataSliceInfo, sample_bytes: usize) -> (r: Option<usize>)
    requires
        1 <= sample_bytes <= 4,
    ensures
        r is Some <==> spec_samples(*info) * sample_bytes <= info.pd_bytes@.len(),
        match r {
            Some(n) => n == spec_samples(*info),
            None => true,
        },
{
    let frames: u128 = if info.num_frames > 0 {
        info.num_frames as u128
    } else {
        1
    };
    assert((info.cols as int) * (info.rows as int) < 0x1_0000_0000) by (nonlinear_arith)
        requires
            info.cols < 0x1_0000,
            info.rows < 0x1_0000,
    ;
    let a: u128 = (info.cols as u128) * (info.rows as u128);
    assert((a as int) * (frames as int) < 0x1_0000_0000_0000_0000) by (nonlinear_arith)
        requires
            0 <= a < 0x1_0000_0000,
            0 < frames <= 0x8000_0000,
    ;
    let b: u128 = a * frames;
    assert((b as int) * (info.samples_per_pixel as int) < 0x1_0000_0000_0000_0000_0000)
        by (nonlinear_arith)
        requires
            0 <= b < 0x1_0000_0000_0000_0000,
            info.samples_per_pixel < 0x1_0000,
    ;
    let n: u128 = b * (info.samples_per_pixel as u128);
    assert((n as int) * (sample_bytes as int) < 0x1_0000_0000_0000_0000_0000_00)
        by (nonlinear_arith)
        requires
            0 <= n < 0x1_0000_0000_0000_0000_0000,
            sample_bytes <= 4,
    ;
    let need: u128 = n * (sample_bytes as u128);
    if need > (info.pd_bytes.len() as u128) {
        return None;
    }
    assert(n <= usize::MAX as u128) by (nonlinear_arith)
        requires
            n * sample_bytes <= usize::MAX as u128,
            1 <= sample_bytes,
            0 <= n,
    ;
    Some(n as usize)
}

/// A decoded 16-bit monochrome slice.
pub struct PixelDataSliceI16 {
    pub info: PixelDataSliceInfo,
    pub buffer: Vec<i16>,
    pub stride: usize,
    pub interp_as_rgb: bool,
}

impl PixelDataSliceI16 {
    /// The slice's description.
    pub fn info(&self) -> (r: &PixelDataSliceInfo)
        ensures
            r == &self.info,
    {
        &self.info
    }

    /// The decoded samples.
    pub fn buffer(&self) -> (r: &Vec<i16>)
        ensures
            r == &self.buffer,
    {
        &self.buffer
    }

    /// The distance between two samples of one pixel.
    pub fn stride(&self) -> (r: usize)
        ensures
            r == self.stride,
    {
        self.stride
    }

    /// Gives the samples up together with their description.
    pub fn into_buffer(self) -> (r: (PixelDataSliceInfo, Vec<i16>))
        ensures
            r.0 == self.info,
            r.1 == self.buffer,
    {
        (self.info, self.buffer)
    }

    /// The window/level to display this slice under: the last of the
    /// gathered windows (the synthesized "Min/Max" window when none was
    /// named), or a default over the i16 range when there is none.
    pub fn best_winlevel(&self) -> (r: WindowLevel)
        ensures
            self.info.win_levels@.len() > 0 ==> {
                let last = self.info.win_levels@.last();
                r.center == last.center && r.width == last.width && r.out_min == last.out_min
                    && r.out_max == last.out_max && r.name@ == last.name@
            },
            self.info.win_levels@.len() == 0 ==> r.center == 0 && r.width == 0x7FFF_000
                && r.out_min == -0x8000_000 && r.out_max == 0x7FFF_000,
    {
        let n: usize = self.info.win_levels.len();
        if n == 0 {
            return WindowLevel {
                name: Vec::new(),
                center: 0,
                width: 0x7FFF_000,
                out_min: -0x8000_000,
                out_max: 0x7FFF_000,
            };
        }
        let w = &self.info.win_levels[n - 1];
        WindowLevel {
            name: crate::bytes::clone_bytes(&w.name),
            center: w.center,
            width: w.width,
            out_min: w.out_min,
            out_max: w.out_max,
        }
    }

    /// Decodes an 8-bit monochrome slice, widening each byte to i16,
    /// and records the extrema (padding skipped) and the "Min/Max"
    /// window.
    pub fn from_mono_8bit(mut info: PixelDataSliceInfo) -> (r: Result<
        PixelDataSliceI16,
        LoadError,
    >)
        ensures
            match r {
                Ok(s) => {
                    &&& s.info.image_pos == info.image_pos
                    &&& s.info.series_uid@ == info.series_uid@
                    &&& s.info.pd_bytes@.len() == 0
                    &&& s.stride == (if info.planar_config == 0 {
                        1int
                    } else if info.samples_per_pixel > 0 {
                        s.buffer@.len() as int / info.samples_per_pixel as int
                    } else {
                        1int
                    })
                    &&& s.interp_as_rgb == (info.photo_interp == Some(PhotoInterp::Rgb)
                        && info.samples_per_pixel == 3)
                    &&& s.buffer@.len() == spec_samples(info)
                    &&& s.buffer@.len() * 1 <= info.pd_bytes@.len()
                    &&& forall|k: int|
                        0 <= k < s.buffer@.len() ==> #[trigger] s.buffer@[k] == info.pd_bytes@[k]
                    &&& s.info.min_val == spec_min_skip_pad(
                        s.buffer@.map_values(|v: i16| v as int),
                        spec_i16_pad(info.pixel_pad),
                        0x7FFF,
                    )
                    &&& s.info.max_val == spec_max_skip_pad(
                        s.buffer@.map_values(|v: i16| v as int),
                        spec_i16_pad(info.pixel_pad),
                        -0x8000,
                    )
                    &&& forall|i: int|
                        0 <= i < s.info.win_levels@.len() ==> spec_wl_i16_range(
                            #[trigger] s.info.win_levels@[i],
                        )
                    &&& forall|i: int|
                        0 <= i < info.win_levels@.len() ==> {
                            let w = #[trigger] s.info.win_levels@[i];
                            let o = info.win_levels@[i];
                            w.center == o.center && w.width == o.width && w.name@ == o.name@
                        }
                    &&& ({
                        let m = spec_min_skip_pad(
                            s.buffer@.map_values(|v: i16| v as int),
                            spec_i16_pad(info.pixel_pad),
                            0x7FFF,
                        );
                        let mx = spec_max_skip_pad(
                            s.buffer@.map_values(|v: i16| v as int),
                            spec_i16_pad(info.pixel_pad),
                            -0x8000,
                        );
                        let c = m * 1000 + (mx - m) * 1000 / 2;
                        let w = (mx - m) * 1000;
                        if spec_has_close_wl(info.win_levels@, c, w) {
                            s.info.win_levels@.len() == info.win_levels@.len()
                        } else {
                            s.info.win_levels@.len() == info.win_levels@.len() + 1
                                && s.info.win_levels@.last().center == c
                                && s.info.win_levels@.last().width == w
                                && s.info.win_levels@.last().name@ == spec_minmax_name()
                        }
                    })
                },
                Err(e) => e is InvalidPixelSource && spec_samples(info) * 1
                    > info.pd_bytes@.len(),
            },
    {
        let n: usize = match sample_count(&info, 1) {
            Some(n) => n,
            None => {
                return Err(LoadError::InvalidPixelSource(info.pd_bytes.len()));
            },
        };
        let pad: Option<i16> = i16_pad(info.pixel_pad);
        let bytes = info.take_bytes();
        let blen: usize = bytes.len();
        assert(blen == bytes@.len() && bytes@.len() <= usize::MAX);
        let mut buffer: Vec<i16> = Vec::new();
        let mut min: i16 = 0x7FFF;
        let mut max: i16 = -0x8000;
        let mut k: usize = 0;
        while k < n
            invariant
                0 <= k <= n,
                n <= bytes@.len(),
                buffer@.len() == k,
                forall|j: int| 0 <= j < k ==> #[trigger] buffer@[j] == bytes@[j],
                min == spec_min_skip_pad(
                    buffer@.map_values(|v: i16| v as int),
                    spec_i16_pad_val(pad),
                    0x7FFF,
                ),
                max == spec_max_skip_pad(
                    buffer@.map_values(|v: i16| v as int),
                    spec_i16_pad_val(pad),
                    -0x8000,
                ),
            decreases n - k,
        {
            let val: i16 = bytes[k] as i16;
            let ghost prev_map = buffer@.map_values(|v: i16| v as int);
            buffer.push(val);
            proof {
                let m = buffer@.map_values(|v: i16| v as int);
                assert(m =~= prev_map.push(val as int));
                assert(m.drop_last() =~= prev_map);
            }
            let skip: bool = match pad {
                Some(p) => val == p,
                None => false,
            };
            if !skip {
                if val < min {
                    min = val;
                }
                if val > max {
                    max = val;
                }
            }
            k += 1;
        }
        info.min_val = min as i64;
        info.max_val = max as i64;
        finalize_mono_winlevels(&mut info, min as i64, max as i64);
        Ok(PixelDataSliceI16::new(info, buffer))
    }

    /// Decodes a 16-bit monochrome slice: signed samples read directly,
    /// unsigned ones clamped to the i16 maximum; extrema recorded with
    /// padding skipped, and the "Min/Max" window appended.
    pub fn from_mono_16bit(mut info: PixelDataSliceInfo) -> (r: Result<
        PixelDataSliceI16,
        LoadError,
    >)
        ensures
            match r {
                Ok(s) => {
                    &&& s.info.image_pos == info.image_pos
                    &&& s.info.series_uid@ == info.series_uid@
                    &&& s.info.pd_bytes@.len() == 0
                    &&& s.stride == (if info.planar_config == 0 {
                        1int
                    } else if info.samples_per_pixel > 0 {
                        s.buffer@.len() as int / info.samples_per_pixel as int
                    } else {
                        1int
                    })
                    &&& s.interp_as_rgb == (info.photo_interp == Some(PhotoInterp::Rgb)
                        && info.samples_per_pixel == 3)
                    &&& s.buffer@.len() == spec_samples(info)
                    &&& s.buffer@.len() * 2 <= info.pd_bytes@.len()
                    &&& forall|k: int|
                        0 <= k < s.buffer@.len() ==> #[trigger] s.buffer@[k] == spec_mono16_sample(
                            info.pd_bytes@,
                            k,
                            info.big_endian,
                            info.pixel_rep != 0,
                        )
                    &&& s.info.min_val == spec_min_skip_pad(
                        s.buffer@.map_values(|v: i16| v as int),
                        spec_i16_pad(info.pixel_pad),
                        0x7FFF,
                    )
                    &&& s.info.max_val == spec_max_skip_pad(
                        s.buffer@.map_values(|v: i16| v as int),
                        spec_i16_pad(info.pixel_pad),
                        -0x8000,
                    )
                    &&& forall|i: int|
                        0 <= i < s.info.win_levels@.len() ==> spec_wl_i16_range(
                            #[trigger] s.info.win_levels@[i],
                        )
                    &&& forall|i: int|
                        0 <= i < info.win_levels@.len() ==> {
                            let w = #[trigger] s.info.win_levels@[i];
                            let o = info.win_levels@[i];
                            w.center == o.center && w.width == o.width && w.name@ == o.name@
                        }
                    &&& ({
                        let m = spec_min_skip_pad(
                            s.buffer@.map_values(|v: i16| v as int),
                            spec_i16_pad(info.pixel_pad),
                            0x7FFF,
                        );
                        let mx = spec_max_skip_pad(
                            s.buffer@.map_values(|v: i16| v as int),
                            spec_i16_pad(info.pixel_pad),
                            -0x8000,
                        );
                        let c = m * 1000 + (mx - m) * 1000 / 2;
                        let w = (mx - m) * 1000;
                        if spec_has_close_wl(info.win_levels@, c, w) {
                            s.info.win_levels@.len() == info.win_levels@.len()
                        } else {
                            s.info.win_levels@.len() == info.win_levels@.len() + 1
                                && s.info.win_levels@.last().center == c
                                && s.info.win_levels@.last().width == w
                                && s.info.win_levels@.last().name@ == spec_minmax_name()
                        }
                    })
                },
                Err(e) => e is InvalidPixelSource && spec_samples(info) * 2
                    > info.pd_bytes@.len(),
            },
    {
        let n: usize = match sample_count(&info, 2) {
            Some(n) => n,
            None => {
                return Err(LoadError::InvalidPixelSource(info.pd_bytes.len()));
            },
        };
        let pad: Option<i16> = i16_pad(info.pixel_pad);
        let signed: bool = info.is_signed();
        let big_endian: bool = info.big_endian;
        let bytes = info.take_bytes();
        let blen: usize = bytes.len();
        assert(blen == bytes@.len() && bytes@.len() <= usize::MAX);
        let mut buffer: Vec<i16> = Vec::new();
        let mut min: i16 = 0x7FFF;
        let mut max: i16 = -0x8000;
        let mut k: usize = 0;
        while k < n
            invariant
                0 <= k <= n,
                n * 2 <= bytes@.len() <= usize::MAX,
                buffer@.len() == k,
                forall|j: int|
                    0 <= j < k ==> #[trigger] buffer@[j] == spec_mono16_sample(
                        bytes@,
                        j,
                        big_endian,
                        signed,
                    ),
                min == spec_min_skip_pad(
                    buffer@.map_values(|v: i16| v as int),
                    spec_i16_pad_val(pad),
                    0x7FFF,
                ),
                max == spec_max_skip_pad(
                    buffer@.map_values(|v: i16| v as int),
                    spec_i16_pad_val(pad),
                    -0x8000,
                ),
            decreases n - k,
        {
            assert(2 * (k as int) + 2 <= bytes@.len() && 2 * (k as int) <= usize::MAX)
                by (nonlinear_arith)
                requires
                    0 <= k < n,
                    n * 2 <= bytes@.len(),
                    bytes@.len() <= usize::MAX,
            ;
            let word: u16 = crate::bytes::read_u16(&bytes, 2 * k, big_endian);
            let val: i16 = if signed {
                if word >= 0x8000 {
                    ((word as i32) - 0x1_0000) as i16
                } else {
                    word as i16
                }
            } else if word > 0x7FFF {
                0x7FFF
            } else {
                word as i16
            };
            assert(val as int == spec_mono16_sample(bytes@, k as int, big_endian, signed));
            let ghost prev_map = buffer@.map_values(|v: i16| v as int);
            buffer.push(val);
            proof {
                let m = buffer@.map_values(|v: i16| v as int);
                assert(m =~= prev_map.push(val as int));
                assert(m.drop_last() =~= prev_map);
            }
            let skip: bool = match pad {
                Some(p) => val == p,
                None => false,
            };
            if !skip {
                if val < min {
                    min = val;
                }
                if val > max {
                    max = val;
                }
            }
            k += 1;
        }
        info.min_val = min as i64;
        info.max_val = max as i64;
        finalize_mono_winlevels(&mut info, min as i64, max as i64);
        Ok(PixelDataSliceI16::new(info, buffer))
    }

    /// Wraps decoded samples with their description, computing the
    /// stride and whether the samples read as RGB.
    pub fn new(info: PixelDataSliceInfo, buffer: Vec<i16>) -> (r: PixelDataSliceI16)
        ensures
            r.info == info,
            r.buffer == buffer,
            r.stride == (if info.planar_config == 0 {
                1int
            } else if info.samples_per_pixel > 0 {
                buffer@.len() as int / info.samples_per_pixel as int
            } else {
                1int
            }),
            r.interp_as_rgb == (info.photo_interp == Some(PhotoInterp::Rgb)
                && info.samples_per_pixel == 3),
    {
        let stride: usize = if info.planar_config == 0 {
            1
        } else if info.samples_per_pixel > 0 {
            buffer.len() / (info.samples_per_pixel as usize)
        } else {
            1
        };
        let interp_as_rgb: bool = matches!(info.photo_interp, Some(PhotoInterp::Rgb))
            && info.samples_per_pixel == 3;
        PixelDataSliceI16 { info, buffer, stride, interp_as_rgb }
    }
}

/// The padding sentinel as an i16, when it fits.
fn i16_pad(pad: Option<u16>) -> (r: Option<i16>)
    ensures
        spec_i16_pad_val(r) == spec_i16_pad(pad),
{
    match pad {
        Some(p) => {
            if p <= 0x7FFF {
                Some(p as i16)
            } else {
                None
            }
        },
        None => None,
    }
}

/// The padding sentinel as a mathematical value, when it fits in i16.
pub open spec fn spec_i16_pad(pad: Option<u16>) -> Option<int> {
    match pad {
        Some(p) => if p <= 0x7FFF {
            Some(p as int)
        } else {
            None
        },
        None => None,
    }
}

/// An i16 padding option as a mathematical value.
pub open spec fn spec_i16_pad_val(pad: Option<i16>) -> Option<int> {
    match pad {
        Some(p) => Some(p as int),
        None => None,
    }
}

/// The full i16 output range in thousandths, given to every window of
/// a decoded monochrome slice.
pub open spec fn spec_wl_i16_range(w: WindowLevel) -> bool {
    w.out_min == -0x8000_000 && w.out_max == 0x7FFF_000
}

/// The byte string "Min/Max".
pub open spec fn spec_minmax_name() -> Seq<u8> {
    seq![0x4Du8, 0x69, 0x6E, 0x2F, 0x4D, 0x61, 0x78]
}

/// Rewrites every window's output range to the i16 range, keeping each
/// window's center, width and name, and appends a "Min/Max" window over
/// the recorded extrema unless one within a hundredth of it is already
/// present.
/// Rewrites every window's output range to the i16 range, keeping
/// each window's center, width and name, and reports whether one of
/// them sits within a hundredth of the given center and width.
fn rewrite_out_ranges(wls: &Vec<WindowLevel>, center: i64, width: i64) -> (r: (
    Vec<WindowLevel>,
    bool,
))
    ensures
        r.1 == spec_has_close_wl(wls@, center as int, width as int),
        r.0@.len() == wls@.len(),
        forall|i: int| 0 <= i < r.0@.len() ==> spec_wl_i16_range(#[trigger] r.0@[i]),
        forall|i: int|
            0 <= i < r.0@.len() ==> {
                let w = #[trigger] r.0@[i];
                let o = wls@[i];
                w.center == o.center && w.width == o.width && w.name@ == o.name@
            },
{
    let n: usize = wls.len();
    let mut out: Vec<WindowLevel> = Vec::new();
    let mut found: bool = false;
    let mut i: usize = 0;
    while i < n
        invariant
            0 <= i <= n,
            n == wls@.len(),
            out@.len() == i,
            forall|k: int| 0 <= k < i ==> spec_wl_i16_range(#[trigger] out@[k]),
            forall|k: int|
                0 <= k < i ==> {
                    let w = #[trigger] out@[k];
                    let o = wls@[k];
                    w.center == o.center && w.width == o.width && w.name@ == o.name@
                },
            found == exists|k: int|
                0 <= k < i && -10 < (#[trigger] wls@[k]).center - center < 10 && -10 < wls@[
                    k].width - width < 10,
        decreases n - i,
    {
        let w = &wls[i];
        let dc: i128 = (w.center as i128) - (center as i128);
        let dw: i128 = (w.width as i128) - (width as i128);
        if -10 < dc && dc < 10 && -10 < dw && dw < 10 {
            found = true;
            assert(-10 < wls@[i as int].center - center < 10 && -10 < wls@[i as int].width
                - width < 10);
        }
        out.push(
            WindowLevel {
                name: crate::bytes::clone_bytes(&w.name),
                center: w.center,
                width: w.width,
                out_min: -0x8000_000,
                out_max: 0x7FFF_000,
            },
        );
        i += 1;
    }
    (out, found)
}

/// Applies the decoded extrema to the gathered windows: every output
/// range becomes the i16 range, and a "Min/Max" window is appended
/// unless one within a hundredth of it is already present.
#[verifier::rlimit(100)]
#[verifier::spinoff_prover]
fn finalize_mono_winlevels(info: &mut PixelDataSliceInfo, min: i64, max: i64)
    requires
        -0x8000 <= min <= 0x7FFF,
        -0x8000 <= max <= 0x7FFF,
    ensures
        crate::pdinfo::spec_wl_untouched(*old(info), *final(info)),
        final(info).win_levels@.len() >= old(info).win_levels@.len(),
        forall|i: int|
            0 <= i < final(info).win_levels@.len() ==> spec_wl_i16_range(
                #[trigger] final(info).win_levels@[i],
            ),
        forall|i: int|
            0 <= i < old(info).win_levels@.len() ==> {
                let w = #[trigger] final(info).win_levels@[i];
                let o = old(info).win_levels@[i];
                w.center == o.center && w.width == o.width && w.name@ == o.name@
            },
        ({
            let c = min * 1000 + (max - min) * 1000 / 2;
            let w = (max - min) * 1000;
            if spec_has_close_wl(old(info).win_levels@, c, w) {
                final(info).win_levels@.len() == old(info).win_levels@.len()
            } else {
                final(info).win_levels@.len() == old(info).win_levels@.len() + 1
                    && final(info).win_levels@.last().center == c
                    && final(info).win_levels@.last().width == w
                    && final(info).win_levels@.last().name@ == spec_minmax_name()
            }
        }),
{
    let minmax_width: i64 = (max - min) * 1000;
    let minmax_center: i64 = min * 1000 + minmax_width / 2;
    let (mut rewritten, has_minmax) = rewrite_out_ranges(
        &info.win_levels,
        minmax_center,
        minmax_width,
    );
    if !has_minmax {
        let name: Vec<u8> = vec![0x4Du8, 0x69, 0x6E, 0x2F, 0x4D, 0x61, 0x78];
        assert(name@ =~= spec_minmax_name());
        rewritten.push(
            WindowLevel {
                name,
                center: minmax_center,
                width: minmax_width,
                out_min: -0x8000_000,
                out_max: 0x7FFF_000,
            },
        );
    }
    info.win_levels = rewritten;
}

/// A decoded 8-bit RGB slice.
pub struct PixelDataSliceU8 {
    pub info: PixelDataSliceInfo,
    pub buffer: Vec<u8>,
    pub stride: usize,
    pub interp_as_rgb: bool,
}

impl PixelDataSliceU8 {
    /// The slice's description.
    pub fn info(&self) -> (r: &PixelDataSliceInfo)
        ensures
            r == &self.info,
    {
        &self.info
    }

    /// The decoded samples.
    pub fn buffer(&self) -> (r: &Vec<u8>)
        ensures
            r == &self.buffer,
    {
        &self.buffer
    }

    /// The distance between two samples of one pixel.
    pub fn stride(&self) -> (r: usize)
        ensures
            r == self.stride,
    {
        self.stride
    }

    /// Wraps decoded samples with their description, computing the
    /// stride and whether the samples read as RGB.
    pub fn new(info: PixelDataSliceInfo, buffer: Vec<u8>) -> (r: PixelDataSliceU8)
        ensures
            r.info == info,
            r.buffer == buffer,
            r.stride == (if info.planar_config == 0 {
                1int
            } else if info.samples_per_pixel > 0 {
                buffer@.len() as int / info.samples_per_pixel as int
            } else {
                1int
            }),
            r.interp_as_rgb == (info.photo_interp == Some(PhotoInterp::Rgb)
                && info.samples_per_pixel == 3),
    {
        let stride: usize = if info.planar_config == 0 {
            1
        } else if info.samples_per_pixel > 0 {
            buffer.len() / (info.samples_per_pixel as usize)
        } else {
            1
        };
        let interp_as_rgb: bool = matches!(info.photo_interp, Some(PhotoInterp::Rgb))
            && info.samples_per_pixel == 3;
        PixelDataSliceU8 { info, buffer, stride, interp_as_rgb }
    }

    /// Wraps an 8-bit RGB slice: the PixelData bytes are the samples,
    /// moved rather than copied, with the extrema recorded (padding
    /// skipped).
    pub fn from_rgb_8bit(mut info: PixelDataSliceInfo) -> (r: PixelDataSliceU8)
        ensures
            r.info.image_pos == info.image_pos,
            r.info.series_uid@ == info.series_uid@,
            r.info.pd_bytes@.len() == 0,
            r.stride == (if info.planar_config == 0 {
                1int
            } else if info.samples_per_pixel > 0 {
                info.pd_bytes@.len() as int / info.samples_per_pixel as int
            } else {
                1int
            }),
            r.interp_as_rgb == (info.photo_interp == Some(PhotoInterp::Rgb)
                && info.samples_per_pixel == 3),
            r.buffer@ == info.pd_bytes@,
            r.info.min_val == spec_min_skip_pad(
                r.buffer@.map_values(|v: u8| v as int),
                spec_u8_pad(info.pixel_pad),
                0xFF,
            ),
            r.info.max_val == spec_max_skip_pad(
                r.buffer@.map_values(|v: u8| v as int),
                spec_u8_pad(info.pixel_pad),
                0,
            ),
    {
        let pad: Option<u8> = match info.pixel_pad {
            Some(p) => {
                if p <= 0xFF {
                    Some(p as u8)
                } else {
                    None
                }
            },
            None => None,
        };
        let buffer = info.take_bytes();
        let n: usize = buffer.len();
        let mut min: u8 = 0xFF;
        let mut max: u8 = 0;
        let mut k: usize = 0;
        while k < n
            invariant
                0 <= k <= n,
                n == buffer@.len(),
                min == spec_min_skip_pad(
                    buffer@.subrange(0, k as int).map_values(|v: u8| v as int),
                    spec_u8_pad_val(pad),
                    0xFF,
                ),
                max == spec_max_skip_pad(
                    buffer@.subrange(0, k as int).map_values(|v: u8| v as int),
                    spec_u8_pad_val(pad),
                    0,
                ),
            decreases n - k,
        {
            let val: u8 = buffer[k];
            let skip: bool = match pad {
                Some(p) => val == p,
                None => false,
            };
            if !skip {
                if val < min {
                    min = val;
                }
                if val > max {
                    max = val;
                }
            }
            k += 1;
            proof {
                let m = buffer@.subrange(0, k as int).map_values(|v: u8| v as int);
                assert(m =~= buffer@.subrange(0, k - 1).map_values(|v: u8| v as int).push(
                    val as int,
                ));
                assert(m.drop_last() =~= buffer@.subrange(0, k - 1).map_values(|v: u8| v as int));
            }
        }
        assert(buffer@.subrange(0, n as int) =~= buffer@);
        info.min_val = min as i64;
        info.max_val = max as i64;
        PixelDataSliceU8::new(info, buffer)
    }

    /// Widens the samples to i16, handing back the description.
    pub fn into_i16(self) -> (r: (PixelDataSliceInfo, Vec<i16>))
        ensures
            r.0 == self.info,
            r.1@.len() == self.buffer@.len(),
            forall|k: int| 0 <= k < r.1@.len() ==> #[trigger] r.1@[k] == self.buffer@[k] as i16,
    {
        let n: usize = self.buffer.len();
        let mut out: Vec<i16> = Vec::new();
        let mut k: usize = 0;
        while k < n
            invariant
                0 <= k <= n,
                n == self.buffer@.len(),
                out@.len() == k,
                forall|j: int| 0 <= j < k ==> #[trigger] out@[j] == self.buffer@[j] as i16,
            decreases n - k,
        {
            out.push(self.buffer[k] as i16);
            k += 1;
        }
        (self.info, out)
    }
}

/// The padding sentinel as a byte value, when it fits.
pub open spec fn spec_u8_pad(pad: Option<u16>) -> Option<int> {
    match pad {
        Some(p) => if p <= 0xFF {
            Some(p as int)
        } else {
            None
        },
        None => None,
    }
}

/// A u8 padding option as a mathematical value.
pub open spec fn spec_u8_pad_val(pad: Option<u8>) -> Option<int> {
    match pad {
        Some(p) => Some(p as int),
        None => None,
    }
}


/// A decoded 16-bit RGB slice.
pub struct PixelDataSliceU16 {
    pub info: PixelDataSliceInfo,
    pub buffer: Vec<u16>,
    pub stride: usize,
    pub interp_as_rgb: bool,
}

impl PixelDataSliceU16 {
    /// The slice's description.
    pub fn info(&self) -> (r: &PixelDataSliceInfo)
        ensures
            r == &self.info,
    {
        &self.info
    }

    /// The decoded samples.
    pub fn buffer(&self) -> (r: &Vec<u16>)
        ensures
            r == &self.buffer,
    {
        &self.buffer
    }

    /// The distance between two samples of one pixel.
    pub fn stride(&self) -> (r: usize)
        ensures
            r == self.stride,
    {
        self.stride
    }

    /// Wraps decoded samples with their description, computing the
    /// stride and whether the samples read as RGB.
    pub fn new(info: PixelDataSliceInfo, buffer: Vec<u16>) -> (r: PixelDataSliceU16)
        ensures
            r.info == info,
            r.buffer == buffer,
            r.stride == (if info.planar_config == 0 {
                1int
            } else if info.samples_per_pixel > 0 {
                buffer@.len() as int / info.samples_per_pixel as int
            } else {
                1int
            }),
            r.interp_as_rgb == (info.photo_interp == Some(PhotoInterp::Rgb)
                && info.samples_per_pixel == 3),
    {
        let stride: usize = if info.planar_config == 0 {
            1
        } else if info.samples_per_pixel > 0 {
            buffer.len() / (info.samples_per_pixel as usize)
        } else {
            1
        };
        let interp_as_rgb: bool = matches!(info.photo_interp, Some(PhotoInterp::Rgb))
            && info.samples_per_pixel == 3;
        PixelDataSliceU16 { info, buffer, stride, interp_as_rgb }
    }

    /// Decodes a 16-bit RGB slice; each sample is
    /// `spec_rgb16_sample` of the bytes, with the extrema recorded
    /// (padding skipped).
    pub fn from_rgb_16bit(mut info: PixelDataSliceInfo) -> (r: Result<
        PixelDataSliceU16,
        LoadError,
    >)
        ensures
            match r {
                Ok(s) => {
                    &&& s.info.image_pos == info.image_pos
                    &&& s.info.series_uid@ == info.series_uid@
                    &&& s.info.pd_bytes@.len() == 0
                    &&& s.stride == (if info.planar_config == 0 {
                        1int
                    } else if info.samples_per_pixel > 0 {
                        s.buffer@.len() as int / info.samples_per_pixel as int
                    } else {
                        1int
                    })
                    &&& s.interp_as_rgb == (info.photo_interp == Some(PhotoInterp::Rgb)
                        && info.samples_per_pixel == 3)
                    &&& s.buffer@.len() == spec_samples(info)
                    &&& s.buffer@.len() * 2 <= info.pd_bytes@.len()
                    &&& forall|k: int|
                        0 <= k < s.buffer@.len() ==> #[trigger] s.buffer@[k] == spec_rgb16_sample(
                            info.pd_bytes@,
                            k,
                            info.big_endian,
                            info.pixel_rep != 0,
                        )
                    &&& s.info.min_val == spec_min_skip_pad(
                        s.buffer@.map_values(|v: u16| v as int),
                        spec_u16_pad(info.pixel_pad),
                        0xFFFF,
                    )
                    &&& s.info.max_val == spec_max_skip_pad(
                        s.buffer@.map_values(|v: u16| v as int),
                        spec_u16_pad(info.pixel_pad),
                        0,
                    )
                },
                Err(e) => e is InvalidPixelSource && spec_samples(info) * 2
                    > info.pd_bytes@.len(),
            },
    {
        let n: usize = match sample_count(&info, 2) {
            Some(n) => n,
            None => {
                return Err(LoadError::InvalidPixelSource(info.pd_bytes.len()));
            },
        };
        let pad: Option<u16> = info.pixel_pad;
        let signed: bool = info.is_signed();
        let big_endian: bool = info.big_endian;
        let bytes = info.take_bytes();
        let blen: usize = bytes.len();
        assert(blen == bytes@.len() && bytes@.len() <= usize::MAX);
        let mut buffer: Vec<u16> = Vec::new();
        let mut min: u16 = 0xFFFF;
        let mut max: u16 = 0;
        let mut k: usize = 0;
        while k < n
            invariant
                0 <= k <= n,
                n * 2 <= bytes@.len() <= usize::MAX,
                buffer@.len() == k,
                forall|j: int|
                    0 <= j < k ==> #[trigger] buffer@[j] == spec_rgb16_sample(
                        bytes@,
                        j,
                        big_endian,
                        signed,
                    ),
                min == spec_min_skip_pad(
                    buffer@.map_values(|v: u16| v as int),
                    spec_u16_pad_val(pad),
                    0xFFFF,
                ),
                max == spec_max_skip_pad(
                    buffer@.map_values(|v: u16| v as int),
                    spec_u16_pad_val(pad),
                    0,
                ),
            decreases n - k,
        {
            assert(2 * (k as int) + 2 <= bytes@.len() && 2 * (k as int) <= usize::MAX)
                by (nonlinear_arith)
                requires
                    0 <= k < n,
                    n * 2 <= bytes@.len(),
                    bytes@.len() <= usize::MAX,
            ;
            let word: u16 = crate::bytes::read_u16(&bytes, 2 * k, big_endian);
            let val: u16 = if signed {
                let sv: i16 = if word >= 0x8000 {
                    ((word as i32) - 0x1_0000) as i16
                } else {
                    word as i16
                };
                shift_i16(sv)
            } else {
                word
            };
            assert(val as int == spec_rgb16_sample(bytes@, k as int, big_endian, signed));
            let ghost prev_map = buffer@.map_values(|v: u16| v as int);
            buffer.push(val);
            proof {
                let m = buffer@.map_values(|v: u16| v as int);
                assert(m =~= prev_map.push(val as int));
                assert(m.drop_last() =~= prev_map);
            }
            let skip: bool = match pad {
                Some(p) => val == p,
                None => false,
            };
            if !skip {
                if val < min {
                    min = val;
                }
                if val > max {
                    max = val;
                }
            }
            k += 1;
        }
        info.min_val = min as i64;
        info.max_val = max as i64;
        
        Ok(PixelDataSliceU16::new(info, buffer))
    }

    /// Narrows the samples to i16, handing back the description; a
    /// sample over the i16 maximum fails.
    pub fn into_i16(self) -> (r: Result<(PixelDataSliceInfo, Vec<i16>), LoadError>)
        ensures
            match r {
                Ok(p) => {
                    &&& p.0 == self.info
                    &&& p.1@.len() == self.buffer@.len()
                    &&& forall|k: int|
                        0 <= k < p.1@.len() ==> #[trigger] p.1@[k] == self.buffer@[k] as i16
                            && self.buffer@[k] <= 0x7FFF
                },
                Err(e) => e is PixelValueError && exists|k: int|
                    0 <= k < self.buffer@.len() && self.buffer@[k] > 0x7FFF,
            },
    {
        let n: usize = self.buffer.len();
        let mut out: Vec<i16> = Vec::new();
        let mut k: usize = 0;
        while k < n
            invariant
                0 <= k <= n,
                n == self.buffer@.len(),
                out@.len() == k,
                forall|j: int|
                    0 <= j < k ==> #[trigger] out@[j] == self.buffer@[j] as i16 && self.buffer@[j]
                        <= 0x7FFF,
            decreases n - k,
        {
            let v: u16 = self.buffer[k];
            if v > 0x7FFF {
                return Err(LoadError::PixelValueError(v as i64));
            }
            out.push(v as i16);
            k += 1;
        }
        Ok((self.info, out))
    }
}

/// The padding sentinel as an unsigned 16-bit value.
pub open spec fn spec_u16_pad(pad: Option<u16>) -> Option<int> {
    match pad {
        Some(p) => Some(p as int),
        None => None,
    }
}

/// A u16 padding option as a mathematical value.
pub open spec fn spec_u16_pad_val(pad: Option<u16>) -> Option<int> {
    spec_u16_pad(pad)
}


/// A decoded 32-bit monochrome slice.
pub struct PixelDataSliceI32 {
    pub info: PixelDataSliceInfo,
    pub buffer: Vec<i32>,
    pub stride: usize,
    pub interp_as_rgb: bool,
}

impl PixelDataSliceI32 {
    /// The slice's description.
    pub fn info(&self) -> (r: &PixelDataSliceInfo)
        ensures
            r == &self.info,
    {
        &self.info
    }

    /// The decoded samples.
    pub fn buffer(&self) -> (r: &Vec<i32>)
        ensures
            r == &self.buffer,
    {
        &self.buffer
    }

    /// The distance between two samples of one pixel.
    pub fn stride(&self) -> (r: usize)
        ensures
            r == self.stride,
    {
        self.stride
    }

    /// Wraps decoded samples with their description, computing the
    /// stride and whether the samples read as RGB.
    pub fn new(info: PixelDataSliceInfo, buffer: Vec<i32>) -> (r: PixelDataSliceI32)
        ensures
            r.info == info,
            r.buffer == buffer,
            r.stride == (if info.planar_config == 0 {
                1int
            } else if info.samples_per_pixel > 0 {
                buffer@.len() as int / info.samples_per_pixel as int
            } else {
                1int
            }),
            r.interp_as_rgb == (info.photo_interp == Some(PhotoInterp::Rgb)
                && info.samples_per_pixel == 3),
    {
        let stride: usize = if info.planar_config == 0 {
            1
        } else if info.samples_per_pixel > 0 {
            buffer.len() / (info.samples_per_pixel as usize)
        } else {
            1
        };
        let interp_as_rgb: bool = matches!(info.photo_interp, Some(PhotoInterp::Rgb))
            && info.samples_per_pixel == 3;
        PixelDataSliceI32 { info, buffer, stride, interp_as_rgb }
    }

    /// Decodes a 32-bit monochrome slice; each sample is
    /// `spec_mono32_sample` of the bytes, with the extrema recorded
    /// (padding skipped).
    pub fn from_mono_32bit(mut info: PixelDataSliceInfo) -> (r: Result<
        PixelDataSliceI32,
        LoadError,
    >)
        ensures
            match r {
                Ok(s) => {
                    &&& s.info.image_pos == info.image_pos
                    &&& s.info.series_uid@ == info.series_uid@
                    &&& s.info.pd_bytes@.len() == 0
                    &&& s.stride == (if info.planar_config == 0 {
                        1int
                    } else if info.samples_per_pixel > 0 {
                        s.buffer@.len() as int / info.samples_per_pixel as int
                    } else {
                        1int
                    })
                    &&& s.interp_as_rgb == (info.photo_interp == Some(PhotoInterp::Rgb)
                        && info.samples_per_pixel == 3)
                    &&& s.buffer@.len() == spec_samples(info)
                    &&& s.buffer@.len() * 4 <= info.pd_bytes@.len()
                    &&& forall|k: int|
                        0 <= k < s.buffer@.len() ==> #[trigger] s.buffer@[k] == spec_mono32_sample(
                            info.pd_bytes@,
                            k,
                            info.big_endian,
                            info.pixel_rep != 0,
                        )
                    &&& s.info.min_val == spec_min_skip_pad(
                        s.buffer@.map_values(|v: i32| v as int),
                        spec_i32_pad(info.pixel_pad),
                        0x7FFF_FFFF,
                    )
                    &&& s.info.max_val == spec_max_skip_pad(
                        s.buffer@.map_values(|v: i32| v as int),
                        spec_i32_pad(info.pixel_pad),
                        -0x8000_0000,
                    )
                },
                Err(e) => e is InvalidPixelSource && spec_samples(info) * 4
                    > info.pd_bytes@.len(),
            },
    {
        let n: usize = match sample_count(&info, 4) {
            Some(n) => n,
            None => {
                return Err(LoadError::InvalidPixelSource(info.pd_bytes.len()));
            },
        };
        let pad: Option<i32> = match info.pixel_pad {
            Some(p) => Some(p as i32),
            None => None,
        };
        let signed: bool = info.is_signed();
        let big_endian: bool = info.big_endian;
        let bytes = info.take_bytes();
        let blen: usize = bytes.len();
        assert(blen == bytes@.len() && bytes@.len() <= usize::MAX);
        let mut buffer: Vec<i32> = Vec::new();
        let mut min: i32 = 0x7FFF_FFFF;
        let mut max: i32 = -0x8000_0000;
        let mut k: usize = 0;
        while k < n
            invariant
                0 <= k <= n,
                n * 4 <= bytes@.len() <= usize::MAX,
                buffer@.len() == k,
                forall|j: int|
                    0 <= j < k ==> #[trigger] buffer@[j] == spec_mono32_sample(
                        bytes@,
                        j,
                        big_endian,
                        signed,
                    ),
                min == spec_min_skip_pad(
                    buffer@.map_values(|v: i32| v as int),
                    spec_i32_pad_val(pad),
                    0x7FFF_FFFF,
                ),
                max == spec_max_skip_pad(
                    buffer@.map_values(|v: i32| v as int),
                    spec_i32_pad_val(pad),
                    -0x8000_0000,
                ),
            decreases n - k,
        {
            assert(4 * (k as int) + 4 <= bytes@.len() && 4 * (k as int) <= usize::MAX)
                by (nonlinear_arith)
                requires
                    0 <= k < n,
                    n * 4 <= bytes@.len(),
                    bytes@.len() <= usize::MAX,
            ;
            let word: u32 = crate::bytes::read_u32(&bytes, 4 * k, big_endian);
            let val: i32 = if signed {
                if word >= 0x8000_0000 {
                    ((word as i64) - 0x1_0000_0000) as i32
                } else {
                    word as i32
                }
            } else if word > 0x7FFF_FFFF {
                0x7FFF_FFFF
            } else {
                word as i32
            };
            assert(val as int == spec_mono32_sample(bytes@, k as int, big_endian, signed));
            let ghost prev_map = buffer@.map_values(|v: i32| v as int);
            buffer.push(val);
            proof {
                let m = buffer@.map_values(|v: i32| v as int);
                assert(m =~= prev_map.push(val as int));
                assert(m.drop_last() =~= prev_map);
            }
            let skip: bool = match pad {
                Some(p) => val == p,
                None => false,
            };
            if !skip {
                if val < min {
                    min = val;
                }
                if val > max {
                    max = val;
                }
            }
            k += 1;
        }
        info.min_val = min as i64;
        info.max_val = max as i64;
        
        Ok(PixelDataSliceI32::new(info, buffer))
    }

    /// Narrows the samples to i16, handing back the description; a
    /// sample outside the i16 range fails.
    pub fn into_i16(self) -> (r: Result<(PixelDataSliceInfo, Vec<i16>), LoadError>)
        ensures
            match r {
                Ok(p) => {
                    &&& p.0 == self.info
                    &&& p.1@.len() == self.buffer@.len()
                    &&& forall|k: int|
                        0 <= k < p.1@.len() ==> #[trigger] p.1@[k] == self.buffer@[k] as i16
                            && -0x8000 <= self.buffer@[k] <= 0x7FFF
                },
                Err(e) => e is PixelValueError && exists|k: int|
                    0 <= k < self.buffer@.len() && !(-0x8000 <= #[trigger] self.buffer@[k]
                        <= 0x7FFF),
            },
    {
        let n: usize = self.buffer.len();
        let mut out: Vec<i16> = Vec::new();
        let mut k: usize = 0;
        while k < n
            invariant
                0 <= k <= n,
                n == self.buffer@.len(),
                out@.len() == k,
                forall|j: int|
                    0 <= j < k ==> #[trigger] out@[j] == self.buffer@[j] as i16 && -0x8000
                        <= self.buffer@[j] <= 0x7FFF,
            decreases n - k,
        {
            let v: i32 = self.buffer[k];
            if v < -0x8000 || v > 0x7FFF {
                return Err(LoadError::PixelValueError(v as i64));
            }
            out.push(v as i16);
            k += 1;
        }
        Ok((self.info, out))
    }
}

/// The padding sentinel as a signed 32-bit value.
pub open spec fn spec_i32_pad(pad: Option<u16>) -> Option<int> {
    match pad {
        Some(p) => Some(p as int),
        None => None,
    }
}

/// An i32 padding option as a mathematical value.
pub open spec fn spec_i32_pad_val(pad: Option<i32>) -> Option<int> {
    match pad {
        Some(p) => Some(p as int),
        None => None,
    }
}


/// A decoded 32-bit RGB slice.
pub struct PixelDataSliceU32 {
    pub info: PixelDataSliceInfo,
    pub buffer: Vec<u32>,
    pub stride: usize,
    pub interp_as_rgb: bool,
}

impl PixelDataSliceU32 {
    /// The slice's description.
    pub fn info(&self) -> (r: &PixelDataSliceInfo)
        ensures
            r == &self.info,
    {
        &self.info
    }

    /// The decoded samples.
    pub fn buffer(&self) -> (r: &Vec<u32>)
        ensures
            r == &self.buffer,
    {
        &self.buffer
    }

    /// The distance between two samples of one pixel.
    pub fn stride(&self) -> (r: usize)
        ensures
            r == self.stride,
    {
        self.stride
    }

    /// Wraps decoded samples with their description, computing the
    /// stride and whether the samples read as RGB.
    pub fn new(info: PixelDataSliceInfo, buffer: Vec<u32>) -> (r: PixelDataSliceU32)
        ensures
            r.info == info,
            r.buffer == buffer,
            r.stride == (if info.planar_config == 0 {
                1int
            } else if info.samples_per_pixel > 0 {
                buffer@.len() as int / info.samples_per_pixel as int
            } else {
                1int
            }),
            r.interp_as_rgb == (info.photo_interp == Some(PhotoInterp::Rgb)
                && info.samples_per_pixel == 3),
    {
        let stride: usize = if info.planar_config == 0 {
            1
        } else if info.samples_per_pixel > 0 {
            buffer.len() / (info.samples_per_pixel as usize)
        } else {
            1
        };
        let interp_as_rgb: bool = matches!(info.photo_interp, Some(PhotoInterp::Rgb))
            && info.samples_per_pixel == 3;
        PixelDataSliceU32 { info, buffer, stride, interp_as_rgb }
    }

    /// Decodes a 32-bit RGB slice; each sample is
    /// `spec_rgb32_sample` of the bytes, with the extrema recorded
    /// (padding skipped).
    pub fn from_rgb_32bit(mut info: PixelDataSliceInfo) -> (r: Result<
        PixelDataSliceU32,
        LoadError,
    >)
        ensures
            match r {
                Ok(s) => {
                    &&& s.info.image_pos == info.image_pos
                    &&& s.info.series_uid@ == info.series_uid@
                    &&& s.info.pd_bytes@.len() == 0
                    &&& s.stride == (if info.planar_config == 0 {
                        1int
                    } else if info.samples_per_pixel > 0 {
                        s.buffer@.len() as int / info.samples_per_pixel as int
                    } else {
                        1int
                    })
                    &&& s.interp_as_rgb == (info.photo_interp == Some(PhotoInterp::Rgb)
                        && info.samples_per_pixel == 3)
                    &&& s.buffer@.len() == spec_samples(info)
                    &&& s.buffer@.len() * 4 <= info.pd_bytes@.len()
                    &&& forall|k: int|
                        0 <= k < s.buffer@.len() ==> #[trigger] s.buffer@[k] == spec_rgb32_sample(
                            info.pd_bytes@,
                            k,
                            info.big_endian,
                            info.pixel_rep != 0,
                        )
                    &&& s.info.min_val == spec_min_skip_pad(
                        s.buffer@.map_values(|v: u32| v as int),
                        spec_u32_pad(info.pixel_pad),
                        0xFFFF_FFFF,
                    )
                    &&& s.info.max_val == spec_max_skip_pad(
                        s.buffer@.map_values(|v: u32| v as int),
                        spec_u32_pad(info.pixel_pad),
                        0,
                    )
                },
                Err(e) => e is InvalidPixelSource && spec_samples(info) * 4
                    > info.pd_bytes@.len(),
            },
    {
        let n: usize = match sample_count(&info, 4) {
            Some(n) => n,
            None => {
                return Err(LoadError::InvalidPixelSource(info.pd_bytes.len()));
            },
        };
        let pad: Option<u32> = match info.pixel_pad {
            Some(p) => Some(p as u32),
            None => None,
        };
        let signed: bool = info.is_signed();
        let big_endian: bool = info.big_endian;
        let bytes = info.take_bytes();
        let blen: usize = bytes.len();
        assert(blen == bytes@.len() && bytes@.len() <= usize::MAX);
        let mut buffer: Vec<u32> = Vec::new();
        let mut min: u32 = 0xFFFF_FFFF;
        let mut max: u32 = 0;
        let mut k: usize = 0;
        while k < n
            invariant
                0 <= k <= n,
                n * 4 <= bytes@.len() <= usize::MAX,
                buffer@.len() == k,
                forall|j: int|
                    0 <= j < k ==> #[trigger] buffer@[j] == spec_rgb32_sample(
                        bytes@,
                        j,
                        big_endian,
                        signed,
                    ),
                min == spec_min_skip_pad(
                    buffer@.map_values(|v: u32| v as int),
                    spec_u32_pad_val(pad),
                    0xFFFF_FFFF,
                ),
                max == spec_max_skip_pad(
                    buffer@.map_values(|v: u32| v as int),
                    spec_u32_pad_val(pad),
                    0,
                ),
            decreases n - k,
        {
            assert(4 * (k as int) + 4 <= bytes@.len() && 4 * (k as int) <= usize::MAX)
                by (nonlinear_arith)
                requires
                    0 <= k < n,
                    n * 4 <= bytes@.len(),
                    bytes@.len() <= usize::MAX,
            ;
            let word: u32 = crate::bytes::read_u32(&bytes, 4 * k, big_endian);
            let val: u32 = if signed {
                let sv: i32 = if word >= 0x8000_0000 {
                    ((word as i64) - 0x1_0000_0000) as i32
                } else {
                    word as i32
                };
                shift_i32(sv)
            } else {
                word
            };
            assert(val as int == spec_rgb32_sample(bytes@, k as int, big_endian, signed));
            let ghost prev_map = buffer@.map_values(|v: u32| v as int);
            buffer.push(val);
            proof {
                let m = buffer@.map_values(|v: u32| v as int);
                assert(m =~= prev_map.push(val as int));
                assert(m.drop_last() =~= prev_map);
            }
            let skip: bool = match pad {
                Some(p) => val == p,
                None => false,
            };
            if !skip {
                if val < min {
                    min = val;
                }
                if val > max {
                    max = val;
                }
            }
            k += 1;
        }
        info.min_val = min as i64;
        info.max_val = max as i64;
        
        Ok(PixelDataSliceU32::new(info, buffer))
    }

    /// Narrows the samples to i16, handing back the description; a
    /// sample over the i16 maximum fails.
    pub fn into_i16(self) -> (r: Result<(PixelDataSliceInfo, Vec<i16>), LoadError>)
        ensures
            match r {
                Ok(p) => {
                    &&& p.0 == self.info
                    &&& p.1@.len() == self.buffer@.len()
                    &&& forall|k: int|
                        0 <= k < p.1@.len() ==> #[trigger] p.1@[k] == self.buffer@[k] as i16
                            && self.buffer@[k] <= 0x7FFF
                },
                Err(e) => e is PixelValueError && exists|k: int|
                    0 <= k < self.buffer@.len() && self.buffer@[k] > 0x7FFF,
            },
    {
        let n: usize = self.buffer.len();
        let mut out: Vec<i16> = Vec::new();
        let mut k: usize = 0;
        while k < n
            invariant
                0 <= k <= n,
                n == self.buffer@.len(),
                out@.len() == k,
                forall|j: int|
                    0 <= j < k ==> #[trigger] out@[j] == self.buffer@[j] as i16 && self.buffer@[j]
                        <= 0x7FFF,
            decreases n - k,
        {
            let v: u32 = self.buffer[k];
            if v > 0x7FFF {
                return Err(LoadError::PixelValueError(v as i64));
            }
            out.push(v as i16);
            k += 1;
        }
        Ok((self.info, out))
    }
}

/// The padding sentinel as an unsigned 32-bit value.
pub open spec fn spec_u32_pad(pad: Option<u16>) -> Option<int> {
    match pad {
        Some(p) => Some(p as int),
        None => None,
    }
}

/// A u32 padding option as a mathematical value.
pub open spec fn spec_u32_pad_val(pad: Option<u32>) -> Option<int> {
    match pad {
        Some(p) => Some(p as int),
        None => None,
    }
}

/// A decoded slice: which variant holds is decided by the bit depth
/// and whether the samples are RGB.
pub enum PixelDataSlice {
    U8(PixelDataSliceU8),
    I16(PixelDataSliceI16),
    U16(PixelDataSliceU16),
    I32(PixelDataSliceI32),
    U32(PixelDataSliceU32),
}

impl PixelDataSlice {
    /// The slice's description, whichever variant holds it.
    pub fn info(&self) -> &PixelDataSliceInfo {
        match self {
            PixelDataSlice::U8(s) => s.info(),
            PixelDataSlice::I16(s) => s.info(),
            PixelDataSlice::U16(s) => s.info(),
            PixelDataSlice::I32(s) => s.info(),
            PixelDataSlice::U32(s) => s.info(),
        }
    }
}

impl PixelDataSliceInfo {
    /// Validates this description and decodes its bytes: RGB slices
    /// decode to the unsigned variant of their bit depth, monochrome
    /// slices to the signed variant (8-bit widened to 16). Succeeds
    /// exactly when validation passes and the bytes cover every
    /// sample.
    pub fn load_pixel_data(self) -> (r: Result<PixelDataSlice, LoadError>)
        ensures
            crate::pdinfo::spec_validate_err(self) is None && spec_samples(self)
                * spec_sample_bytes(self.bits_alloc) <= self.pd_bytes@.len() ==> r is Ok,
            match r {
                Ok(s) => {
                    &&& crate::pdinfo::spec_validate_err(self) is None
                    &&& (s is U8 <==> self.bits_alloc is Eight && spec_slice_rgb(self))
                    &&& (s is U16 <==> self.bits_alloc is Sixteen && spec_slice_rgb(self))
                    &&& (s is U32 <==> self.bits_alloc is ThirtyTwo && spec_slice_rgb(self))
                    &&& (s is I16 <==> (self.bits_alloc is Eight || self.bits_alloc is Sixteen)
                        && !spec_slice_rgb(self))
                    &&& (s is I32 <==> self.bits_alloc is ThirtyTwo && !spec_slice_rgb(self))
                },
                Err(err) => crate::pdinfo::spec_validate_err(self) == Some(err) || (err
                    is InvalidPixelSource && crate::pdinfo::spec_validate_err(self) is None
                    && spec_samples(self) * spec_sample_bytes(self.bits_alloc)
                    > self.pd_bytes@.len()),
            },
    {
        let mut this = self;
        match this.validate() {
            Ok(()) => (),
            Err(err) => {
                return Err(err);
            },
        }
        let rgb: bool = this.is_rgb();
        match (this.bits_alloc, rgb) {
            (BitsAlloc::Unsupported(val), _) => Err(LoadError::InvalidBitsAlloc(val)),
            (BitsAlloc::Eight, true) => Ok(
                PixelDataSlice::U8(PixelDataSliceU8::from_rgb_8bit(this)),
            ),
            (BitsAlloc::Eight, false) => match PixelDataSliceI16::from_mono_8bit(this) {
                Ok(s) => Ok(PixelDataSlice::I16(s)),
                Err(e) => Err(e),
            },
            (BitsAlloc::Sixteen, true) => match PixelDataSliceU16::from_rgb_16bit(this) {
                Ok(s) => Ok(PixelDataSlice::U16(s)),
                Err(e) => Err(e),
            },
            (BitsAlloc::Sixteen, false) => match PixelDataSliceI16::from_mono_16bit(this) {
                Ok(s) => Ok(PixelDataSlice::I16(s)),
                Err(e) => Err(e),
            },
            (BitsAlloc::ThirtyTwo, true) => match PixelDataSliceU32::from_rgb_32bit(this) {
                Ok(s) => Ok(PixelDataSlice::U32(s)),
                Err(e) => Err(e),
            },
            (BitsAlloc::ThirtyTwo, false) => match PixelDataSliceI32::from_mono_32bit(this) {
                Ok(s) => Ok(PixelDataSlice::I32(s)),
                Err(e) => Err(e),
            },
        }
    }
}

/// The width of one sample in bytes, per the bit depth.
pub open spec fn spec_sample_bytes(b: BitsAlloc) -> int {
    match b {
        BitsAlloc::Eight => 1,
        BitsAlloc::Sixteen => 2,
        BitsAlloc::ThirtyTwo => 4,
        BitsAlloc::Unsupported(_) => 1,
    }
}

/// Whether a description's samples are RGB triplets.
pub open spec fn spec_slice_rgb(info: PixelDataSliceInfo) -> bool {
    info.photo_interp == Some(PhotoInterp::Rgb) && info.samples_per_pixel == 3
}

} // verus!
