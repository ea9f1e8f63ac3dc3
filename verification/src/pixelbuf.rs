//! Pixel buffers addressed sample-by-sample: 8-bit signed buffers with
//! normalization into the display range, and the typed pixels wider
//! buffers hand out.

use vstd::prelude::*;

use crate::pdinfo::PixelDataSliceInfo;
use crate::pixeldata::{LoadError, PhotoInterp};

verus! {

/// One 8-bit signed pixel: its position and channels.
#[derive(Clone, Copy, PartialEq, Eq, Structural, Debug)]
pub struct PixelI8 {
    pub x: usize,
    pub y: usize,
    pub r: i8,
    pub g: i8,
    pub b: i8,
}

/// One 16-bit unsigned pixel: its position and channels.
#[derive(Clone, Copy, PartialEq, Eq, Structural, Debug)]
pub struct PixelU16 {
    pub x: usize,
    pub y: usize,
    pub z: usize,
    pub r: u16,
    pub g: u16,
    pub b: u16,
}

/// One 32-bit unsigned pixel: its position and channels.
#[derive(Clone, Copy, PartialEq, Eq, Structural, Debug)]
pub struct PixelU32 {
    pub x: usize,
    pub y: usize,
    pub z: usize,
    pub r: u32,
    pub g: u32,
    pub b: u32,
}

/// A buffer of 8-bit signed samples with its recorded extrema.
pub struct PixelDataBufferI8 {
    pub info: PixelDataSliceInfo,
    pub buffer: Vec<i8>,
    pub min: i8,
    pub max: i8,
    pub stride: usize,
    pub interp_as_rgb: bool,
}

/// Normalizing a sample into the non-negative i8 range: the sample's
/// position between the extrema scaled to 0..=127, inverted for
/// MONOCHROME1 where the least value displays white.
pub open spec fn spec_normalize_i8(min: i8, max: i8, mono1: bool, val: i8) -> int {
    let clamped = if val < min {
        min as int
    } else if val > max {
        max as int
    } else {
        val as int
    };
    let scaled = if max <= min {
        0int
    } else {
        (clamped - min) * 127 / (max - min)
    };
    if mono1 {
        -1 - scaled
    } else {
        scaled
    }
}

/// The pixel a buffer holds at a sample index: `None` exactly when
/// the index is past the samples, unaligned with a pixel boundary,
/// without room for all three channels, or the geometry is
/// degenerate.
pub open spec fn spec_buf_pixel(b: PixelDataBufferI8, idx: int) -> Option<
    (int, int, int, int, int),
> {
    let len = b.buffer@.len() as int;
    let samples = b.info.samples_per_pixel as int;
    if idx >= len || samples == 0 || (b.info.planar_config == 0 && idx % samples != 0) || (
    b.info.planar_config != 0 && idx >= len / samples) || b.info.cols == 0 {
        None
    } else {
        let dst = if b.interp_as_rgb && b.info.planar_config == 0 {
            idx / samples
        } else {
            idx
        };
        let x = dst % (b.info.cols as int);
        let y = dst / (b.info.cols as int);
        if b.interp_as_rgb {
            if idx + 2 * b.stride >= len {
                None
            } else {
                Some(
                    (x, y, b.buffer@[idx] as int, b.buffer@[idx + b.stride] as int, b.buffer@[idx
                        + 2 * b.stride] as int),
                )
            }
        } else {
            let v = spec_normalize_i8(
                b.min,
                b.max,
                b.info.photo_interp == Some(PhotoInterp::Monochrome1),
                b.buffer@[idx],
            );
            Some((x, y, v, v, v))
        }
    }
}

impl PixelDataBufferI8 {
    /// Wraps samples with their description and extrema, computing the
    /// stride and whether the samples read as RGB.
    pub fn new(info: PixelDataSliceInfo, buffer: Vec<i8>, min: i8, max: i8) -> (r:
        PixelDataBufferI8)
        ensures
            r.info == info,
            r.buffer == buffer,
            r.min == min,
            r.max == max,
            r.stride == (if info.planar_config == 0 {
                1int
            } else if info.samples_per_pixel > 0 {
                buffer@.len() as int / info.samples_per_pixel as int
            } else {
                1int
            }),
            r.interp_as_rgb == (info.photo_interp == Some(PhotoInterp::Rgb)
                && info.samples_per_pixel == 3),
    {
        let stride: usize = if info.planar_config == 0 {
            1
        } else if info.samples_per_pixel > 0 {
            buffer.len() / (info.samples_per_pixel as usize)
        } else {
            1
        };
        let interp_as_rgb: bool = matches!(info.photo_interp, Some(PhotoInterp::Rgb))
            && info.samples_per_pixel == 3;
        PixelDataBufferI8 { info, buffer, min, max, stride, interp_as_rgb }
    }

    /// The buffer's description.
    pub fn info(&self) -> (r: &PixelDataSliceInfo)
        ensures
            r == &self.info,
    {
        &self.info
    }

    /// The samples.
    pub fn buffer(&self) -> (r: &Vec<i8>)
        ensures
            r == &self.buffer,
    {
        &self.buffer
    }

    /// The distance between two samples of one pixel.
    pub fn stride(&self) -> (r: usize)
        ensures
            r == self.stride,
    {
        self.stride
    }

    /// Normalizes a sample into the non-negative i8 range between the
    /// recorded extrema, inverted for MONOCHROME1.
    pub fn normalize(&self, val: i8) -> (r: i8)
        ensures
            r == spec_normalize_i8(
                self.min,
                self.max,
                self.info.photo_interp == Some(PhotoInterp::Monochrome1),
                val,
            ),
    {
        let clamped: i8 = if val < self.min {
            self.min
        } else if val > self.max {
            self.max
        } else {
            val
        };
        let scaled: i8 = if self.max <= self.min {
            0
        } else {
            let num: i32 = ((clamped as i32) - (self.min as i32)) * 127;
            let den: i32 = (self.max as i32) - (self.min as i32);
            proof {
                assert(num <= 127 * den) by (nonlinear_arith)
                    requires
                        num == (clamped - self.min) * 127,
                        den == self.max - self.min,
                        0 <= clamped - self.min <= den,
                ;
                assert(0 <= num / den <= 127) by (nonlinear_arith)
                    requires
                        0 < den,
                        0 <= num <= 127 * den,
                ;
            }
            (num / den) as i8
        };
        if matches!(self.info.photo_interp, Some(PhotoInterp::Monochrome1)) {
            -1 - scaled
        } else {
            scaled
        }
    }

    /// The pixel whose first sample sits at `src_byte_index`: exactly
    /// the indices `spec_buf_pixel` maps succeed — one past the
    /// samples, unaligned with a pixel boundary, or without room for
    /// all three channels is invalid.
    pub fn get_pixel(&self, src_byte_index: usize) -> (r: Result<PixelI8, LoadError>)
        ensures
            match spec_buf_pixel(*self, src_byte_index as int) {
                Some(t) => r matches Ok(p) && p.x == t.0 && p.y == t.1 && p.r == t.2 && p.g
                    == t.3 && p.b == t.4,
                None => r is Err,
            },
    {
        let len: usize = self.buffer.len();
        let samples: usize = self.info.samples_per_pixel as usize;
        if src_byte_index >= len {
            return Err(LoadError::InvalidPixelSource(src_byte_index));
        }
        if self.info.planar_config == 0 {
            if samples == 0 || src_byte_index % samples != 0 {
                return Err(LoadError::InvalidPixelSource(src_byte_index));
            }
        } else {
            if samples == 0 || src_byte_index >= len / samples {
                return Err(LoadError::InvalidPixelSource(src_byte_index));
            }
        }

        let mut dst_pixel_index: usize = src_byte_index;
        if self.interp_as_rgb && self.info.planar_config == 0 {
            dst_pixel_index = dst_pixel_index / samples;
        }
        let cols: usize = self.info.cols as usize;
        if cols == 0 {
            return Err(LoadError::InvalidPixelSource(src_byte_index));
        }
        let x: usize = dst_pixel_index % cols;
        let y: usize = dst_pixel_index / cols;

        if self.interp_as_rgb {
            if self.stride > len || src_byte_index >= len - self.stride || self.stride > len
                - self.stride || src_byte_index >= len - self.stride - self.stride {
                assert(src_byte_index + 2 * self.stride >= len);
                return Err(LoadError::InvalidPixelSource(src_byte_index));
            }
            assert(src_byte_index + 2 * self.stride < len);
            let r: i8 = self.buffer[src_byte_index];
            let g: i8 = self.buffer[src_byte_index + self.stride];
            let b: i8 = self.buffer[src_byte_index + self.stride + self.stride];
            assert(src_byte_index + self.stride + self.stride == src_byte_index + 2 * self.stride);
            Ok(PixelI8 { x, y, r, g, b })
        } else {
            let val: i8 = self.normalize(self.buffer[src_byte_index]);
            Ok(PixelI8 { x, y, r: val, g: val, b: val })
        }
    }

    /// Starts an iterator over the buffer's pixels.
    pub fn pixel_iter<'a>(&'a self) -> (r: PixelDataBufferI8Iter<'a>)
        ensures
            r.pdbuf == self,
            r.src_byte_index == 0,
    {
        PixelDataBufferI8Iter { pdbuf: self, src_byte_index: 0 }
    }
}

/// Walks a buffer pixel by pixel: interleaved RGB advances a whole
/// pixel at a time, anything else one sample at a time.
pub struct PixelDataBufferI8Iter<'a> {
    pub pdbuf: &'a PixelDataBufferI8,
    pub src_byte_index: usize,
}

impl<'a> PixelDataBufferI8Iter<'a> {
    /// The next pixel, or `None` past the end of the buffer: what
    /// `spec_buf_pixel` maps at the current index, which then advances
    /// by one pixel (a whole sample triplet for interleaved RGB).
    pub fn next(&mut self) -> (r: Option<PixelI8>)
        ensures
            final(self).pdbuf == old(self).pdbuf,
            ({
                let step = if old(self).pdbuf.interp_as_rgb && old(self).pdbuf.info.planar_config
                    == 0 {
                    old(self).pdbuf.info.samples_per_pixel as int
                } else {
                    1int
                };
                old(self).src_byte_index + step <= usize::MAX ==> final(self).src_byte_index
                    == old(self).src_byte_index + step
            }),
            match spec_buf_pixel(*old(self).pdbuf, old(self).src_byte_index as int) {
                Some(t) => r matches Some(p) && p.x == t.0 && p.y == t.1 && p.r == t.2 && p.g
                    == t.3 && p.b == t.4,
                None => r is None,
            },
    {
        let pixel = self.pdbuf.get_pixel(self.src_byte_index);
        let samples: usize = self.pdbuf.info.samples_per_pixel as usize;
        let step: usize = if self.pdbuf.interp_as_rgb && self.pdbuf.info.planar_config == 0 {
            samples
        } else {
            1
        };
        if self.src_byte_index <= usize::MAX - step {
            self.src_byte_index = self.src_byte_index + step;
        }
        match pixel {
            Ok(p) => Some(p),
            Err(_) => None,
        }
    }
}

} // verus!
