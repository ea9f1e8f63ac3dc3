//! Window/level: the center/width mapping of raw values onto an output
//! range (PS3.3 C.11.2.1.2.1). Every quantity here is a fixed-point
//! value in thousandths of a unit.

use vstd::prelude::*;

verus! {

/// The magnitude every window/level quantity stays within: a million
/// units, in thousandths.
pub const WL_BOUND: i64 = 0x100_0000_0000;

/// A window/level that maps values from one scale to another. All five
/// quantities are in thousandths of a unit.
#[derive(Clone, Debug, PartialEq)]
pub struct WindowLevel {
    pub name: Vec<u8>,
    pub center: i64,
    pub width: i64,
    pub out_min: i64,
    pub out_max: i64,
}

/// Whether a window/level's quantities are in range for `apply`: a
/// width of at least one unit, an ordered output range, and magnitudes
/// within `WL_BOUND`.
pub open spec fn spec_wl_valid(center: i64, width: i64, out_min: i64, out_max: i64) -> bool {
    &&& width >= 1000
    &&& out_min <= out_max
    &&& -WL_BOUND <= center <= WL_BOUND
    &&& width <= WL_BOUND
    &&& -WL_BOUND <= out_min <= WL_BOUND
    &&& -WL_BOUND <= out_max <= WL_BOUND
}

/// The window mapping: with effective center `c - 1/2` and effective
/// width `w - 1`, a value at or below the lower edge yields the output
/// minimum, one above the upper edge the output maximum, and one within
/// the window its linear remap, truncated to a thousandth.
pub open spec fn spec_wl_apply(
    center: int,
    width: int,
    out_min: int,
    out_max: int,
    value: int,
) -> int {
    let c2 = 2 * center - 1000;
    let w1 = width - 1000;
    if 2 * value <= c2 - w1 {
        out_min
    } else if 2 * value > c2 + w1 {
        out_max
    } else {
        (2 * value - c2 + w1) * (out_max - out_min) / (2 * w1) + out_min
    }
}

impl WindowLevel {
    /// Builds a window/level; all quantities in thousandths.
    pub fn new(name: Vec<u8>, center: i64, width: i64, out_min: i64, out_max: i64) -> (r:
        WindowLevel)
        ensures
            r.name@ == name@,
            r.center == center,
            r.width == width,
            r.out_min == out_min,
            r.out_max == out_max,
    {
        WindowLevel { name, center, width, out_min, out_max }
    }

    /// Whether this window/level is in range for `apply`.
    pub fn is_valid(&self) -> (r: bool)
        ensures
            r == spec_wl_valid(self.center, self.width, self.out_min, self.out_max),
    {
        self.width >= 1000 && self.out_min <= self.out_max && -WL_BOUND <= self.center
            && self.center <= WL_BOUND && self.width <= WL_BOUND && -WL_BOUND <= self.out_min
            && self.out_min <= WL_BOUND && -WL_BOUND <= self.out_max && self.out_max <= WL_BOUND
    }

    /// The same window over another output range.
    pub fn with_out(&self, out_min: i64, out_max: i64) -> (r: WindowLevel)
        ensures
            r.name@ == self.name@,
            r.center == self.center,
            r.width == self.width,
            r.out_min == out_min,
            r.out_max == out_max,
    {
        WindowLevel {
            name: crate::bytes::clone_bytes(&self.name),
            center: self.center,
            width: self.width,
            out_min: out_min,
            out_max: out_max,
        }
    }

    /// Converts a value (in thousandths) to this window/level.
    pub fn apply(&self, value: i64) -> (r: i64)
        requires
            spec_wl_valid(self.center, self.width, self.out_min, self.out_max),
            -WL_BOUND <= value <= WL_BOUND,
        ensures
            r == spec_wl_apply(
                self.center as int,
                self.width as int,
                self.out_min as int,
                self.out_max as int,
                value as int,
            ),
            self.out_min <= r <= self.out_max,
    {
        let c2: i64 = 2 * self.center - 1000;
        let w1: i64 = self.width - 1000;
        if 2 * value <= c2 - w1 {
            self.out_min
        } else if 2 * value > c2 + w1 {
            self.out_max
        } else {
            let num_i: i64 = 2 * value - c2 + w1;
            let range_i: i64 = self.out_max - self.out_min;
            let den_i: i64 = 2 * w1;
            assert(0 < num_i <= den_i);
            assert(0 <= range_i);
            let num: u128 = num_i as u128;
            let range: u128 = range_i as u128;
            let den: u128 = den_i as u128;
            assert(num * range < 0x1_0000_0000_0000_0000_0000_0000_0000_0000)
                by (nonlinear_arith)
                requires
                    num < 0x8000_0000_0000_0000,
                    range < 0x8000_0000_0000_0000,
            ;
            let scaled_u: u128 = num * range / den;
            assert(scaled_u <= range) by (nonlinear_arith)
                requires
                    0 < num <= den,
                    scaled_u == num * range / (den as int),
            ;
            let scaled: i64 = scaled_u as i64;
            let r: i64 = scaled + self.out_min;
            assert(r == spec_wl_apply(
                self.center as int,
                self.width as int,
                self.out_min as int,
                self.out_max as int,
                value as int,
            ));
            r
        }
    }
}

/// Applying a window/level at the window's edges reaches the ends of
/// the output range: the value half a width below the center yields the
/// output minimum, and the value half a width above it the output
/// maximum.
pub proof fn lemma_wl_edges(center: int, width: int, out_min: int, out_max: int)
    requires
        width >= 1000,
        out_min <= out_max,
        width % 2 == 0,
    ensures
        spec_wl_apply(center, width, out_min, out_max, center - width / 2) == out_min,
        spec_wl_apply(center, width, out_min, out_max, center + width / 2) == out_max,
{
}

} // verus!
