//! Loading support: the keys naming what is loaded, load progress
//! bookkeeping, and the volume geometry types. Distances are fixed-point
//! millimeters in thousandths.

use vstd::prelude::*;

verus! {

/// Distances within a hundredth of a millimeter count as equal when
/// slice geometry is compared.
pub const EPSILON_MILLIS: i64 = 10;

/// The magnitude every coordinate stays within, in thousandths of a
/// millimeter.
pub const COORD_BOUND: i64 = 0x100_0000_0000;

/// Names one loadable series.
#[derive(PartialEq, Eq, PartialOrd, Ord, Hash, Clone, Debug)]
pub struct LoadableKey {
    pub key: String,
}

impl LoadableKey {
    /// Wraps a series identifier as a loadable key.
    pub fn new(series_uid: String) -> (r: LoadableKey)
        ensures
            r.key@ == series_uid@,
    {
        LoadableKey { key: series_uid }
    }

    /// The identifier this key wraps.
    pub fn key(&self) -> (r: &str)
        ensures
            r@ == self.key@,
    {
        self.key.as_str()
    }
}

/// Names one chunk (one SOP instance) within a series.
#[derive(PartialEq, Eq, PartialOrd, Ord, Hash, Clone, Debug)]
pub struct LoadableChunkKey {
    pub chunk_key: String,
}

impl LoadableChunkKey {
    /// Wraps a chunk identifier.
    pub fn new(chunk_key: String) -> (r: LoadableChunkKey)
        ensures
            r.chunk_key@ == chunk_key@,
    {
        LoadableChunkKey { chunk_key }
    }

    /// The identifier this key wraps.
    pub fn chunk_key(&self) -> (r: &String)
        ensures
            r@ == self.chunk_key@,
    {
        &self.chunk_key
    }
}

/// Progress of loading one series: every chunk, those loaded, those
/// that failed.
pub struct SeriesSourceLoadResult {
    pub total: Vec<LoadableChunkKey>,
    pub loaded: Vec<LoadableChunkKey>,
    pub failed: Vec<LoadableChunkKey>,
}

impl SeriesSourceLoadResult {
    /// Starts progress over the given chunks, none loaded yet.
    pub fn new(total: Vec<LoadableChunkKey>) -> (r: SeriesSourceLoadResult)
        ensures
            r.total@ == total@,
            r.loaded@.len() == 0,
            r.failed@.len() == 0,
    {
        SeriesSourceLoadResult { total, loaded: Vec::new(), failed: Vec::new() }
    }

    /// Every chunk of the series.
    pub fn total(&self) -> (r: &Vec<LoadableChunkKey>)
        ensures
            r@ == self.total@,
    {
        &self.total
    }

    /// Records one chunk as loaded.
    pub fn add_loaded(&mut self, loaded: LoadableChunkKey)
        ensures
            final(self).loaded@ == old(self).loaded@.push(loaded),
            final(self).failed@ == old(self).failed@,
            final(self).total@ == old(self).total@,
    {
        self.loaded.push(loaded);
    }

    /// Records one chunk as failed.
    pub fn add_failed(&mut self, failed: LoadableChunkKey)
        ensures
            final(self).failed@ == old(self).failed@.push(failed),
            final(self).loaded@ == old(self).loaded@,
            final(self).total@ == old(self).total@,
    {
        self.failed.push(failed);
    }

    /// How many chunks the series has.
    pub fn num_total(&self) -> (r: usize)
        ensures
            r == self.total@.len(),
    {
        self.total.len()
    }

    /// How many chunks have loaded.
    pub fn num_loaded(&self) -> (r: usize)
        ensures
            r == self.loaded@.len(),
    {
        self.loaded.len()
    }

    /// How many chunks have failed.
    pub fn num_failed(&self) -> (r: usize)
        ensures
            r == self.failed@.len(),
    {
        self.failed.len()
    }
}

/// A voxel index within a volume.
#[derive(Clone, Copy, PartialEq, Eq, Structural, Debug)]
pub struct IndexVec {
    pub x: usize,
    pub y: usize,
    pub z: usize,
}

/// A point or extent in DICOM patient space, in thousandths of a
/// millimeter.
#[derive(Clone, Copy, PartialEq, Eq, Structural, Debug)]
pub struct MilliVec {
    pub x: i64,
    pub y: i64,
    pub z: i64,
}

/// Axes of an image volume. `Z` is the native plane of the datasets.
#[derive(Clone, Copy, PartialEq, Eq, Structural, Hash, Debug)]
pub enum VolAxis {
    X,
    Y,
    Z,
}

/// One pixel read out of a volume: its index and its red, green and
/// blue values in thousandths.
#[derive(Clone, Copy, PartialEq, Eq, Structural, Debug)]
pub struct VolPixel {
    pub coord: IndexVec,
    pub r: i64,
    pub g: i64,
    pub b: i64,
}

/// A volume's geometry: its origin (top-left of the lowest slice), the
/// voxel counts per axis, and the voxel spacing.
#[derive(Clone, Copy, PartialEq, Eq, Structural, Debug)]
pub struct VolDims {
    pub origin: MilliVec,
    pub counts: IndexVec,
    pub voxel_dims: MilliVec,
}

/// Whether two spacings agree within a hundredth of a millimeter.
pub open spec fn spec_dim_close(a: i64, b: i64) -> bool {
    -EPSILON_MILLIS < a - b < EPSILON_MILLIS
}

impl VolDims {
    /// Builds a geometry from its parts.
    pub fn new(origin: MilliVec, counts: IndexVec, voxel_dims: MilliVec) -> (r: VolDims)
        ensures
            r.origin == origin,
            r.counts == counts,
            r.voxel_dims == voxel_dims,
    {
        VolDims { origin, counts, voxel_dims }
    }

    /// Whether a spacing value is valid: strictly positive.
    pub fn is_valid_dim(dim: i64) -> (r: bool)
        ensures
            r == (dim > 0),
    {
        dim > 0
    }

    /// The volume's origin.
    pub fn origin(&self) -> (r: MilliVec)
        ensures
            r == self.origin,
    {
        self.origin
    }

    /// The voxel counts per axis.
    pub fn counts(&self) -> (r: IndexVec)
        ensures
            r == self.counts,
    {
        self.counts
    }

    /// The voxel spacing.
    pub fn voxel_dims(&self) -> (r: MilliVec)
        ensures
            r == self.voxel_dims,
    {
        self.voxel_dims
    }

    /// Counts one more slice along the z axis.
    pub fn inc_z_count(&mut self)
        requires
            old(self).counts.z < usize::MAX,
        ensures
            final(self).counts.z == old(self).counts.z + 1,
            final(self).counts.x == old(self).counts.x,
            final(self).counts.y == old(self).counts.y,
            final(self).origin == old(self).origin,
            final(self).voxel_dims == old(self).voxel_dims,
    {
        self.counts.z = self.counts.z + 1;
    }

    /// Moves the origin, as the lowest slice changes.
    pub fn set_origin(&mut self, origin: MilliVec)
        ensures
            final(self).origin == origin,
            final(self).counts == old(self).counts,
            final(self).voxel_dims == old(self).voxel_dims,
    {
        self.origin = origin;
    }

    /// Whether another geometry matches this one: equal x/y counts and
    /// voxel spacing within a hundredth of a millimeter. The z count and
    /// the origin are not compared: a single SOP cannot determine them.
    pub fn matches(&self, other: &VolDims) -> (r: bool)
        requires
            -COORD_BOUND <= self.voxel_dims.x <= COORD_BOUND,
            -COORD_BOUND <= self.voxel_dims.y <= COORD_BOUND,
            -COORD_BOUND <= self.voxel_dims.z <= COORD_BOUND,
            -COORD_BOUND <= other.voxel_dims.x <= COORD_BOUND,
            -COORD_BOUND <= other.voxel_dims.y <= COORD_BOUND,
            -COORD_BOUND <= other.voxel_dims.z <= COORD_BOUND,
        ensures
            r == (self.counts.x == other.counts.x && self.counts.y == other.counts.y
                && spec_dim_close(self.voxel_dims.x, other.voxel_dims.x) && spec_dim_close(
                self.voxel_dims.y,
                other.voxel_dims.y,
            ) && spec_dim_close(self.voxel_dims.z, other.voxel_dims.z)),
    {
        let dx: i64 = self.voxel_dims.x - other.voxel_dims.x;
        let dy: i64 = self.voxel_dims.y - other.voxel_dims.y;
        let dz: i64 = self.voxel_dims.z - other.voxel_dims.z;
        self.counts.x == other.counts.x && self.counts.y == other.counts.y && -EPSILON_MILLIS < dx
            && dx < EPSILON_MILLIS && -EPSILON_MILLIS < dy && dy < EPSILON_MILLIS
            && -EPSILON_MILLIS < dz && dz < EPSILON_MILLIS
    }

    /// The patient-space coordinate of a voxel: the origin plus the
    /// index scaled by the voxel spacing, component-wise.
    pub fn coordinate(&self, pos: IndexVec) -> (r: MilliVec)
        requires
            pos.x <= 0x3F_FFFF,
            pos.y <= 0x3F_FFFF,
            pos.z <= 0x3F_FFFF,
            -COORD_BOUND <= self.origin.x <= COORD_BOUND,
            -COORD_BOUND <= self.origin.y <= COORD_BOUND,
            -COORD_BOUND <= self.origin.z <= COORD_BOUND,
            -COORD_BOUND <= self.voxel_dims.x <= COORD_BOUND,
            -COORD_BOUND <= self.voxel_dims.y <= COORD_BOUND,
            -COORD_BOUND <= self.voxel_dims.z <= COORD_BOUND,
        ensures
            r.x == self.origin.x + pos.x * self.voxel_dims.x,
            r.y == self.origin.y + pos.y * self.voxel_dims.y,
            r.z == self.origin.z + pos.z * self.voxel_dims.z,
    {
        proof {
            lemma_scale_bound(pos.x as int, self.voxel_dims.x as int);
            lemma_scale_bound(pos.y as int, self.voxel_dims.y as int);
            lemma_scale_bound(pos.z as int, self.voxel_dims.z as int);
        }
        MilliVec {
            x: self.origin.x + (pos.x as i64) * self.voxel_dims.x,
            y: self.origin.y + (pos.y as i64) * self.voxel_dims.y,
            z: self.origin.z + (pos.z as i64) * self.voxel_dims.z,
        }
    }
}

/// A voxel index scaled by a bounded spacing stays well within the
/// 64-bit range: the index bound and the coordinate bound together
/// keep the product under two to the sixty-second.
proof fn lemma_scale_bound(i: int, d: int)
    requires
        0 <= i <= 0x3F_FFFF,
        -COORD_BOUND <= d <= COORD_BOUND,
    ensures
        -0x4000_0000_0000_0000 <= i * d <= 0x4000_0000_0000_0000,
{
    assert(-0x4000_0000_0000_0000 <= i * d <= 0x4000_0000_0000_0000)
        by (nonlinear_arith)
        requires
            0 <= i <= 0x3F_FFFF,
            -COORD_BOUND <= d <= COORD_BOUND,
    ;
}

} // verus!
