//! The multi-layer scent field.
//!
//! `layer_count` layers, each a `width x height` grid of non-negative
//! intensities, held row-major in one flat buffer. Two such fields form the
//! double buffer whose read and write roles swap every frame; the swap is
//! an index flip in the orchestrator, never a copy. Cell values have no
//! upper bound of their own: deposits accumulate and only saturation at the
//! machine limit caps them.

use vstd::prelude::*;
use crate::config::{MAX_FIELD_EDGE, MAX_LAYERS};

verus! {

/// A flat row-major index lies inside the buffer.
pub proof fn lemma_cell_index_bounds(w: int, h: int, lay: int, l: int, x: int, y: int)
    by (nonlinear_arith)
    requires
        1 <= w,
        1 <= h,
        1 <= lay,
        0 <= l < lay,
        0 <= x < w,
        0 <= y < h,
    ensures
        0 <= (l * h + y) * w + x < lay * h * w,
        0 <= l * h + y,
        l * h <= (l * h + y) * w + x,
        l * h + y <= (l * h + y) * w + x,
{
}

/// Distinct cells have distinct flat indices.
pub proof fn lemma_cell_index_distinct(
    w: int,
    h: int,
    l1: int,
    x1: int,
    y1: int,
    l2: int,
    x2: int,
    y2: int,
)
    by (nonlinear_arith)
    requires
        1 <= w,
        1 <= h,
        0 <= l1,
        0 <= l2,
        0 <= x1 < w,
        0 <= x2 < w,
        0 <= y1 < h,
        0 <= y2 < h,
        !(l1 == l2 && x1 == x2 && y1 == y2),
    ensures
        (l1 * h + y1) * w + x1 != (l2 * h + y2) * w + x2,
{
}

/// The multi-layer scent grid.
pub struct PheromoneField {
    pub data: Vec<u32>,
    pub width: u32,
    pub height: u32,
    pub layers: u32,
}

impl PheromoneField {
    /// Structural validity: bounded dimensions and a buffer of exactly one
    /// entry per cell.
    pub open spec fn wf(self) -> bool {
        1 <= self.width <= MAX_FIELD_EDGE && 1 <= self.height <= MAX_FIELD_EDGE && 1
            <= self.layers <= MAX_LAYERS && self.data@.len() == self.layers * self.height
            * self.width
    }

    /// The flat index of cell `(x, y)` of layer `l`.
    pub open spec fn index(self, l: int, x: int, y: int) -> int {
        (l * self.height + y) * self.width + x
    }

    /// The cell coordinates name a cell.
    pub open spec fn cell_in_bounds(self, l: int, x: int, y: int) -> bool {
        0 <= l < self.layers && 0 <= x < self.width && 0 <= y < self.height
    }

    /// The intensity at cell `(x, y)` of layer `l`.
    pub open spec fn at(self, l: int, x: int, y: int) -> u32 {
        self.data@[self.index(l, x, y)]
    }

    /// Both fields have the same shape.
    pub open spec fn same_dims(self, other: PheromoneField) -> bool {
        self.width == other.width && self.height == other.height && self.layers == other.layers
    }

    /// Every cell of every layer is zero.
    pub open spec fn all_zero(self) -> bool {
        forall|l: int, x: int, y: int|
            self.cell_in_bounds(l, x, y) ==> self.at(l, x, y) == 0
    }

    /// Allocate a field of the given shape with every cell zero.
    pub fn new_field(width: u32, height: u32, layers: u32) -> (f: PheromoneField)
        requires
            1 <= width <= MAX_FIELD_EDGE,
            1 <= height <= MAX_FIELD_EDGE,
            1 <= layers <= MAX_LAYERS,
        ensures
            f.wf(),
            f.width == width,
            f.height == height,
            f.layers == layers,
            f.all_zero(),
    {
        proof {
            assert((layers as int) * (height as int) <= 256 * 2048 && (layers as int) * (
            height as int) * (width as int) <= 256 * 2048 * 2048) by (nonlinear_arith)
                requires
                    1 <= layers <= 256,
                    1 <= height <= 2048,
                    1 <= width <= 2048,
            ;
        }
        let total: usize = (layers as usize) * (height as usize) * (width as usize);
        let mut data: Vec<u32> = Vec::new();
        let mut i: usize = 0;
        while i < total
            invariant
                i <= total,
                data@.len() == i,
                forall|j: int| 0 <= j < i ==> data@[j] == 0,
            decreases total - i,
        {
            data.push(0);
            i = i + 1;
        }
        let f = PheromoneField { data, width, height, layers };
        proof {
            assert forall|l: int, x: int, y: int|
                f.cell_in_bounds(l, x, y) implies f.at(l, x, y) == 0 by {
                lemma_cell_index_bounds(
                    width as int,
                    height as int,
                    layers as int,
                    l,
                    x,
                    y,
                );
            }
        }
        f
    }

    /// Read one cell.
    pub fn get(&self, l: u32, x: u32, y: u32) -> (v: u32)
        requires
            self.wf(),
            l < self.layers,
            x < self.width,
            y < self.height,
        ensures
            v == self.at(l as int, x as int, y as int),
    {
        let _n: usize = self.data.len();
        proof {
            lemma_cell_index_bounds(
                self.width as int,
                self.height as int,
                self.layers as int,
                l as int,
                x as int,
                y as int,
            );
        }
        let idx: usize = ((l as usize) * (self.height as usize) + (y as usize)) * (
        self.width as usize) + (x as usize);
        self.data[idx]
    }

    /// Write one cell, leaving every other cell of every layer unchanged.
    pub fn set(&mut self, l: u32, x: u32, y: u32, v: u32)
        requires
            old(self).wf(),
            l < old(self).layers,
            x < old(self).width,
            y < old(self).height,
        ensures
            final (self).wf(),
            final (self).same_dims(*old(self)),
            final (self).data@ == old(self).data@.update(
                old(self).index(l as int, x as int, y as int),
                v,
            ),
            final (self).at(l as int, x as int, y as int) == v,
            forall|l2: int, x2: int, y2: int|
                final (self).cell_in_bounds(l2, x2, y2) && !(l2 == l && x2 == x && y2 == y)
                    ==> final (self).at(l2, x2, y2) == old(self).at(l2, x2, y2),
    {
        let _n: usize = self.data.len();
        proof {
            lemma_cell_index_bounds(
                self.width as int,
                self.height as int,
                self.layers as int,
                l as int,
                x as int,
                y as int,
            );
        }
        let idx: usize = ((l as usize) * (self.height as usize) + (y as usize)) * (
        self.width as usize) + (x as usize);
        self.data[idx] = v;
        proof {
            assert forall|l2: int, x2: int, y2: int|
                self.cell_in_bounds(l2, x2, y2) && !(l2 == l as int && x2 == x as int && y2
                    == y as int) implies self.at(l2, x2, y2) == old(self).at(l2, x2, y2) by {
                lemma_cell_index_bounds(
                    self.width as int,
                    self.height as int,
                    self.layers as int,
                    l2,
                    x2,
                    y2,
                );
                lemma_cell_index_distinct(
                    self.width as int,
                    self.height as int,
                    l2,
                    x2,
                    y2,
                    l as int,
                    x as int,
                    y as int,
                );
            }
        }
    }
}

/// Allocate the double-buffer pair of field copies ("previous" and
/// "next"), each all-zero, one layer per scent channel.
pub fn make_pheromone_array_images(width: u32, height: u32, layers: u32) -> (pair: (
    PheromoneField,
    PheromoneField,
))
    requires
        1 <= width <= MAX_FIELD_EDGE,
        1 <= height <= MAX_FIELD_EDGE,
        1 <= layers <= MAX_LAYERS,
    ensures
        pair.0.wf(),
        pair.1.wf(),
        pair.0.same_dims(pair.1),
        pair.0.width == width,
        pair.0.height == height,
        pair.0.layers == layers,
        pair.0.all_zero(),
        pair.1.all_zero(),
{
    let prev = PheromoneField::new_field(width, height, layers);
    let next = PheromoneField::new_field(width, height, layers);
    (prev, next)
}

} // verus!
