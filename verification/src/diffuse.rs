//! The per-layer diffusion and decay pass.
//!
//! For every cell of every layer the pass blends the cell with the average
//! of its 3x3 in-bounds neighbourhood by the layer's per-frame diffusion
//! factor, then attenuates it by the layer's per-frame decay factor. It
//! reads one whole field (the read copy of the double buffer) and produces
//! the next contents of the write copy; the contract pins every output cell
//! to [`diffused_cell`]. Averaging over the in-bounds neighbourhood keeps
//! the blend approximately mass-conserving, and a zero field stays zero
//! ([`lemma_zero_field_stays_zero`]).

use vstd::prelude::*;
use crate::field::{lemma_cell_index_bounds, lemma_cell_index_distinct, PheromoneField};
use crate::rates::RATE_ONE;
use crate::species::ColorFp;

verus! {

/// Per-layer parameters: the per-frame diffusion and decay factors (scaled
/// by [`RATE_ONE`]) and the layer's display colour.
#[derive(Clone, Copy, PartialEq, Eq, Structural, Debug)]
pub struct PheromoneLayerParam {
    pub diffusion: u32,
    pub decay: u32,
    pub color: ColorFp,
}

impl PheromoneLayerParam {
    /// Factors are unit fractions.
    pub open spec fn wf(self) -> bool {
        self.diffusion <= RATE_ONE && self.decay <= RATE_ONE
    }
}

/// The intensity at a cell, or zero outside the field.
pub open spec fn cell_or_zero(f: PheromoneField, l: int, x: int, y: int) -> int {
    if f.cell_in_bounds(l, x, y) {
        f.at(l, x, y) as int
    } else {
        0
    }
}

/// The sum of the 3x3 neighbourhood of a cell, counting cells outside the
/// field as zero.
pub open spec fn neighbor_sum(f: PheromoneField, l: int, x: int, y: int) -> int {
    cell_or_zero(f, l, x - 1, y - 1) + cell_or_zero(f, l, x, y - 1) + cell_or_zero(
        f,
        l,
        x + 1,
        y - 1,
    ) + cell_or_zero(f, l, x - 1, y) + cell_or_zero(f, l, x, y) + cell_or_zero(f, l, x + 1, y)
        + cell_or_zero(f, l, x - 1, y + 1) + cell_or_zero(f, l, x, y + 1) + cell_or_zero(
        f,
        l,
        x + 1,
        y + 1,
    )
}

/// How many of the 3x3 neighbourhood cells lie inside the field.
pub open spec fn neighbor_count(f: PheromoneField, l: int, x: int, y: int) -> int {
    (if f.cell_in_bounds(l, x - 1, y - 1) {
        1int
    } else {
        0int
    }) + (if f.cell_in_bounds(l, x, y - 1) {
        1int
    } else {
        0int
    }) + (if f.cell_in_bounds(l, x + 1, y - 1) {
        1int
    } else {
        0int
    }) + (if f.cell_in_bounds(l, x - 1, y) {
        1int
    } else {
        0int
    }) + (if f.cell_in_bounds(l, x, y) {
        1int
    } else {
        0int
    }) + (if f.cell_in_bounds(l, x + 1, y) {
        1int
    } else {
        0int
    }) + (if f.cell_in_bounds(l, x - 1, y + 1) {
        1int
    } else {
        0int
    }) + (if f.cell_in_bounds(l, x, y + 1) {
        1int
    } else {
        0int
    }) + (if f.cell_in_bounds(l, x + 1, y + 1) {
        1int
    } else {
        0int
    })
}

/// One cell after the diffusion/decay pass: the cell blended toward its
/// neighbourhood average by `f_diff`, then attenuated by `f_decay`, in
/// [`RATE_ONE`] fixed point with rounding down at each division.
pub open spec fn diffused_cell(
    f: PheromoneField,
    l: int,
    x: int,
    y: int,
    f_diff: int,
    f_decay: int,
) -> int {
    let v = cell_or_zero(f, l, x, y);
    let avg = neighbor_sum(f, l, x, y) / neighbor_count(f, l, x, y);
    let blended = ((RATE_ONE - f_diff) * v + f_diff * avg) / (RATE_ONE as int);
    blended * (RATE_ONE - f_decay) / (RATE_ONE as int)
}

/// Sum and population of the in-bounds 3x3 neighbourhood of a cell.
fn neighbor_stats(f: &PheromoneField, l: u32, x: u32, y: u32) -> (r: (u64, u32))
    requires
        f.wf(),
        l < f.layers,
        x < f.width,
        y < f.height,
    ensures
        r.0 as int == neighbor_sum(*f, l as int, x as int, y as int),
        r.1 as int == neighbor_count(*f, l as int, x as int, y as int),
        1 <= r.1 <= 9,
        r.0 <= (r.1 as int) * 0xffff_ffff,
{
    let mut sum: u64 = 0;
    let mut cnt: u32 = 0;
    if x > 0 && y > 0 {
        sum = sum + f.get(l, x - 1, y - 1) as u64;
        cnt = cnt + 1;
    }
    if y > 0 {
        sum = sum + f.get(l, x, y - 1) as u64;
        cnt = cnt + 1;
    }
    if x + 1 < f.width && y > 0 {
        sum = sum + f.get(l, x + 1, y - 1) as u64;
        cnt = cnt + 1;
    }
    if x > 0 {
        sum = sum + f.get(l, x - 1, y) as u64;
        cnt = cnt + 1;
    }
    sum = sum + f.get(l, x, y) as u64;
    cnt = cnt + 1;
    if x + 1 < f.width {
        sum = sum + f.get(l, x + 1, y) as u64;
        cnt = cnt + 1;
    }
    if x > 0 && y + 1 < f.height {
        sum = sum + f.get(l, x - 1, y + 1) as u64;
        cnt = cnt + 1;
    }
    if y + 1 < f.height {
        sum = sum + f.get(l, x, y + 1) as u64;
        cnt = cnt + 1;
    }
    if x + 1 < f.width && y + 1 < f.height {
        sum = sum + f.get(l, x + 1, y + 1) as u64;
        cnt = cnt + 1;
    }
    (sum, cnt)
}

/// Compute one output cell of the diffusion/decay pass.
fn diffused_value(f: &PheromoneField, l: u32, x: u32, y: u32, f_diff: u32, f_decay: u32) -> (v:
    u32)
    requires
        f.wf(),
        l < f.layers,
        x < f.width,
        y < f.height,
        f_diff <= RATE_ONE,
        f_decay <= RATE_ONE,
    ensures
        v as int == diffused_cell(*f, l as int, x as int, y as int, f_diff as int, f_decay as int),
{
    let (sum, cnt) = neighbor_stats(f, l, x, y);
    proof {
        assert(sum as int / (cnt as int) <= 0xffff_ffff) by (nonlinear_arith)
            requires
                1 <= cnt <= 9,
                0 <= sum <= (cnt as int) * 0xffff_ffff,
        ;
    }
    let avg: u64 = sum / (cnt as u64);
    let v0: u64 = f.get(l, x, y) as u64;
    proof {
        assert(((1_000_000 - f_diff) as int) * (v0 as int) + (f_diff as int) * (avg as int)
            <= 1_000_000 * 0xffff_ffffi64 && 0 <= ((1_000_000 - f_diff) as int) * (v0 as int) + (
        f_diff as int) * (avg as int)) by (nonlinear_arith)
            requires
                0 <= f_diff <= 1_000_000,
                0 <= v0 <= 0xffff_ffff,
                0 <= avg <= 0xffff_ffff,
        ;
    }
    let blended: u64 = ((RATE_ONE - f_diff) as u64 * v0 + (f_diff as u64) * avg) / (
    RATE_ONE as u64);
    proof {
        assert(blended <= 0xffff_ffff && (blended as int) * ((1_000_000 - f_decay) as int)
            <= 1_000_000 * 0xffff_ffffi64 && (blended as int) * ((1_000_000 - f_decay) as int) / (
        1_000_000 as int) <= blended) by (nonlinear_arith)
            requires
                0 <= f_decay <= 1_000_000,
                0 <= (blended as int) * 1_000_000 <= 1_000_000 * 0xffff_ffffi64 + 1_000_000 - 1,
                blended as int == (((1_000_000 - f_diff) as int) * (v0 as int) + (f_diff as int) * (
                avg as int)) / 1_000_000,
                ((1_000_000 - f_diff) as int) * (v0 as int) + (f_diff as int) * (avg as int)
                    <= 1_000_000 * 0xffff_ffffi64,
                0 <= ((1_000_000 - f_diff) as int) * (v0 as int) + (f_diff as int) * (avg as int),
        ;
    }
    let out: u64 = blended * ((RATE_ONE - f_decay) as u64) / (RATE_ONE as u64);
    out as u32
}

/// Run the diffusion/decay pass: read one whole field, produce the next
/// contents of the write copy, every cell pinned to [`diffused_cell`] under
/// its own layer's factors.
pub fn diffuse_decay_pass(prev: &PheromoneField, params: &Vec<PheromoneLayerParam>) -> (next:
    PheromoneField)
    requires
        prev.wf(),
        params@.len() >= prev.layers,
        forall|i: int| 0 <= i < params@.len() ==> params@[i].wf(),
    ensures
        next.wf(),
        next.same_dims(*prev),
        forall|l: int, x: int, y: int|
            next.cell_in_bounds(l, x, y) ==> next.at(l, x, y) as int == diffused_cell(
                *prev,
                l,
                x,
                y,
                params@[l].diffusion as int,
                params@[l].decay as int,
            ),
{
    let w: u32 = prev.width;
    let h: u32 = prev.height;
    let lay: u32 = prev.layers;
    let mut data: Vec<u32> = Vec::new();
    proof {
        assert((0int) * (h as int) * (w as int) == 0) by (nonlinear_arith);
    }
    let mut l: u32 = 0;
    while l < lay
        invariant
            l <= lay,
            prev.wf(),
            w == prev.width,
            h == prev.height,
            lay == prev.layers,
            params@.len() >= lay,
            forall|i: int| 0 <= i < params@.len() ==> params@[i].wf(),
            data@.len() == (l as int) * (h as int) * (w as int),
            forall|l2: int, x2: int, y2: int|
                prev.cell_in_bounds(l2, x2, y2) && prev.index(l2, x2, y2) < data@.len()
                    ==> data@[prev.index(l2, x2, y2)] as int == diffused_cell(
                    *prev,
                    l2,
                    x2,
                    y2,
                    params@[l2].diffusion as int,
                    params@[l2].decay as int,
                ),
        decreases lay - l,
    {
        let mut y: u32 = 0;
        while y < h
            invariant
                l < lay,
                y <= h,
                prev.wf(),
                w == prev.width,
                h == prev.height,
                lay == prev.layers,
                params@.len() >= lay,
                forall|i: int| 0 <= i < params@.len() ==> params@[i].wf(),
                data@.len() == ((l as int) * (h as int) + (y as int)) * (w as int),
                forall|l2: int, x2: int, y2: int|
                    prev.cell_in_bounds(l2, x2, y2) && prev.index(l2, x2, y2) < data@.len()
                        ==> data@[prev.index(l2, x2, y2)] as int == diffused_cell(
                        *prev,
                        l2,
                        x2,
                        y2,
                        params@[l2].diffusion as int,
                        params@[l2].decay as int,
                    ),
            decreases h - y,
        {
            let mut x: u32 = 0;
            while x < w
                invariant
                    l < lay,
                    y < h,
                    x <= w,
                    prev.wf(),
                    w == prev.width,
                    h == prev.height,
                    lay == prev.layers,
                    params@.len() >= lay,
                    forall|i: int| 0 <= i < params@.len() ==> params@[i].wf(),
                    data@.len() == ((l as int) * (h as int) + (y as int)) * (w as int) + (x as int),
                    forall|l2: int, x2: int, y2: int|
                        prev.cell_in_bounds(l2, x2, y2) && prev.index(l2, x2, y2) < data@.len()
                            ==> data@[prev.index(l2, x2, y2)] as int == diffused_cell(
                            *prev,
                            l2,
                            x2,
                            y2,
                            params@[l2].diffusion as int,
                            params@[l2].decay as int,
                        ),
                decreases w - x,
            {
                let p = params[l as usize];
                let v = diffused_value(prev, l, x, y, p.diffusion, p.decay);
                data.push(v);
                proof {
                    assert forall|l2: int, x2: int, y2: int|
                        prev.cell_in_bounds(l2, x2, y2) && prev.index(l2, x2, y2)
                            < data@.len() implies data@[prev.index(l2, x2, y2)] as int
                        == diffused_cell(
                        *prev,
                        l2,
                        x2,
                        y2,
                        params@[l2].diffusion as int,
                        params@[l2].decay as int,
                    ) by {
                        lemma_cell_index_bounds(
                            w as int,
                            h as int,
                            lay as int,
                            l2,
                            x2,
                            y2,
                        );
                        if !(l2 == l as int && x2 == x as int && y2 == y as int) {
                            lemma_cell_index_distinct(
                                w as int,
                                h as int,
                                l2,
                                x2,
                                y2,
                                l as int,
                                x as int,
                                y as int,
                            );
                        }
                    }
                }
                x = x + 1;
            }
            proof {
                assert(((l as int) * (h as int) + (y as int)) * (w as int) + (w as int) == ((
                l as int) * (h as int) + (y as int) + 1) * (w as int)) by (nonlinear_arith);
            }
            y = y + 1;
        }
        proof {
            assert(((l as int) * (h as int) + (h as int)) * (w as int) == ((l as int) + 1) * (
            h as int) * (w as int)) by (nonlinear_arith);
        }
        l = l + 1;
    }
    let next = PheromoneField { data, width: w, height: h, layers: lay };
    proof {
        assert forall|l2: int, x2: int, y2: int|
            next.cell_in_bounds(l2, x2, y2) implies next.at(l2, x2, y2) as int == diffused_cell(
            *prev,
            l2,
            x2,
            y2,
            params@[l2].diffusion as int,
            params@[l2].decay as int,
        ) by {
            lemma_cell_index_bounds(w as int, h as int, lay as int, l2, x2, y2);
        }
    }
    next
}

/// One step of the pass, as a relation between two fields: the shape is
/// kept and every cell of `next` is the diffused value of `prev` under
/// well-formed per-layer factors.
pub open spec fn is_diffusion_step(
    prev: PheromoneField,
    next: PheromoneField,
    params: Seq<PheromoneLayerParam>,
) -> bool {
    prev.wf() && next.wf() && next.same_dims(prev) && params.len() >= prev.layers && (forall|
        i: int,
    | 0 <= i < params.len() ==> params[i].wf()) && (forall|l: int, x: int, y: int|
        next.cell_in_bounds(l, x, y) ==> next.at(l, x, y) as int == diffused_cell(
            prev,
            l,
            x,
            y,
            params[l].diffusion as int,
            params[l].decay as int,
        ))
}

/// Diffusing and decaying an all-zero cell yields zero.
pub proof fn lemma_diffused_cell_zero(
    f: PheromoneField,
    l: int,
    x: int,
    y: int,
    f_diff: int,
    f_decay: int,
)
    requires
        f.wf(),
        f.all_zero(),
        f.cell_in_bounds(l, x, y),
        0 <= f_diff <= RATE_ONE,
        0 <= f_decay <= RATE_ONE,
    ensures
        diffused_cell(f, l, x, y, f_diff, f_decay) == 0,
{
    assert(neighbor_sum(f, l, x, y) == 0);
    let cnt = neighbor_count(f, l, x, y);
    assert(1 <= cnt <= 9);
    assert(0int / cnt == 0) by (nonlinear_arith)
        requires
            1 <= cnt,
    ;
    assert((RATE_ONE - f_diff) * 0 + f_diff * 0 == 0) by (nonlinear_arith);
    assert(0int / (RATE_ONE as int) == 0);
    assert(0int * (RATE_ONE - f_decay) == 0) by (nonlinear_arith);
}

/// Law: a field with all-zero intensity and no deposits stays all-zero
/// under any number of diffusion/decay steps.
pub proof fn lemma_zero_field_stays_zero(
    chain: Seq<PheromoneField>,
    params: Seq<PheromoneLayerParam>,
)
    requires
        chain.len() >= 1,
        chain[0].wf(),
        chain[0].all_zero(),
        forall|k: int|
            0 <= k < chain.len() - 1 ==> #[trigger] is_diffusion_step(chain[k], chain[k + 1], params),
    ensures
        chain.last().all_zero(),
    decreases chain.len(),
{
    if chain.len() > 1 {
        let shorter = chain.drop_last();
        assert forall|k: int| 0 <= k < shorter.len() - 1 implies #[trigger] is_diffusion_step(
            shorter[k],
            shorter[k + 1],
            params,
        ) by {
            assert(is_diffusion_step(chain[k], chain[k + 1], params));
        }
        lemma_zero_field_stays_zero(shorter, params);
        let n = chain.len() as int;
        let prev = chain[n - 2];
        let next = chain.last();
        assert(prev == shorter.last());
        assert(prev.all_zero());
        assert(is_diffusion_step(chain[n - 2], chain[n - 2 + 1], params));
        assert(next == chain[n - 2 + 1]);
        assert(is_diffusion_step(prev, next, params));
        assert forall|l: int, x: int, y: int|
            next.cell_in_bounds(l, x, y) implies next.at(l, x, y) == 0 by {
            assert(prev.cell_in_bounds(l, x, y));
            assert(params[l].wf());
            lemma_diffused_cell_zero(
                prev,
                l,
                x,
                y,
                params[l].diffusion as int,
                params[l].decay as int,
            );
        }
    }
}

} // verus!
