//! The brush pass: pointer-driven painting and erasing.
//!
//! The pointer position, button state and configured target layer become a
//! localized injection into the write copy of the field: the left button
//! paints intensity into every cell of the target layer within the brush
//! radius, the right button erases the same footprint to zero. Exactly one
//! layer is touched per frame, and a pointer outside the field is clamped
//! onto it first.

use vstd::prelude::*;
use crate::field::PheromoneField;
use crate::rates::RATE_ONE;

verus! {

/// Largest supported brush radius, in cells.
pub const MAX_BRUSH_RADIUS: u32 = 256;

/// Addition capped at the machine limit.
pub open spec fn sat_add(v: int, a: int) -> int {
    if v + a <= 0xffff_ffff {
        v + a
    } else {
        0xffff_ffff
    }
}

/// The cell under a [`RATE_ONE`]-scaled coordinate, clamped onto an axis of
/// `dim` cells.
pub open spec fn pointer_cell(p: int, dim: int) -> int {
    if p / (RATE_ONE as int) < dim - 1 {
        p / (RATE_ONE as int)
    } else {
        dim - 1
    }
}

/// A cell lies within the brush footprint: Euclidean distance from the
/// brush centre of at most `r` cells.
pub open spec fn in_brush(x: int, y: int, cx: int, cy: int, r: int) -> bool {
    (x - cx) * (x - cx) + (y - cy) * (y - cy) <= r * r
}

/// One cell after the brush pass: inside the footprint on the target layer
/// the left button adds `amount` (saturating) and the right button erases
/// to zero (the left button wins if both are down); every other cell keeps
/// its value.
pub open spec fn brushed_cell(
    f: PheromoneField,
    l: int,
    x: int,
    y: int,
    target: int,
    cx: int,
    cy: int,
    r: int,
    amount: int,
    left: bool,
    right: bool,
) -> int {
    if l == target && in_brush(x, y, cx, cy, r) && (left || right) {
        if left {
            sat_add(f.at(l, x, y) as int, amount)
        } else {
            0
        }
    } else {
        f.at(l, x, y) as int
    }
}

/// A cell inside the footprint lies inside the bounding box of the brush.
proof fn lemma_brush_box(x: int, y: int, cx: int, cy: int, r: int)
    by (nonlinear_arith)
    requires
        0 <= r,
        in_brush(x, y, cx, cy, r),
    ensures
        cx - r <= x <= cx + r,
        cy - r <= y <= cy + r,
{
}

/// Apply the brush: paint (left) or erase (right) the target layer within
/// `radius` cells of the clamped pointer position. Every cell of every
/// other layer, and every cell outside the footprint, is untouched.
pub fn apply_brush(
    f: &mut PheromoneField,
    target_layer: u32,
    px: u32,
    py: u32,
    radius: u32,
    amount: u32,
    left: bool,
    right: bool,
)
    requires
        old(f).wf(),
        target_layer < old(f).layers,
        radius <= MAX_BRUSH_RADIUS,
    ensures
        final (f).wf(),
        final (f).same_dims(*old(f)),
        forall|l: int, x: int, y: int|
            final (f).cell_in_bounds(l, x, y) ==> final (f).at(l, x, y) as int == brushed_cell(
                *old(f),
                l,
                x,
                y,
                target_layer as int,
                pointer_cell(px as int, old(f).width as int),
                pointer_cell(py as int, old(f).height as int),
                radius as int,
                amount as int,
                left,
                right,
            ),
{
    let w: u32 = f.width;
    let h: u32 = f.height;
    let ghost cx_g: int = pointer_cell(px as int, w as int);
    let ghost cy_g: int = pointer_cell(py as int, h as int);
    let cell_x: u32 = px / RATE_ONE;
    let cell_y: u32 = py / RATE_ONE;
    let cx: u32 = if cell_x < w - 1 {
        cell_x
    } else {
        w - 1
    };
    let cy: u32 = if cell_y < h - 1 {
        cell_y
    } else {
        h - 1
    };
    if !left && !right {
        return ;
    }
    let x0: u32 = if cx > radius {
        cx - radius
    } else {
        0
    };
    let y0: u32 = if cy > radius {
        cy - radius
    } else {
        0
    };
    let x1: u32 = if cx + radius < w - 1 {
        cx + radius
    } else {
        w - 1
    };
    let y1: u32 = if cy + radius < h - 1 {
        cy + radius
    } else {
        h - 1
    };
    let mut y: u32 = y0;
    while y <= y1
        invariant
            f.wf(),
            f.same_dims(*old(f)),
            w == f.width,
            h == f.height,
            target_layer < f.layers,
            radius <= MAX_BRUSH_RADIUS,
            cx == cx_g,
            cy == cy_g,
            left || right,
            cx < w,
            cy < h,
            x0 <= x1 < w,
            y0 <= y <= y1 + 1,
            y1 < h,
            cx_g - radius <= x0,
            x0 <= cx_g,
            cx_g + radius >= x1 || x1 == w - 1,
            x1 >= if cx_g + radius < w - 1 { cx_g + radius } else { w - 1 },
            cy_g - radius <= y0,
            y0 <= cy_g,
            y1 >= if cy_g + radius < h - 1 { cy_g + radius } else { h - 1 },
            forall|l2: int, x2: int, y2: int|
                f.cell_in_bounds(l2, x2, y2) ==> f.at(l2, x2, y2) as int == (if l2
                    == target_layer as int && x0 <= x2 <= x1 && y0 <= y2 < y {
                    brushed_cell(
                        *old(f),
                        l2,
                        x2,
                        y2,
                        target_layer as int,
                        cx_g,
                        cy_g,
                        radius as int,
                        amount as int,
                        left,
                        right,
                    )
                } else {
                    old(f).at(l2, x2, y2) as int
                }),
        decreases y1 + 1 - y,
    {
        let mut x: u32 = x0;
        while x <= x1
            invariant
                f.wf(),
                f.same_dims(*old(f)),
                w == f.width,
                h == f.height,
                target_layer < f.layers,
                radius <= MAX_BRUSH_RADIUS,
                cx == cx_g,
                cy == cy_g,
                left || right,
                cx < w,
                cy < h,
                x0 <= x <= x1 + 1,
                x1 < w,
                y0 <= y <= y1,
                y1 < h,
                forall|l2: int, x2: int, y2: int|
                    f.cell_in_bounds(l2, x2, y2) ==> f.at(l2, x2, y2) as int == (if l2
                        == target_layer as int && x0 <= x2 <= x1 && (y0 <= y2 < y || (y2 == y && x0
                        <= x2 < x)) {
                        brushed_cell(
                            *old(f),
                            l2,
                            x2,
                            y2,
                            target_layer as int,
                            cx_g,
                            cy_g,
                            radius as int,
                            amount as int,
                            left,
                            right,
                        )
                    } else {
                        old(f).at(l2, x2, y2) as int
                    }),
            decreases x1 + 1 - x,
        {
            let dx: i64 = x as i64 - cx as i64;
            let dy: i64 = y as i64 - cy as i64;
            let r64: i64 = radius as i64;
            proof {
                assert(dx * dx <= 4_194_304 && dy * dy <= 4_194_304 && r64 * r64 <= 4_194_304
                    && dx * dx >= 0 && dy * dy >= 0 && r64 * r64 >= 0) by (nonlinear_arith)
                    requires
                        -2048 <= dx <= 2048,
                        -2048 <= dy <= 2048,
                        0 <= r64 <= 2048,
                ;
            }
            if dx * dx + dy * dy <= r64 * r64 {
                if left {
                    let cur = f.get(target_layer, x, y);
                    let nv: u32 = if cur > 0xffff_ffffu32 - amount {
                        0xffff_ffffu32
                    } else {
                        cur + amount
                    };
                    f.set(target_layer, x, y, nv);
                } else {
                    f.set(target_layer, x, y, 0);
                }
            }
            x = x + 1;
        }
        y = y + 1;
    }
    proof {
        assert forall|l2: int, x2: int, y2: int|
            f.cell_in_bounds(l2, x2, y2) implies f.at(l2, x2, y2) as int == brushed_cell(
            *old(f),
            l2,
            x2,
            y2,
            target_layer as int,
            cx_g,
            cy_g,
            radius as int,
            amount as int,
            left,
            right,
        ) by {
            if in_brush(x2, y2, cx_g, cy_g, radius as int) {
                lemma_brush_box(x2, y2, cx_g, cy_g, radius as int);
            }
        }
    }
}

} // verus!
