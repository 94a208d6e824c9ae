//! The agent update kernel: sense, steer, move, deposit.
//!
//! For every agent the kernel samples the field at three sensor positions
//! (ahead, left and right of the heading), weighs the sampled layer
//! intensities by the agent's species row of the dense weight matrix,
//! steers toward the most attractive direction (going straight on a tie),
//! advances the position along the new heading, wrapping at the field
//! edges, and deposits the species' emission into the field at the new
//! position. Agents are processed in order and deposit into the same field
//! they sense, so a later agent sees the deposits of earlier ones — the
//! sequential, conflict-free form of the concurrent accumulation.
//!
//! A sensor reads the total intensity over its footprint; dividing by the
//! fixed footprint size would scale all three sensors alike and change no
//! comparison, so the totals are compared directly.

use vstd::prelude::*;
use crate::agents::Agent;
use crate::brush::sat_add;
use crate::field::PheromoneField;
use crate::rates::RATE_ONE;
use crate::species::{SpeciesLayerWeights, SpeciesSettings};
use crate::trig::{cos_fp, cos_spec, sin_fp, sin_spec, ANGLE_FULL};

verus! {

/// Largest sensor footprint radius, in cells.
pub const MAX_SENSOR_RADIUS: u32 = 16;

/// Largest frame length, in ticks.
pub const MAX_FRAME_TICKS: u32 = 1_000_000;

/// A sensor angle in [`RATE_ONE`]-scaled degrees, as binary angle units.
pub open spec fn deg_units(deg: int) -> int {
    (deg * 65536 / 360_000_000) % 65536
}

/// A turn of `ts` [`RATE_ONE`]-scaled radians per tick over `dt` ticks, as
/// binary angle units; `6_283_185` is tau in the same fixed point.
pub open spec fn turn_units(ts: int, dt: int) -> int {
    (ts * dt * 65536 / 6_283_185) % 65536
}

/// The flat index of a cell, as in [`PheromoneField::index`].
pub open spec fn flat_idx(w: int, h: int, l: int, x: int, y: int) -> int {
    (l * h + y) * w + x
}

/// The intensity of a cell of a raw field buffer, or zero outside it.
pub open spec fn cell_val(
    data: Seq<u32>,
    w: int,
    h: int,
    lay: int,
    l: int,
    x: int,
    y: int,
) -> int {
    if 0 <= l < lay && 0 <= x < w && 0 <= y < h {
        data[flat_idx(w, h, l, x, y)] as int
    } else {
        0
    }
}

/// The sum of `n` cells of one row, starting at `x0`.
pub open spec fn row_sum(
    data: Seq<u32>,
    w: int,
    h: int,
    lay: int,
    l: int,
    x0: int,
    n: int,
    y: int,
) -> int
    decreases n,
{
    if n <= 0 {
        0
    } else {
        row_sum(data, w, h, lay, l, x0, n - 1, y) + cell_val(data, w, h, lay, l, x0 + n - 1, y)
    }
}

/// The sum of an `nx` by `ny` rectangle of cells of one layer.
pub open spec fn rect_sum(
    data: Seq<u32>,
    w: int,
    h: int,
    lay: int,
    l: int,
    x0: int,
    nx: int,
    y0: int,
    ny: int,
) -> int
    decreases ny,
{
    if ny <= 0 {
        0
    } else {
        rect_sum(data, w, h, lay, l, x0, nx, y0, ny - 1) + row_sum(
            data,
            w,
            h,
            lay,
            l,
            x0,
            nx,
            y0 + ny - 1,
        )
    }
}

/// The total intensity of one layer over a sensor footprint of radius
/// `rad` around `(cx, cy)`; cells outside the field count as zero.
pub open spec fn sensor_sum(
    data: Seq<u32>,
    w: int,
    h: int,
    lay: int,
    l: int,
    cx: int,
    cy: int,
    rad: int,
) -> int {
    rect_sum(data, w, h, lay, l, cx - rad, 2 * rad + 1, cy - rad, 2 * rad + 1)
}

/// The attractiveness a species reads at a sensor: the dot product of the
/// per-layer footprint totals (first `l` layers) with the species' weight
/// row.
pub open spec fn attract(
    data: Seq<u32>,
    w: int,
    h: int,
    lay: int,
    m: SpeciesLayerWeights,
    si: int,
    cx: int,
    cy: int,
    rad: int,
    l: int,
) -> int
    decreases l,
{
    if l <= 0 {
        0
    } else {
        attract(data, w, h, lay, m, si, cx, cy, rad, l - 1) + m.weight_at(si, l - 1) * sensor_sum(
            data,
            w,
            h,
            lay,
            l - 1,
            cx,
            cy,
            rad,
        )
    }
}

/// A sensor's cell coordinate along one axis: the agent position displaced
/// `off` cells (fixed point) along direction component `c`, clamped into
/// the field, in whole cells.
pub open spec fn sensor_cell_coord(pos: int, off: int, c: int, dim: int) -> int {
    let d = off * (if c >= 0 {
        c
    } else {
        -c
    }) / 65536;
    let raw = if c >= 0 {
        pos + d
    } else {
        pos - d
    };
    let clamped = if raw < 0 {
        0
    } else if raw > (dim - 1) * (RATE_ONE as int) {
        (dim - 1) * (RATE_ONE as int)
    } else {
        raw
    };
    clamped / (RATE_ONE as int)
}

/// The sensor footprint radius of a species, in whole cells, capped.
pub open spec fn sensor_rad(s: SpeciesSettings) -> int {
    if s.sensor_size / RATE_ONE < 16 {
        (s.sensor_size / RATE_ONE) as int
    } else {
        16
    }
}

/// The steered heading: straight while the forward sensor is at least as
/// attractive as both sides, else toward the stronger side by `turn`
/// units; a tie between the sides goes straight.
pub open spec fn steered(heading: int, turn: int, fwd: int, left: int, right: int) -> int {
    if fwd >= left && fwd >= right {
        heading
    } else if left > right {
        (heading + turn) % 65536
    } else if right > left {
        (heading + 65536 - turn) % 65536
    } else {
        heading
    }
}

/// A coordinate advanced `d` fixed-point cells along direction component
/// `c`, wrapping over an axis of extent `m` (torus topology).
pub open spec fn moved_coord(pos: int, m: int, d: int, c: int) -> int {
    let step = d * (if c >= 0 {
        c
    } else {
        -c
    }) / 65536;
    let shift = step % m;
    if c >= 0 {
        (pos + shift) % m
    } else {
        (pos + m - shift) % m
    }
}

/// Convert a sensor angle to binary angle units.
fn degrees_to_units(deg: u32) -> (u: u32)
    ensures
        u as int == deg_units(deg as int),
        u < 65536,
{
    ((deg as u64) * 65536 / 360_000_000 % 65536) as u32
}

/// Convert a turn rate and frame length to binary angle units.
fn turn_to_units(ts: u32, dt: u32) -> (u: u32)
    requires
        dt <= MAX_FRAME_TICKS,
    ensures
        u as int == turn_units(ts as int, dt as int),
        u < 65536,
{
    proof {
        assert((ts as u128) * (dt as u128) <= 0xffff_ffff_ffff_ffff) by (nonlinear_arith)
            requires
                ts <= 0xffff_ffff,
                dt <= 0xffff_ffff,
        ;
    }
    (((ts as u128) * (dt as u128) * 65536 / 6_283_185) % 65536) as u32
}

/// Compute a sensor's cell coordinate along one axis.
fn sensor_cell_exec(pos: u32, off: u32, c: i32, dim: u32) -> (cell: u32)
    requires
        1 <= dim <= 2048,
        pos <= dim * RATE_ONE,
        -65536 <= c <= 65536,
    ensures
        cell as int == sensor_cell_coord(pos as int, off as int, c as int, dim as int),
        cell < dim,
{
    let mag: u64 = if c >= 0 {
        c as u64
    } else {
        (-c) as u64
    };
    proof {
        assert((off as u64) * mag <= 0xffff_ffffu64 * 65536) by (nonlinear_arith)
            requires
                off <= 0xffff_ffff,
                mag <= 65536,
        ;
    }
    let d: u64 = (off as u64) * mag / 65536;
    let limit: u64 = ((dim - 1) as u64) * (RATE_ONE as u64);
    let raw_clamped: u64 = if c >= 0 {
        let up = pos as u64 + d;
        if up > limit {
            limit
        } else {
            up
        }
    } else {
        if d >= pos as u64 {
            0
        } else {
            let down = pos as u64 - d;
            if down > limit {
                limit
            } else {
                down
            }
        }
    };
    let cell: u64 = raw_clamped / (RATE_ONE as u64);
    proof {
        assert(((dim - 1) as int) * 1_000_000 / 1_000_000 == (dim - 1) as int)
            by (nonlinear_arith);
        assert(raw_clamped as int / 1_000_000 <= ((dim - 1) as int) * 1_000_000 / 1_000_000)
            by (nonlinear_arith)
            requires
                raw_clamped as int <= ((dim - 1) as int) * 1_000_000,
        ;
    }
    cell as u32
}

/// Steer the heading by the three sensor readings.
fn steer_exec(heading: u32, turn: u32, fwd: i128, left: i128, right: i128) -> (nh: u32)
    requires
        heading < ANGLE_FULL,
        turn < 65536,
    ensures
        nh as int == steered(heading as int, turn as int, fwd as int, left as int, right as int),
        nh < ANGLE_FULL,
{
    if fwd >= left && fwd >= right {
        heading
    } else if left > right {
        (heading + turn) % ANGLE_FULL
    } else if right > left {
        (heading + (ANGLE_FULL - turn)) % ANGLE_FULL
    } else {
        heading
    }
}

/// Advance one coordinate along a direction component, wrapping.
fn move_exec(pos: u32, dim: u32, d: u64, c: i32) -> (np: u32)
    requires
        1 <= dim <= 2048,
        pos <= dim * RATE_ONE,
        -65536 <= c <= 65536,
    ensures
        np as int == moved_coord(pos as int, (dim as int) * (RATE_ONE as int), d as int, c as int),
        np < dim * RATE_ONE,
{
    let m: u64 = (dim as u64) * (RATE_ONE as u64);
    let mag: u128 = if c >= 0 {
        c as u128
    } else {
        (-c) as u128
    };
    proof {
        assert((d as u128) * mag <= 0xffff_ffff_ffff_ffffu128 * 65536) by (nonlinear_arith)
            requires
                d <= 0xffff_ffff_ffff_ffff,
                mag <= 65536,
        ;
    }
    let step: u128 = (d as u128) * mag / 65536;
    let shift: u64 = (step % (m as u128)) as u64;
    if c >= 0 {
        ((pos as u64 + shift) % m) as u32
    } else {
        ((pos as u64 + (m - shift)) % m) as u32
    }
}

/// The footprint total of one layer around a sensor cell.
fn rect_sum_exec(f: &PheromoneField, l: u32, cx: u32, cy: u32, rad: u32) -> (s: u64)
    requires
        f.wf(),
        l < f.layers,
        cx < f.width,
        cy < f.height,
        rad <= MAX_SENSOR_RADIUS,
    ensures
        s as int == sensor_sum(
            f.data@,
            f.width as int,
            f.height as int,
            f.layers as int,
            l as int,
            cx as int,
            cy as int,
            rad as int,
        ),
        s <= 1089 * 0xffff_ffff,
{
    let n: u32 = 2 * rad + 1;
    let x0: i64 = cx as i64 - rad as i64;
    let y0: i64 = cy as i64 - rad as i64;
    let ghost w = f.width as int;
    let ghost h = f.height as int;
    let ghost lay = f.layers as int;
    let mut s: u64 = 0;
    let mut dy: u32 = 0;
    while dy < n
        invariant
            f.wf(),
            l < f.layers,
            rad <= MAX_SENSOR_RADIUS,
            n == 2 * rad + 1,
            x0 == cx as int - rad as int,
            y0 == cy as int - rad as int,
            cx < f.width,
            cy < f.height,
            w == f.width as int,
            h == f.height as int,
            lay == f.layers as int,
            dy <= n,
            s as int == rect_sum(f.data@, w, h, lay, l as int, x0 as int, n as int, y0 as int, dy as int),
            s <= (dy as int) * 33 * 0xffff_ffff,
        decreases n - dy,
    {
        let yy: i64 = y0 + dy as i64;
        let mut row: u64 = 0;
        let mut dx: u32 = 0;
        while dx < n
            invariant
                f.wf(),
                l < f.layers,
                rad <= MAX_SENSOR_RADIUS,
                n == 2 * rad + 1,
                x0 == cx as int - rad as int,
                cx < f.width,
                cy < f.height,
                w == f.width as int,
                h == f.height as int,
                lay == f.layers as int,
                dx <= n,
                yy == y0 + dy,
                row as int == row_sum(f.data@, w, h, lay, l as int, x0 as int, dx as int, yy as int),
                row <= (dx as int) * 0xffff_ffff,
            decreases n - dx,
        {
            let xx: i64 = x0 + dx as i64;
            let v: u32 = if 0 <= xx && xx < f.width as i64 && 0 <= yy && yy < f.height as i64 {
                f.get(l, xx as u32, yy as u32)
            } else {
                0
            };
            proof {
                assert((dx as int) * 0xffff_ffff + 0xffff_ffff == ((dx as int) + 1)
                    * 0xffff_ffff) by (nonlinear_arith);
                assert((dx as int + 1) * 0xffff_ffff <= 33 * 0xffff_ffffi64)
                    by (nonlinear_arith)
                    requires
                        0 <= dx as int + 1 <= 33,
                ;
            }
            row = row + v as u64;
            dx = dx + 1;
        }
        proof {
            assert((dy as int) * 33 * 0xffff_ffff + 33 * 0xffff_ffff == ((dy as int) + 1) * 33
                * 0xffff_ffff) by (nonlinear_arith);
            assert(((dy as int) + 1) * 33 * 0xffff_ffff <= 1089 * 0xffff_ffffi64)
                by (nonlinear_arith)
                requires
                    0 <= dy as int + 1 <= 33,
            ;
        }
        s = s + row;
        dy = dy + 1;
    }
    s
}

/// The attractiveness one species reads at one sensor position.
fn attract_exec(f: &PheromoneField, m: &SpeciesLayerWeights, si: u32, cx: u32, cy: u32, rad: u32)
    -> (a: i128)
    requires
        f.wf(),
        m.wf(),
        m.layer_count == f.layers,
        si < m.species_count,
        cx < f.width,
        cy < f.height,
        rad <= MAX_SENSOR_RADIUS,
    ensures
        a as int == attract(
            f.data@,
            f.width as int,
            f.height as int,
            f.layers as int,
            *m,
            si as int,
            cx as int,
            cy as int,
            rad as int,
            f.layers as int,
        ),
{
    let ghost w = f.width as int;
    let ghost h = f.height as int;
    let ghost lay = f.layers as int;
    let mut a: i128 = 0;
    let mut l: u32 = 0;
    while l < f.layers
        invariant
            f.wf(),
            m.wf(),
            m.layer_count == f.layers,
            si < m.species_count,
            cx < f.width,
            cy < f.height,
            rad <= MAX_SENSOR_RADIUS,
            w == f.width as int,
            h == f.height as int,
            lay == f.layers as int,
            l <= f.layers,
            a as int == attract(f.data@, w, h, lay, *m, si as int, cx as int, cy as int, rad as int, l as int),
            -(l as int) * 0x8000_0000 * 1089 * 0xffff_ffff <= a as int <= (l as int) * 0x8000_0000
                * 1089 * 0xffff_ffff,
        decreases f.layers - l,
    {
        let s = rect_sum_exec(f, l, cx, cy, rad);
        let wgt = m.get_weight(si, l);
        proof {
            assert(-0x8000_0000i128 * (1089 * 0xffff_ffff) <= (wgt as int) * (s as int) <= 0x8000_0000i128 * (1089 * 0xffff_ffff))
                by (nonlinear_arith)
                requires
                    -0x8000_0000 <= wgt as int <= 0x7fff_ffff,
                    0 <= s as int <= 1089 * 0xffff_ffff,
            ;
            assert((l as int) * 0x8000_0000 * 1089 * 0xffff_ffff + 0x8000_0000i128 * (1089
                * 0xffff_ffff) == ((l as int) + 1) * 0x8000_0000 * 1089 * 0xffff_ffff)
                by (nonlinear_arith);
            assert(((l as int) + 1) * 0x8000_0000 * 1089 * 0xffff_ffff <= 256 * 0x8000_0000i128
                * 1089 * 0xffff_ffff) by (nonlinear_arith)
                requires
                    0 <= l as int + 1 <= 256,
            ;
        }
        let term: i128 = (wgt as i128) * (s as i128);
        a = a + term;
        l = l + 1;
    }
    a
}

/// A position strictly inside the scaled axis lies in a cell of the axis.
proof fn lemma_pos_cell(pos: int, dim: int)
    by (nonlinear_arith)
    requires
        1 <= dim,
        0 <= pos < dim * 1_000_000,
    ensures
        0 <= pos / 1_000_000 < dim,
{
}

/// One whole agent update: sense at the three sensors, steer, and advance,
/// over a raw field buffer.
#[verifier::opaque]
pub open spec fn stepped_agent(
    a: Agent,
    s: SpeciesSettings,
    m: SpeciesLayerWeights,
    data: Seq<u32>,
    w: int,
    h: int,
    lay: int,
    dt: int,
) -> Agent {
    let sa = deg_units(s.sensor_angle_degrees as int);
    let lb = (a.heading + sa) % 65536;
    let rb = (a.heading + (65536 - sa)) % 65536;
    let rad = sensor_rad(s);
    let off = s.sensor_offset_dst as int;
    let fx = sensor_cell_coord(a.x as int, off, cos_spec(a.heading as int), w);
    let fy = sensor_cell_coord(a.y as int, off, sin_spec(a.heading as int), h);
    let lx = sensor_cell_coord(a.x as int, off, cos_spec(lb), w);
    let ly = sensor_cell_coord(a.y as int, off, sin_spec(lb), h);
    let rx = sensor_cell_coord(a.x as int, off, cos_spec(rb), w);
    let ry = sensor_cell_coord(a.y as int, off, sin_spec(rb), h);
    let si = a.species_index as int;
    let att_f = attract(data, w, h, lay, m, si, fx, fy, rad, lay);
    let att_l = attract(data, w, h, lay, m, si, lx, ly, rad, lay);
    let att_r = attract(data, w, h, lay, m, si, rx, ry, rad, lay);
    let turn = turn_units(s.turn_speed as int, dt);
    let nh = steered(a.heading as int, turn, att_f, att_l, att_r);
    let d = s.move_speed as int * dt;
    let nx = moved_coord(a.x as int, w * (RATE_ONE as int), d, cos_spec(nh));
    let ny = moved_coord(a.y as int, h * (RATE_ONE as int), d, sin_spec(nh));
    Agent { x: nx as u32, y: ny as u32, heading: nh as u32, species_index: a.species_index }
}

/// A raw field buffer after one agent's deposit: the species' emission
/// amount added (saturating) at the agent's cell of its emission layer; an
/// emission layer past the stack leaves the buffer untouched.
pub open spec fn deposited(
    data: Seq<u32>,
    w: int,
    h: int,
    lay: int,
    a: Agent,
    s: SpeciesSettings,
) -> Seq<u32> {
    if s.emit_layer < lay {
        let cx = a.x as int / (RATE_ONE as int);
        let cy = a.y as int / (RATE_ONE as int);
        let idx = flat_idx(w, h, s.emit_layer as int, cx, cy);
        data.update(idx, sat_add(data[idx] as int, s.emit_amount as int) as u32)
    } else {
        data
    }
}

/// Update one agent against the current contents of the write-copy field.
fn agent_step(
    f: &PheromoneField,
    a: Agent,
    s: SpeciesSettings,
    m: &SpeciesLayerWeights,
    dt: u32,
) -> (na: Agent)
    requires
        f.wf(),
        m.wf(),
        m.layer_count == f.layers,
        a.wf(f.width as int, f.height as int, m.species_count as int),
        dt <= MAX_FRAME_TICKS,
    ensures
        na == stepped_agent(
            a,
            s,
            *m,
            f.data@,
            f.width as int,
            f.height as int,
            f.layers as int,
            dt as int,
        ),
        na.x < f.width * RATE_ONE,
        na.y < f.height * RATE_ONE,
        na.heading < ANGLE_FULL,
        na.species_index == a.species_index,
{
    proof {
        reveal(stepped_agent);
    }
    let sa = degrees_to_units(s.sensor_angle_degrees);
    let lb: u32 = (a.heading + sa) % ANGLE_FULL;
    let rb: u32 = (a.heading + (ANGLE_FULL - sa)) % ANGLE_FULL;
    let rad: u32 = {
        let r0 = s.sensor_size / RATE_ONE;
        if r0 < MAX_SENSOR_RADIUS {
            r0
        } else {
            MAX_SENSOR_RADIUS
        }
    };
    let off = s.sensor_offset_dst;
    let fx = sensor_cell_exec(a.x, off, cos_fp(a.heading), f.width);
    let fy = sensor_cell_exec(a.y, off, sin_fp(a.heading), f.height);
    let lx = sensor_cell_exec(a.x, off, cos_fp(lb), f.width);
    let ly = sensor_cell_exec(a.y, off, sin_fp(lb), f.height);
    let rx = sensor_cell_exec(a.x, off, cos_fp(rb), f.width);
    let ry = sensor_cell_exec(a.y, off, sin_fp(rb), f.height);
    let att_f = attract_exec(f, m, a.species_index, fx, fy, rad);
    let att_l = attract_exec(f, m, a.species_index, lx, ly, rad);
    let att_r = attract_exec(f, m, a.species_index, rx, ry, rad);
    let turn = turn_to_units(s.turn_speed, dt);
    let nh = steer_exec(a.heading, turn, att_f, att_l, att_r);
    proof {
        assert((s.move_speed as u64) * (dt as u64) <= 0xffff_ffffu64 * 1_000_000)
            by (nonlinear_arith)
            requires
                s.move_speed <= 0xffff_ffff,
                dt <= 1_000_000,
        ;
    }
    let d: u64 = (s.move_speed as u64) * (dt as u64);
    let nx = move_exec(a.x, f.width, d, cos_fp(nh));
    let ny = move_exec(a.y, f.height, d, sin_fp(nh));
    Agent { x: nx, y: ny, heading: nh, species_index: a.species_index }
}

/// The agent list and field buffer after the first `i` agents of the pass:
/// each agent in order senses the buffer as its predecessors left it, is
/// replaced by its stepped state, and deposits at its new position.
pub open spec fn pass_state(
    agents0: Seq<Agent>,
    data0: Seq<u32>,
    w: int,
    h: int,
    lay: int,
    sp: Seq<SpeciesSettings>,
    m: SpeciesLayerWeights,
    dt: int,
    i: nat,
) -> (Seq<Agent>, Seq<u32>)
    decreases i,
{
    if i == 0 {
        (agents0, data0)
    } else {
        let prev = pass_state(agents0, data0, w, h, lay, sp, m, dt, (i - 1) as nat);
        let a = prev.0[i - 1];
        let s = sp[a.species_index as int];
        let na = stepped_agent(a, s, m, prev.1, w, h, lay, dt);
        (prev.0.update(i - 1, na), deposited(prev.1, w, h, lay, na, s))
    }
}

/// The fold never changes the number of agents.
pub proof fn lemma_pass_len(
    agents0: Seq<Agent>,
    data0: Seq<u32>,
    w: int,
    h: int,
    lay: int,
    sp: Seq<SpeciesSettings>,
    m: SpeciesLayerWeights,
    dt: int,
    i: nat,
)
    requires
        i <= agents0.len(),
    ensures
        pass_state(agents0, data0, w, h, lay, sp, m, dt, i).0.len() == agents0.len(),
    decreases i,
{
    if i > 0 {
        lemma_pass_len(agents0, data0, w, h, lay, sp, m, dt, (i - 1) as nat);
        let prev = pass_state(agents0, data0, w, h, lay, sp, m, dt, (i - 1) as nat);
        let a = prev.0[i - 1];
        let na = stepped_agent(a, sp[a.species_index as int], m, prev.1, w, h, lay, dt);
        assert(pass_state(agents0, data0, w, h, lay, sp, m, dt, i).0 == prev.0.update(
            i - 1,
            na,
        ));
    }
}

/// Law: the pass writes only each agent's own next state. After folding the
/// first `i` agents, agent `j < i` holds exactly its own prior state stepped
/// against the field as its predecessors left it — never another agent's
/// state — and every agent at `j >= i` is untouched. All coordination
/// between agents goes through the shared field alone.
#[verifier::rlimit(60)]
pub proof fn lemma_pass_no_cross_agent_writes(
    agents0: Seq<Agent>,
    data0: Seq<u32>,
    w: int,
    h: int,
    lay: int,
    sp: Seq<SpeciesSettings>,
    m: SpeciesLayerWeights,
    dt: int,
    i: nat,
    j: int,
)
    requires
        i <= agents0.len(),
        0 <= j < agents0.len(),
    ensures
        j < i ==> pass_state(agents0, data0, w, h, lay, sp, m, dt, i).0[j] == stepped_agent(
            agents0[j],
            sp[agents0[j].species_index as int],
            m,
            pass_state(agents0, data0, w, h, lay, sp, m, dt, j as nat).1,
            w,
            h,
            lay,
            dt,
        ),
        j >= i ==> pass_state(agents0, data0, w, h, lay, sp, m, dt, i).0[j] == agents0[j],
    decreases i,
{
    if i > 0 {
        lemma_pass_no_cross_agent_writes(agents0, data0, w, h, lay, sp, m, dt, (i - 1) as nat, j);
        lemma_pass_no_cross_agent_writes(
            agents0,
            data0,
            w,
            h,
            lay,
            sp,
            m,
            dt,
            (i - 1) as nat,
            i - 1,
        );
        lemma_pass_len(agents0, data0, w, h, lay, sp, m, dt, (i - 1) as nat);
        let prev = pass_state(agents0, data0, w, h, lay, sp, m, dt, (i - 1) as nat);
        let a = prev.0[i - 1];
        assert(a == agents0[i - 1]);
        let na = stepped_agent(a, sp[a.species_index as int], m, prev.1, w, h, lay, dt);
        assert(pass_state(agents0, data0, w, h, lay, sp, m, dt, i).0 == prev.0.update(
            i - 1,
            na,
        ));
        if j == i - 1 {
            assert(pass_state(agents0, data0, w, h, lay, sp, m, dt, i).0[j] == na);
        } else {
            assert(pass_state(agents0, data0, w, h, lay, sp, m, dt, i).0[j] == prev.0[j]);
        }
    }
}

/// Run the agent update pass: every agent, in order, senses the write copy
/// of the field, steers, moves, and deposits back into it. The final agent
/// list and field contents are exactly the sequential fold
/// [`pass_state`] over the whole population.
pub fn agent_update_pass(
    agents: &mut Vec<Agent>,
    f: &mut PheromoneField,
    species: &Vec<SpeciesSettings>,
    m: &SpeciesLayerWeights,
    dt: u32,
)
    requires
        old(f).wf(),
        m.wf(),
        m.layer_count == old(f).layers,
        species@.len() == m.species_count,
        dt <= MAX_FRAME_TICKS,
        forall|i: int|
            0 <= i < old(agents)@.len() ==> old(agents)@[i].wf(
                old(f).width as int,
                old(f).height as int,
                species@.len() as int,
            ),
    ensures
        final (f).wf(),
        final (f).same_dims(*old(f)),
        final (agents)@.len() == old(agents)@.len(),
        final (agents)@ == pass_state(
            old(agents)@,
            old(f).data@,
            old(f).width as int,
            old(f).height as int,
            old(f).layers as int,
            species@,
            *m,
            dt as int,
            old(agents)@.len() as nat,
        ).0,
        final (f).data@ == pass_state(
            old(agents)@,
            old(f).data@,
            old(f).width as int,
            old(f).height as int,
            old(f).layers as int,
            species@,
            *m,
            dt as int,
            old(agents)@.len() as nat,
        ).1,
        forall|i: int|
            0 <= i < final (agents)@.len() ==> final (agents)@[i].wf(
                old(f).width as int,
                old(f).height as int,
                species@.len() as int,
            ),
{
    let ghost w = old(f).width as int;
    let ghost h = old(f).height as int;
    let ghost lay = old(f).layers as int;
    let n: usize = agents.len();
    let mut i: usize = 0;
    while i < n
        invariant
            i <= n,
            n == old(agents)@.len(),
            agents@.len() == n,
            f.wf(),
            f.same_dims(*old(f)),
            w == old(f).width as int,
            h == old(f).height as int,
            lay == old(f).layers as int,
            m.wf(),
            m.layer_count == old(f).layers,
            species@.len() == m.species_count,
            dt <= MAX_FRAME_TICKS,
            forall|j: int|
                0 <= j < n ==> old(agents)@[j].wf(w, h, species@.len() as int),
            agents@ == pass_state(
                old(agents)@,
                old(f).data@,
                w,
                h,
                lay,
                species@,
                *m,
                dt as int,
                i as nat,
            ).0,
            f.data@ == pass_state(
                old(agents)@,
                old(f).data@,
                w,
                h,
                lay,
                species@,
                *m,
                dt as int,
                i as nat,
            ).1,
            forall|j: int| 0 <= j < n ==> agents@[j].wf(w, h, species@.len() as int),
        decreases n - i,
    {
        let a = agents[i];
        let sidx: usize = a.species_index as usize;
        let sp = species[sidx];
        let na = agent_step(f, a, sp, m, dt);
        agents[i] = na;
        if sp.emit_layer < f.layers {
            let cx: u32 = na.x / RATE_ONE;
            let cy: u32 = na.y / RATE_ONE;
            proof {
                lemma_pos_cell(na.x as int, f.width as int);
                lemma_pos_cell(na.y as int, f.height as int);
            }
            let cur = f.get(sp.emit_layer, cx, cy);
            let nv: u32 = if cur > 0xffff_ffffu32 - sp.emit_amount {
                0xffff_ffffu32
            } else {
                cur + sp.emit_amount
            };
            f.set(sp.emit_layer, cx, cy, nv);
        }
        proof {
            let prev = pass_state(
                old(agents)@,
                old(f).data@,
                w,
                h,
                lay,
                species@,
                *m,
                dt as int,
                i as nat,
            );
            let cur_state = pass_state(
                old(agents)@,
                old(f).data@,
                w,
                h,
                lay,
                species@,
                *m,
                dt as int,
                (i + 1) as nat,
            );
            assert(cur_state.0 == prev.0.update(i as int, na));
            assert(cur_state.1 == deposited(prev.1, w, h, lay, na, sp));
            assert(agents@ =~= cur_state.0);
            assert(f.data@ =~= cur_state.1);
        }
        i = i + 1;
    }
}

} // verus!
