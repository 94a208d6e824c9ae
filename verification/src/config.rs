//! Process-wide layer configuration and per-frame global state.
//!
//! The configuration names how many scent layers exist, which layer the
//! brush paints, and which layers are universally attractive or repulsive
//! for every species. It is written by the host's input handling (mouse
//! wheel and digit keys) through [`PheromoneConfig::cycle_brush_layer`] and
//! [`PheromoneConfig::select_brush_layer`], and read by the species table
//! rebuild and the brush pass.

use vstd::prelude::*;
use crate::rates::RATE_ONE;

verus! {

/// Largest supported number of scent layers (dispatch depth).
pub const MAX_LAYERS: u32 = 256;

/// Largest supported field edge, in cells. Keeps a cell coordinate scaled by
/// [`RATE_ONE`] inside `u32`.
pub const MAX_FIELD_EDGE: u32 = 2048;

/// Runtime-configurable layer options.
pub struct PheromoneConfig {
    /// Number of scent layers.
    pub layer_count: u32,
    /// Layer that the brush paints into.
    pub brush_target_layer: u32,
    /// Layers forced attractive (weight `+1`) for every species.
    pub universal_love_layers: Vec<u32>,
    /// Layers forced repulsive (weight `-1`) for every species.
    pub universal_hate_layers: Vec<u32>,
    /// Layers that only painting may fill; agents never deposit there.
    pub paint_only_layers: Vec<u32>,
}

impl PheromoneConfig {
    /// Structural validity: at least one layer, a bounded layer count, and a
    /// brush target that names an existing layer.
    pub open spec fn wf(self) -> bool {
        1 <= self.layer_count <= MAX_LAYERS && self.brush_target_layer < self.layer_count
    }

    /// Move the brush target by any net number of `delta` layers, wrapping
    /// at both ends.
    pub fn cycle_brush_layer(&mut self, delta: i32)
        requires
            old(self).wf(),
        ensures
            final(self).wf(),
            final(self).layer_count == old(self).layer_count,
            final(self).universal_love_layers == old(self).universal_love_layers,
            final(self).universal_hate_layers == old(self).universal_hate_layers,
            final(self).paint_only_layers == old(self).paint_only_layers,
            final(self).brush_target_layer as int
                == (old(self).brush_target_layer + delta) % (old(self).layer_count as int),
    {
        let layers: u64 = self.layer_count as u64;
        let cur: u64 = self.brush_target_layer as u64;
        // Fold the step into one turn, then lift by a whole turn so the sum
        // stays non-negative.
        let reduced: u64 = if delta >= 0 {
            (delta as u64) % layers
        } else {
            ((-(delta as i64)) as u64) % layers
        };
        proof {
            vstd::arithmetic::div_mod::lemma_mod_bound(
                if delta >= 0 {
                    delta as int
                } else {
                    -(delta as int)
                },
                layers as int,
            );
        }
        let shifted: u64 = if delta >= 0 {
            cur + layers + reduced
        } else {
            cur + layers - reduced
        };
        let next: u64 = shifted % layers;
        proof {
            let m = old(self).layer_count as int;
            let cur_i = old(self).brush_target_layer as int;
            if delta >= 0 {
                let q = delta as int / m;
                vstd::arithmetic::div_mod::lemma_fundamental_div_mod(delta as int, m);
                assert(m * (1 - q) == m - m * q) by (nonlinear_arith);
                vstd::arithmetic::div_mod::lemma_mod_multiples_vanish(
                    1 - q,
                    cur_i + delta,
                    m,
                );
            } else {
                let q = -(delta as int) / m;
                vstd::arithmetic::div_mod::lemma_fundamental_div_mod(-(delta as int), m);
                assert(m * (q + 1) == m * q + m) by (nonlinear_arith);
                vstd::arithmetic::div_mod::lemma_mod_multiples_vanish(
                    q + 1,
                    cur_i + delta,
                    m,
                );
            }
            vstd::arithmetic::div_mod::lemma_mod_bound(shifted as int, m);
        }
        self.brush_target_layer = next as u32;
    }

    /// Jump the brush target straight to `digit`, clamped to the last layer.
    pub fn select_brush_layer(&mut self, digit: u32)
        requires
            old(self).wf(),
        ensures
            final(self).wf(),
            final(self).layer_count == old(self).layer_count,
            final(self).universal_love_layers == old(self).universal_love_layers,
            final(self).universal_hate_layers == old(self).universal_hate_layers,
            final(self).paint_only_layers == old(self).paint_only_layers,
            final(self).brush_target_layer
                == if digit < old(self).layer_count {
                    digit
                } else {
                    (old(self).layer_count - 1) as u32
                },
    {
        let max_layer: u32 = self.layer_count - 1;
        if digit > max_layer {
            self.brush_target_layer = max_layer;
        } else {
            self.brush_target_layer = digit;
        }
    }
}

impl Default for PheromoneConfig {
    /// Three layers, brush on the first, no universal layers.
    fn default() -> (cfg: Self)
        ensures
            cfg.wf(),
            cfg.layer_count == 3,
            cfg.brush_target_layer == 0,
            cfg.universal_love_layers@ == Seq::<u32>::empty(),
            cfg.universal_hate_layers@ == Seq::<u32>::empty(),
            cfg.paint_only_layers@ == Seq::<u32>::empty(),
    {
        let cfg = PheromoneConfig {
            layer_count: 3,
            brush_target_layer: 0,
            universal_love_layers: Vec::new(),
            universal_hate_layers: Vec::new(),
            paint_only_layers: Vec::new(),
        };
        proof {
            assert(cfg.universal_love_layers@ =~= Seq::<u32>::empty());
            assert(cfg.universal_hate_layers@ =~= Seq::<u32>::empty());
            assert(cfg.paint_only_layers@ =~= Seq::<u32>::empty());
        }
        cfg
    }
}

/// Per-frame global state, rebuilt from host input before the passes run.
/// Pointer coordinates are in field space, scaled by [`RATE_ONE`].
pub struct GlobalUniforms {
    /// Whole ticks elapsed since the previous frame.
    pub delta_ticks: u32,
    /// Frame counter.
    pub frame: u32,
    /// Pointer position, clamped into the field.
    pub pointer_x: u32,
    pub pointer_y: u32,
    pub left_button_down: bool,
    pub right_button_down: bool,
}

/// Clamp a raw pointer coordinate (possibly far off screen) to the last
/// whole cell of an axis of `dim` cells, in [`RATE_ONE`]-scaled units.
pub fn clamp_pointer_axis(raw: i64, dim: u32) -> (c: u32)
    requires
        1 <= dim <= MAX_FIELD_EDGE,
    ensures
        c as int == if raw < 0 {
            0
        } else if raw > (dim - 1) * RATE_ONE {
            (dim - 1) * RATE_ONE
        } else {
            raw as int
        },
        c <= (dim - 1) * RATE_ONE,
{
    let max: i64 = (dim as i64 - 1) * (RATE_ONE as i64);
    if raw < 0 {
        0
    } else if raw > max {
        max as u32
    } else {
        raw as u32
    }
}

/// Rebuild the global frame state from raw host input: the pointer is
/// clamped into the field and its vertical axis flipped into texture
/// orientation, the frame counter advances by one, wrapping at its limit.
pub fn build_frame_state(
    prev_frame: u32,
    raw_x: i64,
    raw_y: i64,
    width: u32,
    height: u32,
    delta_ticks: u32,
    left_down: bool,
    right_down: bool,
) -> (g: GlobalUniforms)
    requires
        1 <= width <= MAX_FIELD_EDGE,
        1 <= height <= MAX_FIELD_EDGE,
    ensures
        g.delta_ticks == delta_ticks,
        g.frame as int == if prev_frame == u32::MAX { 0 } else { prev_frame + 1 },
        g.pointer_x as int == if raw_x < 0 {
            0
        } else if raw_x > (width - 1) * RATE_ONE {
            (width - 1) * RATE_ONE
        } else {
            raw_x as int
        },
        g.pointer_y as int == height * RATE_ONE
            - (if raw_y < 0 {
                0
            } else if raw_y > (height - 1) * RATE_ONE {
                (height - 1) * RATE_ONE
            } else {
                raw_y as int
            }),
        g.pointer_x <= width * RATE_ONE,
        g.pointer_y <= height * RATE_ONE,
        g.left_button_down == left_down,
        g.right_button_down == right_down,
{
    let px = clamp_pointer_axis(raw_x, width);
    let py = clamp_pointer_axis(raw_y, height);
    let flipped_y: u32 = height * RATE_ONE - py;
    let frame: u32 = if prev_frame == u32::MAX { 0 } else { prev_frame + 1 };
    GlobalUniforms {
        delta_ticks,
        frame,
        pointer_x: px,
        pointer_y: flipped_y,
        left_button_down: left_down,
        right_button_down: right_down,
    }
}

} // verus!
