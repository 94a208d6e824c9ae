//! The simulation orchestrator.
//!
//! Owns the whole simulation state — configuration, species table, agent
//! store, the two physical copies of the field, and the presentable image —
//! and runs one frame at a time: diffusion/decay reads the "previous" copy
//! and writes the "next", the brush paints into "next", the agent kernel
//! reads and writes "next" and the agent store, and the compositor turns
//! "next" into the display image. At the end of the frame the roles swap by
//! flipping the update index, never by copying. Before the frame loop the
//! orchestrator walks the readiness state machine of [`crate::machine`].

use vstd::prelude::*;
use crate::agents::{generate_agents, Agent, MAX_AGENTS};
use crate::brush::{apply_brush, brushed_cell, MAX_BRUSH_RADIUS, pointer_cell};
use crate::composite::{colors_wf, composite_pass, composited, DisplayImage};
use crate::config::{GlobalUniforms, MAX_FIELD_EDGE, PheromoneConfig};
use crate::diffuse::{diffuse_decay_pass, diffused_cell, PheromoneLayerParam};
use crate::field::PheromoneField;
use crate::kernel::{agent_update_pass, pass_state, MAX_FRAME_TICKS};
use crate::machine::{advance, advance_spec, FatalPipelineError, KernelReadiness, SimState};
use crate::rates::{frame_factor, per_frame_factor, RATE_ONE};
use crate::species::{rebuild_species_table, SpeciesAuthoring, SpeciesLayerWeights, SpeciesSettings, MAX_SPECIES};

verus! {

/// Default field width, in cells.
pub const SIZE_X: u32 = 1920;

/// Default field height, in cells.
pub const SIZE_Y: u32 = 1080;

/// Default number of scent layers.
pub const NUM_PHEROMONES: u32 = 3;

/// Workgroup edge of the per-cell dispatches.
pub const WORKGROUP_SIZE: u32 = 16;

/// The base (authored) per-layer rates for one layer index: the first five
/// layers have hand-picked rates and display colours, later layers share a
/// neutral grey default.
pub open spec fn default_layer_param(i: int) -> PheromoneLayerParam {
    if i == 0 {
        PheromoneLayerParam {
            diffusion: 400_000,
            decay: 700_000,
            color: crate::species::ColorFp { r: 0, g: 0, b: 0, a: RATE_ONE },
        }
    } else if i == 1 {
        PheromoneLayerParam {
            diffusion: 400_000,
            decay: 700_000,
            color: crate::species::ColorFp { r: 200_000, g: 950_000, b: 200_000, a: RATE_ONE },
        }
    } else if i == 2 {
        PheromoneLayerParam {
            diffusion: 500_000,
            decay: 800_000,
            color: crate::species::ColorFp { r: 800_000, g: 313_725, b: 470_588, a: RATE_ONE },
        }
    } else if i == 3 {
        PheromoneLayerParam {
            diffusion: 600_000,
            decay: 850_000,
            color: crate::species::ColorFp { r: 500_000, g: 900_000, b: 200_000, a: RATE_ONE },
        }
    } else if i == 4 {
        PheromoneLayerParam {
            diffusion: 700_000,
            decay: 900_000,
            color: crate::species::ColorFp { r: 100_000, g: 200_000, b: 850_000, a: RATE_ONE },
        }
    } else {
        PheromoneLayerParam {
            diffusion: 500_000,
            decay: 800_000,
            color: crate::species::ColorFp { r: 600_000, g: 600_000, b: 600_000, a: RATE_ONE },
        }
    }
}

/// Authored rates are strict unit fractions and colours unit fractions.
pub open spec fn base_params_wf(params: Seq<PheromoneLayerParam>) -> bool {
    forall|i: int| #![trigger params[i]]
        0 <= i < params.len() ==> params[i].diffusion < RATE_ONE && params[i].decay < RATE_ONE
            && params[i].color.r <= RATE_ONE && params[i].color.g <= RATE_ONE && params[i].color.b
            <= RATE_ONE && params[i].color.a <= RATE_ONE
}

/// Build the default per-layer base rates for a stack of `layer_count`
/// layers.
pub fn default_layer_params(layer_count: u32) -> (out: Vec<PheromoneLayerParam>)
    requires
        1 <= layer_count,
        layer_count <= 256,
    ensures
        out@.len() == layer_count,
        forall|i: int| 0 <= i < layer_count ==> out@[i] == default_layer_param(i),
        base_params_wf(out@),
{
    let mut out: Vec<PheromoneLayerParam> = Vec::new();
    let mut i: u32 = 0;
    while i < layer_count
        invariant
            i <= layer_count,
            out@.len() == i,
            forall|j: int| 0 <= j < i ==> out@[j] == default_layer_param(j),
        decreases layer_count - i,
    {
        let p: PheromoneLayerParam = if i == 0 {
            PheromoneLayerParam {
                diffusion: 400_000,
                decay: 700_000,
                color: crate::species::ColorFp { r: 0, g: 0, b: 0, a: RATE_ONE },
            }
        } else if i == 1 {
            PheromoneLayerParam {
                diffusion: 400_000,
                decay: 700_000,
                color: crate::species::ColorFp { r: 200_000, g: 950_000, b: 200_000, a: RATE_ONE },
            }
        } else if i == 2 {
            PheromoneLayerParam {
                diffusion: 500_000,
                decay: 800_000,
                color: crate::species::ColorFp { r: 800_000, g: 313_725, b: 470_588, a: RATE_ONE },
            }
        } else if i == 3 {
            PheromoneLayerParam {
                diffusion: 600_000,
                decay: 850_000,
                color: crate::species::ColorFp { r: 500_000, g: 900_000, b: 200_000, a: RATE_ONE },
            }
        } else if i == 4 {
            PheromoneLayerParam {
                diffusion: 700_000,
                decay: 900_000,
                color: crate::species::ColorFp { r: 100_000, g: 200_000, b: 850_000, a: RATE_ONE },
            }
        } else {
            PheromoneLayerParam {
                diffusion: 500_000,
                decay: 800_000,
                color: crate::species::ColorFp { r: 600_000, g: 600_000, b: 600_000, a: RATE_ONE },
            }
        };
        out.push(p);
        i = i + 1;
    }
    proof {
        assert forall|j: int| #![trigger out@[j]]
            0 <= j < out@.len() implies (out@[j].diffusion < RATE_ONE && out@[j].decay < RATE_ONE
            && out@[j].color.r <= RATE_ONE && out@[j].color.g <= RATE_ONE && out@[j].color.b
            <= RATE_ONE && out@[j].color.a <= RATE_ONE) by {
            assert(out@[j] == default_layer_param(j));
        }
    }
    out
}

/// The per-frame factors derived from base rates for a frame of `dt`
/// ticks: each rate transformed by [`frame_factor`], colours kept.
pub open spec fn frame_params(base: Seq<PheromoneLayerParam>, dt: nat) -> Seq<
    PheromoneLayerParam,
> {
    Seq::new(
        base.len(),
        |i: int|
            PheromoneLayerParam {
                diffusion: frame_factor(base[i].diffusion, dt) as u32,
                decay: frame_factor(base[i].decay, dt) as u32,
                color: base[i].color,
            },
    )
}

/// Convert the authored per-layer rates into this frame's multiplicative
/// factors before the passes run.
pub fn frame_layer_factors(base: &Vec<PheromoneLayerParam>, dt: u32) -> (out: Vec<
    PheromoneLayerParam,
>)
    requires
        base_params_wf(base@),
    ensures
        out@ == frame_params(base@, dt as nat),
        out@.len() == base@.len(),
        forall|i: int| 0 <= i < out@.len() ==> #[trigger] out@[i].wf(),
        colors_wf(out@),
{
    let mut out: Vec<PheromoneLayerParam> = Vec::new();
    let mut i: usize = 0;
    while i < base.len()
        invariant
            i <= base@.len(),
            out@.len() == i,
            base_params_wf(base@),
            forall|j: int| 0 <= j < i ==> out@[j] == frame_params(base@, dt as nat)[j],
        decreases base@.len() - i,
    {
        let b = base[i];
        let fd = per_frame_factor(b.diffusion, dt);
        let fe = per_frame_factor(b.decay, dt);
        out.push(PheromoneLayerParam { diffusion: fd, decay: fe, color: b.color });
        i = i + 1;
    }
    proof {
        assert(out@ =~= frame_params(base@, dt as nat));
        assert forall|i2: int| 0 <= i2 < out@.len() implies #[trigger] out@[i2].wf() by {
            crate::rates::lemma_retained_bounds(
                (RATE_ONE - base@[i2].diffusion) as u32,
                dt as nat,
            );
            crate::rates::lemma_retained_bounds((RATE_ONE - base@[i2].decay) as u32, dt as nat);
        }
    }
    out
}

/// The whole simulation: configuration, species table, agent store, the
/// two physical field copies, the display image, and the orchestrator
/// state.
pub struct Simulation {
    pub config: PheromoneConfig,
    pub layer_params: Vec<PheromoneLayerParam>,
    pub species: Vec<SpeciesSettings>,
    pub weights: SpeciesLayerWeights,
    pub agents: Vec<Agent>,
    pub field_a: PheromoneField,
    pub field_b: PheromoneField,
    pub display: DisplayImage,
    pub state: SimState,
    pub frame: u32,
}

impl Simulation {
    /// Structural validity tying every part together: matching dimensions,
    /// a weight matrix sized to the species and layers, and agents that
    /// live inside the field and name existing species.
    pub open spec fn wf(self) -> bool {
        self.config.wf() && self.layer_params@.len() == self.config.layer_count
            && base_params_wf(self.layer_params@) && self.field_a.wf() && self.field_b.wf()
            && self.field_a.same_dims(self.field_b) && self.field_a.layers
            == self.config.layer_count && self.weights.wf() && self.weights.layer_count
            == self.config.layer_count && self.weights.species_count == self.species@.len() && 1
            <= self.species@.len() && self.state.wf() && (forall|i: int|
            0 <= i < self.agents@.len() ==> #[trigger] self.agents@[i].wf(
                self.field_a.width as int,
                self.field_a.height as int,
                self.species@.len() as int,
            ))
    }

    /// Assemble a fresh simulation: species table rebuilt from the
    /// authored archetypes (or the built-in trio), both field copies
    /// all-zero, the agent population seeded over the central disc, and
    /// the orchestrator waiting in `Loading`.
    pub fn new_simulation(
        config: PheromoneConfig,
        width: u32,
        height: u32,
        num_agents: u32,
        authored: &Vec<SpeciesAuthoring>,
    ) -> (sim: Simulation)
        requires
            config.wf(),
            1 <= width <= MAX_FIELD_EDGE,
            1 <= height <= MAX_FIELD_EDGE,
            num_agents <= MAX_AGENTS,
            authored@.len() <= MAX_SPECIES,
            forall|i: int| 0 <= i < authored@.len() ==> #[trigger] authored@[i].wf(),
        ensures
            sim.wf(),
            sim.field_a.all_zero(),
            sim.field_b.all_zero(),
            sim.field_a.width == width,
            sim.field_a.height == height,
            sim.agents@.len() == num_agents,
            sim.state == SimState::Loading,
            sim.frame == 0,
            sim.config == config,
            sim.layer_params@.len() == config.layer_count,
            forall|i: int|
                0 <= i < config.layer_count ==> sim.layer_params@[i] == default_layer_param(i),
            sim.species@.len() == if authored@.len() == 0 {
                3int
            } else {
                authored@.len() as int
            },
            authored@.len() > 0 ==> forall|i: int|
                0 <= i < authored@.len() ==> sim.species@[i] == crate::species::settings_of(
                    authored@[i],
                ),
            authored@.len() == 0 ==> sim.species@ == seq![
                crate::species::red_settings(),
                crate::species::green_settings(),
                crate::species::blue_settings(),
            ],
            authored@.len() > 0 ==> forall|si: int, li: int|
                0 <= si < authored@.len() && 0 <= li < config.layer_count
                    ==> sim.weights.weight_at(si, li) == crate::species::packed_weight(
                    config,
                    crate::species::settings_of(authored@[si]),
                    crate::species::lw_view(authored@[si].layer_weights),
                    li,
                ),
            authored@.len() == 0 ==> forall|si: int, li: int|
                0 <= si < 3 && 0 <= li < config.layer_count ==> sim.weights.weight_at(si, li)
                    == crate::species::packed_weight(
                    config,
                    sim.species@[si],
                    Option::None,
                    li,
                ),
            forall|i: int|
                0 <= i < num_agents ==> #[trigger] sim.agents@[i].species_index as int == i % (
                sim.species@.len() as int),
    {
        let layer_params = default_layer_params(config.layer_count);
        let (species, weights) = rebuild_species_table(authored, &config);
        let species_count: u32 = species.len() as u32;
        let agents = generate_agents(width, height, num_agents, species_count);
        let (field_a, field_b) = crate::field::make_pheromone_array_images(
            width,
            height,
            config.layer_count,
        );
        let fp = frame_layer_factors(&layer_params, 0);
        let display = composite_pass(&field_a, &fp);
        Simulation {
            config,
            layer_params,
            species,
            weights,
            agents,
            field_a,
            field_b,
            display,
            state: SimState::Loading,
            frame: 0,
        }
    }

    /// Walk the readiness state machine by one query. A fatal compile
    /// failure is reported and leaves the state unchanged; the caller
    /// aborts the run.
    pub fn advance_state(&mut self, r: KernelReadiness) -> (res: Result<(), FatalPipelineError>)
        requires
            old(self).wf(),
        ensures
            final (self).wf(),
            advance_spec(old(self).state, r) matches Result::Ok(n) ==> final (self).state == n
                && res matches Result::Ok(_),
            advance_spec(old(self).state, r) matches Result::Err(_) ==> final (self).state == old(
                self,
            ).state && res matches Result::Err(_),
            final (self).config == old(self).config,
            final (self).layer_params == old(self).layer_params,
            final (self).species == old(self).species,
            final (self).weights == old(self).weights,
            final (self).agents == old(self).agents,
            final (self).field_a == old(self).field_a,
            final (self).field_b == old(self).field_b,
            final (self).frame == old(self).frame,
    {
        match advance(self.state, r) {
            Result::Ok(n) => {
                self.state = n;
                Result::Ok(())
            },
            Result::Err(e) => Result::Err(e),
        }
    }

    /// Run one full frame while in the update loop: diffusion/decay reads
    /// the read copy into the write copy, the brush paints into the write
    /// copy, the agent kernel senses and deposits there and updates every
    /// agent, the compositor renders the write copy, and the buffer roles
    /// flip for the next frame.
    ///
    /// With update index 0 the read copy is `field_a` and the write copy
    /// `field_b`; with index 1 the roles are reversed. The read copy is
    /// untouched, which is what lets the next frame's diffusion observe
    /// this frame's deposits and never a half-written buffer.
    pub fn step_frame(&mut self, g: &GlobalUniforms, brush_radius: u32, brush_amount: u32)
        requires
            old(self).wf(),
            old(self).state matches SimState::Update(_),
            g.delta_ticks <= MAX_FRAME_TICKS,
            brush_radius <= MAX_BRUSH_RADIUS,
        ensures
            final (self).wf(),
            final (self).config == old(self).config,
            final (self).layer_params == old(self).layer_params,
            final (self).species == old(self).species,
            final (self).weights == old(self).weights,
            final (self).frame as int == if old(self).frame == u32::MAX {
                0
            } else {
                old(self).frame + 1
            },
            old(self).state == SimState::Update(0u8) ==> final (self).state == SimState::Update(
                1u8,
            ) && final (self).field_a == old(self).field_a,
            old(self).state == SimState::Update(1u8) ==> final (self).state == SimState::Update(
                0u8,
            ) && final (self).field_b == old(self).field_b,
            frame_written(
                *old(self),
                *final (self),
                *g,
                brush_radius as int,
                brush_amount as int,
            ),
    {
        let dt: u32 = g.delta_ticks;
        self.frame = if self.frame == u32::MAX {
            0
        } else {
            self.frame + 1
        };
        let fp = frame_layer_factors(&self.layer_params, dt);
        let ping: u8 = match self.state {
            SimState::Update(i) => i,
            _ => 0,
        };
        if ping == 0 {
            let next = diffuse_decay_pass(&self.field_a, &fp);
            self.field_b = next;
            let ghost mid = self.field_b;
            apply_brush(
                &mut self.field_b,
                self.config.brush_target_layer,
                g.pointer_x,
                g.pointer_y,
                brush_radius,
                brush_amount,
                g.left_button_down,
                g.right_button_down,
            );
            let ghost mid2 = self.field_b;
            agent_update_pass(&mut self.agents, &mut self.field_b, &self.species, &self.weights, dt);
            self.display = composite_pass(&self.field_b, &fp);
            self.state = SimState::Update(1);
            proof {
                let pre = *old(self);
                let post = *self;
                let read = if pre.state == SimState::Update(0u8) {
                    pre.field_a
                } else {
                    pre.field_b
                };
                let written = if pre.state == SimState::Update(0u8) {
                    post.field_b
                } else {
                    post.field_a
                };
                assert(read == pre.field_a);
                assert(written == post.field_b);
                assert(frame_stages(
                    pre,
                    read,
                    *g,
                    brush_radius as int,
                    brush_amount as int,
                    mid,
                    mid2,
                    post.agents@,
                    written,
                ));
                assert(frame_staged_exists(
                    pre,
                    read,
                    *g,
                    brush_radius as int,
                    brush_amount as int,
                    post.agents@,
                    written,
                ));
                assert(frame_written(pre, post, *g, brush_radius as int, brush_amount as int));
            }
        } else {
            let next = diffuse_decay_pass(&self.field_b, &fp);
            self.field_a = next;
            let ghost mid = self.field_a;
            apply_brush(
                &mut self.field_a,
                self.config.brush_target_layer,
                g.pointer_x,
                g.pointer_y,
                brush_radius,
                brush_amount,
                g.left_button_down,
                g.right_button_down,
            );
            let ghost mid2 = self.field_a;
            agent_update_pass(&mut self.agents, &mut self.field_a, &self.species, &self.weights, dt);
            self.display = composite_pass(&self.field_a, &fp);
            self.state = SimState::Update(0);
            proof {
                let pre = *old(self);
                let post = *self;
                let read = if pre.state == SimState::Update(0u8) {
                    pre.field_a
                } else {
                    pre.field_b
                };
                let written = if pre.state == SimState::Update(0u8) {
                    post.field_b
                } else {
                    post.field_a
                };
                assert(read == pre.field_b);
                assert(written == post.field_a);
                assert(frame_stages(
                    pre,
                    read,
                    *g,
                    brush_radius as int,
                    brush_amount as int,
                    mid,
                    mid2,
                    post.agents@,
                    written,
                ));
                assert(frame_staged_exists(
                    pre,
                    read,
                    *g,
                    brush_radius as int,
                    brush_amount as int,
                    post.agents@,
                    written,
                ));
                assert(frame_written(pre, post, *g, brush_radius as int, brush_amount as int));
            }
        }
    }
}

/// The staged contents of one frame: `mid` is the diffusion of the read
/// copy under this frame's factors, `mid2` is `mid` with the brush
/// applied, and the final agents and write-copy contents are the agent
/// kernel's sequential fold over `mid2`.
pub open spec fn frame_stages(
    pre: Simulation,
    read: PheromoneField,
    g: GlobalUniforms,
    brush_radius: int,
    brush_amount: int,
    mid: PheromoneField,
    mid2: PheromoneField,
    agents_after: Seq<Agent>,
    written: PheromoneField,
) -> bool {
    let fp = frame_params(pre.layer_params@, g.delta_ticks as nat);
    let folded = pass_state(
        pre.agents@,
        mid2.data@,
        read.width as int,
        read.height as int,
        read.layers as int,
        pre.species@,
        pre.weights,
        g.delta_ticks as int,
        pre.agents@.len() as nat,
    );
    mid.wf() && mid.same_dims(read) && (forall|l: int, x: int, y: int|
        mid.cell_in_bounds(l, x, y) ==> mid.at(l, x, y) as int == diffused_cell(
            read,
            l,
            x,
            y,
            fp[l].diffusion as int,
            fp[l].decay as int,
        )) && mid2.wf() && mid2.same_dims(read) && (forall|l: int, x: int, y: int|
        mid2.cell_in_bounds(l, x, y) ==> mid2.at(l, x, y) as int == brushed_cell(
            mid,
            l,
            x,
            y,
            pre.config.brush_target_layer as int,
            pointer_cell(g.pointer_x as int, read.width as int),
            pointer_cell(g.pointer_y as int, read.height as int),
            brush_radius,
            brush_amount,
            g.left_button_down,
            g.right_button_down,
        )) && agents_after == folded.0 && written.data@ == folded.1
}

/// There are staged intermediate fields that carry the read copy through
/// the diffusion and brush passes into the written agents and field.
pub open spec fn frame_staged_exists(
    pre: Simulation,
    read: PheromoneField,
    g: GlobalUniforms,
    brush_radius: int,
    brush_amount: int,
    agents_after: Seq<Agent>,
    written: PheromoneField,
) -> bool {
    exists|mid: PheromoneField, mid2: PheromoneField|
        frame_stages(pre, read, g, brush_radius, brush_amount, mid, mid2, agents_after, written)
}

/// One frame wrote the write copy as the three passes dictate and rendered
/// it: there exist the two staged intermediate fields of [`frame_stages`],
/// and the display image is the composite of the written field under this
/// frame's factors.
pub open spec fn frame_written(
    pre: Simulation,
    post: Simulation,
    g: GlobalUniforms,
    brush_radius: int,
    brush_amount: int,
) -> bool {
    let read = if pre.state == SimState::Update(0u8) {
        pre.field_a
    } else {
        pre.field_b
    };
    let written = if pre.state == SimState::Update(0u8) {
        post.field_b
    } else {
        post.field_a
    };
    let fp = frame_params(pre.layer_params@, g.delta_ticks as nat);
    frame_staged_exists(pre, read, g, brush_radius, brush_amount, post.agents@, written) && (
    forall|x: int, y: int, chan: int|
        0 <= x < written.width && 0 <= y < written.height && 0 <= chan < 4 ==> post.display.at(
            x,
            y,
            chan,
        ) as int == composited(written, fp, x, y, chan))
}

} // verus!
