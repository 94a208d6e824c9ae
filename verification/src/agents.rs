//! The agent store: seeding and byte packing.
//!
//! Agents are created once, in bulk: each is placed uniformly within a disc
//! of radius `0.4 x min(width, height)` around the field centre, faces the
//! centre, and is assigned its species round-robin. Positions are cell
//! coordinates scaled by [`RATE_ONE`]; headings are binary angle units.
//! Only the random draws come from outside; everything computed from a draw
//! is verified for every value the draw could take.

use vstd::prelude::*;
use crate::config::MAX_FIELD_EDGE;
use crate::rates::RATE_ONE;
use crate::trig::{ANGLE_FULL, ANGLE_HALF, cos_fp, cos_spec, isqrt, sin_fp, sin_spec, SIN_ONE};

verus! {

/// Workgroup width of the per-agent dispatch.
pub const AGENT_WORKGROUP_SIZE: u32 = 64;

/// Default agent population.
pub const NUM_AGENTS: u32 = 100_000;

/// Largest supported agent population.
pub const MAX_AGENTS: u32 = 10_000_000;

/// One agent: position in [`RATE_ONE`]-scaled cells, heading in binary
/// angle units, and the species it belongs to.
#[derive(Clone, Copy, PartialEq, Eq, Structural, Debug)]
pub struct Agent {
    pub x: u32,
    pub y: u32,
    pub heading: u32,
    pub species_index: u32,
}

impl Agent {
    /// The agent sits inside a `width x height` field, its heading names an
    /// angle, and its species exists.
    pub open spec fn wf(self, width: int, height: int, species_count: int) -> bool {
        self.x <= width * RATE_ONE && self.y <= height * RATE_ONE && self.heading < ANGLE_FULL
            && self.species_index < species_count
    }
}

/// Relies on rand::random_range: a uniform draw from the half-open range
/// `0..bound`, which panics only when the range is empty.
#[verifier::external_body]
fn random_below(bound: u32) -> (r: u32)
    requires
        1 <= bound,
    ensures
        r < bound,
{
    rand::random_range(0..bound)
}

/// The centre of an axis of `dim` cells, scaled by [`RATE_ONE`].
pub open spec fn center_coord(dim: int) -> int {
    dim * RATE_ONE / 2
}

/// The seeding disc radius: `0.4 x min(width, height)` cells, scaled by
/// [`RATE_ONE`].
pub open spec fn disc_radius(width: int, height: int) -> int {
    (if width <= height {
        width
    } else {
        height
    }) * RATE_ONE * 2 / 5
}

/// A distance along one axis: `len` scaled by the [`SIN_ONE`]-fixed-point
/// direction component `c`, rounded toward zero.
pub open spec fn radial_offset(len: int, c: int) -> int {
    if c >= 0 {
        len * c / 65536
    } else {
        -(len * (-c) / 65536)
    }
}

/// The agent that one pair of draws places: at bearing `angle` from the
/// field centre, at the fraction `radial / RATE_ONE` of the disc radius,
/// facing back toward the centre (a half turn past its bearing), with its
/// species assigned round-robin from its index.
pub open spec fn placed_agent(
    width: int,
    height: int,
    index: int,
    species_count: int,
    angle: int,
    radial: int,
) -> Agent {
    let rlen = disc_radius(width, height) * radial / (RATE_ONE as int);
    Agent {
        x: (center_coord(width) + radial_offset(rlen, cos_spec(angle))) as u32,
        y: (center_coord(height) + radial_offset(rlen, sin_spec(angle))) as u32,
        heading: ((angle + ANGLE_HALF) % (ANGLE_FULL as int)) as u32,
        species_index: (index % species_count) as u32,
    }
}

/// The agent arose from some pair of draws: a bearing and a radial
/// fraction that [`placed_agent`] maps to exactly this agent.
pub open spec fn is_seeded_agent(
    a: Agent,
    width: int,
    height: int,
    index: int,
    species_count: int,
) -> bool {
    exists|b: int, t: int|
        0 <= b < ANGLE_FULL && 0 <= t <= 1_000_000 && a == placed_agent(
            width,
            height,
            index,
            species_count,
            b,
            t,
        )
}

/// `len * f / 65536` stays within `[0, len]` for a fraction `f` of at most
/// `65536`.
proof fn lemma_scaled_le(len: int, f: int)
    by (nonlinear_arith)
    requires
        0 <= len,
        0 <= f <= 65536,
    ensures
        0 <= len * f / 65536 <= len,
{
}

/// `len * f / 1_000_000` stays within `[0, len]` for a fraction `f` of at
/// most `1_000_000`.
proof fn lemma_scaled_le_million(len: int, f: int)
    by (nonlinear_arith)
    requires
        0 <= len,
        0 <= f <= 1_000_000,
    ensures
        0 <= len * f / 1_000_000 <= len,
{
}

/// Place one seeded agent: at bearing `angle` from the field centre, at the
/// fraction `radial / RATE_ONE` of the disc radius, facing back toward the
/// centre, with its species assigned round-robin from its index.
pub fn place_agent(
    width: u32,
    height: u32,
    index: u32,
    species_count: u32,
    angle: u32,
    radial: u32,
) -> (a: Agent)
    requires
        1 <= width <= MAX_FIELD_EDGE,
        1 <= height <= MAX_FIELD_EDGE,
        1 <= species_count,
        angle < ANGLE_FULL,
        radial <= 1_000_000,
    ensures
        a.x as int == center_coord(width as int) + radial_offset(
            disc_radius(width as int, height as int) * radial / (RATE_ONE as int),
            cos_spec(angle as int),
        ),
        a.y as int == center_coord(height as int) + radial_offset(
            disc_radius(width as int, height as int) * radial / (RATE_ONE as int),
            sin_spec(angle as int),
        ),
        a.heading as int == (angle + ANGLE_HALF) % (ANGLE_FULL as int),
        a.species_index as int == index as int % species_count as int,
        a == placed_agent(
            width as int,
            height as int,
            index as int,
            species_count as int,
            angle as int,
            radial as int,
        ),
        a.wf(width as int, height as int, species_count as int),
{
    let cx: u32 = ((width as u64) * (RATE_ONE as u64) / 2) as u32;
    let cy: u32 = ((height as u64) * (RATE_ONE as u64) / 2) as u32;
    let edge: u32 = if width <= height {
        width
    } else {
        height
    };
    let dr: u32 = ((edge as u64) * (RATE_ONE as u64) * 2 / 5) as u32;
    proof {
        lemma_scaled_le_million(dr as int, radial as int);
    }
    let rlen: u32 = ((dr as u64) * (radial as u64) / (RATE_ONE as u64)) as u32;

    let c = cos_fp(angle);
    let s = sin_fp(angle);
    proof {
        lemma_scaled_le(rlen as int, if c >= 0 { c as int } else { -(c as int) });
        lemma_scaled_le(rlen as int, if s >= 0 { s as int } else { -(s as int) });
    }
    let x: u32 = if c >= 0 {
        cx + (((rlen as u64) * (c as u64)) / (SIN_ONE as u64)) as u32
    } else {
        cx - (((rlen as u64) * ((-c) as u64)) / (SIN_ONE as u64)) as u32
    };
    let y: u32 = if s >= 0 {
        cy + (((rlen as u64) * (s as u64)) / (SIN_ONE as u64)) as u32
    } else {
        cy - (((rlen as u64) * ((-s) as u64)) / (SIN_ONE as u64)) as u32
    };
    let heading: u32 = (angle + ANGLE_HALF) % ANGLE_FULL;
    let species: u32 = index % species_count;
    Agent { x, y, heading, species_index: species }
}

/// Seed the whole agent population: `num_agents` agents spread over the
/// central disc with inward headings and round-robin species. The random
/// bearing and radial fraction of each agent come from the thread-local
/// generator; every property stated here holds for every outcome.
pub fn generate_agents(width: u32, height: u32, num_agents: u32, species_count: u32) -> (agents:
    Vec<Agent>)
    requires
        1 <= width <= MAX_FIELD_EDGE,
        1 <= height <= MAX_FIELD_EDGE,
        1 <= species_count,
        num_agents <= MAX_AGENTS,
    ensures
        agents@.len() == num_agents,
        forall|i: int|
            0 <= i < num_agents ==> agents@[i].wf(
                width as int,
                height as int,
                species_count as int,
            ),
        forall|i: int|
            0 <= i < num_agents ==> agents@[i].species_index as int == i % (
            species_count as int),
        forall|i: int| #![trigger agents@[i]]
            0 <= i < num_agents ==> center_coord(width as int) - disc_radius(
                width as int,
                height as int,
            ) <= agents@[i].x as int <= center_coord(width as int) + disc_radius(
                width as int,
                height as int,
            ) && center_coord(height as int) - disc_radius(width as int, height as int)
                <= agents@[i].y as int <= center_coord(height as int) + disc_radius(
                width as int,
                height as int,
            ),
        forall|i: int| #![trigger agents@[i]]
            0 <= i < num_agents ==> is_seeded_agent(
                agents@[i],
                width as int,
                height as int,
                i,
                species_count as int,
            ),
{
    let mut agents: Vec<Agent> = Vec::new();
    let mut i: u32 = 0;
    while i < num_agents
        invariant
            i <= num_agents,
            agents@.len() == i,
            1 <= width <= MAX_FIELD_EDGE,
            1 <= height <= MAX_FIELD_EDGE,
            1 <= species_count,
            forall|j: int|
                0 <= j < i ==> agents@[j].wf(width as int, height as int, species_count as int),
            forall|j: int|
                0 <= j < i ==> agents@[j].species_index as int == j % (species_count as int),
            forall|j: int| #![trigger agents@[j]]
                0 <= j < i ==> center_coord(width as int) - disc_radius(
                    width as int,
                    height as int,
                ) <= agents@[j].x as int <= center_coord(width as int) + disc_radius(
                    width as int,
                    height as int,
                ) && center_coord(height as int) - disc_radius(width as int, height as int)
                    <= agents@[j].y as int <= center_coord(height as int) + disc_radius(
                    width as int,
                    height as int,
                ),
            forall|j: int| #![trigger agents@[j]]
                0 <= j < i ==> is_seeded_agent(
                    agents@[j],
                    width as int,
                    height as int,
                    j,
                    species_count as int,
                ),
        decreases num_agents - i,
    {
        let angle = random_below(ANGLE_FULL);
        let dist = random_below(RATE_ONE);
        proof {
            assert((dist as u64) * (RATE_ONE as u64) <= 1_000_000_000_000) by (nonlinear_arith)
                requires
                    dist < 1_000_000,
                    RATE_ONE == 1_000_000,
            ;
        }
        let radial = isqrt((dist as u64) * (RATE_ONE as u64));
        let a = place_agent(width, height, i, species_count, angle, radial);
        proof {
            let wi = width as int;
            let hi = height as int;
            let dr = disc_radius(wi, hi);
            let rlen = dr * (radial as int) / (RATE_ONE as int);
            lemma_scaled_le_million(dr, radial as int);
            crate::trig::lemma_cos_bounds(angle as int);
            crate::trig::lemma_sin_bounds(angle as int);
            let c = cos_spec(angle as int);
            let sv = sin_spec(angle as int);
            if c >= 0 {
                lemma_scaled_le(rlen, c);
            } else {
                lemma_scaled_le(rlen, -c);
            }
            if sv >= 0 {
                lemma_scaled_le(rlen, sv);
            } else {
                lemma_scaled_le(rlen, -sv);
            }
        }
        proof {
            assert(is_seeded_agent(
                a,
                width as int,
                height as int,
                i as int,
                species_count as int,
            ));
        }
        agents.push(a);
        i = i + 1;
    }
    agents
}

/// Byte `k` of the little-endian encoding of a 32-bit word.
pub open spec fn le_byte(v: int, k: int) -> int {
    (v / (if k == 0 {
        1int
    } else if k == 1 {
        256int
    } else if k == 2 {
        65536int
    } else {
        16777216int
    })) % 256
}

/// Word `wi` of an agent's packed form: position, heading, species.
pub open spec fn agent_word(a: Agent, wi: int) -> int {
    if wi == 0 {
        a.x as int
    } else if wi == 1 {
        a.y as int
    } else if wi == 2 {
        a.heading as int
    } else {
        a.species_index as int
    }
}

/// Append the four little-endian bytes of one word.
fn push_word(bytes: &mut Vec<u8>, v: u32)
    ensures
        final (bytes)@.len() == old(bytes)@.len() + 4,
        forall|k: int| 0 <= k < old(bytes)@.len() ==> final (bytes)@[k] == old(bytes)@[k],
        forall|k: int|
            0 <= k < 4 ==> final (bytes)@[old(bytes)@.len() + k] as int == le_byte(v as int, k),
{
    bytes.push((v % 256) as u8);
    bytes.push(((v / 256) % 256) as u8);
    bytes.push(((v / 65536) % 256) as u8);
    bytes.push(((v / 16777216) % 256) as u8);
}

/// Pack the agent list into the tightly packed byte form the device
/// consumes: sixteen bytes per agent, four little-endian words holding
/// position, heading and species.
pub fn agents_to_gpu_bytes(agents: &Vec<Agent>) -> (bytes: Vec<u8>)
    requires
        agents@.len() <= MAX_AGENTS,
    ensures
        bytes@.len() == 16 * agents@.len(),
        forall|i: int, wi: int, k: int|
            0 <= i < agents@.len() && 0 <= wi < 4 && 0 <= k < 4 ==> bytes@[i * 16 + wi * 4 + k]
                as int == le_byte(agent_word(agents@[i], wi), k),
{
    let mut bytes: Vec<u8> = Vec::new();
    let mut i: usize = 0;
    while i < agents.len()
        invariant
            i <= agents@.len(),
            agents@.len() <= MAX_AGENTS,
            bytes@.len() == 16 * i,
            forall|j: int, wi: int, k: int|
                0 <= j < i && 0 <= wi < 4 && 0 <= k < 4 ==> bytes@[j * 16 + wi * 4 + k] as int
                    == le_byte(agent_word(agents@[j], wi), k),
        decreases agents@.len() - i,
    {
        let a = agents[i];
        push_word(&mut bytes, a.x);
        push_word(&mut bytes, a.y);
        push_word(&mut bytes, a.heading);
        push_word(&mut bytes, a.species_index);
        i = i + 1;
    }
    bytes
}

} // verus!
