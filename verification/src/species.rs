//! Species authoring and the dense sensing-weight table.
//!
//! A small set of species archetypes is authored as plain components
//! (movement, sensing, colour, follow/avoid/emit behaviour). They are
//! converted into tightly packed [`SpeciesSettings`] records and into a
//! dense `species_count x layer_count` sensing-weight matrix, the layout the
//! agent update kernel consumes. Layers named by the configuration as
//! universally attractive or repulsive override every species' authored
//! weight for that layer.
//!
//! Weights are fixed-point values scaled by [`WEIGHT_ONE`]: positive
//! attracts, negative repels, zero is neutral.

use vstd::prelude::*;
use crate::config::{PheromoneConfig, MAX_LAYERS};
use crate::rates::RATE_ONE;

verus! {

/// Fixed-point one for sensing weights: `WEIGHT_ONE` stands for `+1.0`.
pub const WEIGHT_ONE: i32 = 1_000_000;

/// Fixed-point minus one for sensing weights.
pub const WEIGHT_NEG_ONE: i32 = -1_000_000;

/// Largest authored follow/avoid strength, so that a follow minus an avoid
/// always fits an `i32`.
pub const MAX_STRENGTH: u32 = 1_000_000_000;

/// Largest supported number of species.
pub const MAX_SPECIES: u32 = 1024;

/// Default archetype parameters, in their fixed-point units.
pub const DEFAULT_MOVE_SPEED: u32 = 30 * RATE_ONE;
pub const DEFAULT_TURN_SPEED: u32 = 6 * RATE_ONE;
pub const DEFAULT_SENSOR_ANGLE: u32 = 30 * RATE_ONE;
pub const DEFAULT_SENSOR_OFFSET: u32 = 35 * RATE_ONE;
pub const DEFAULT_SENSOR_SIZE: u32 = 1 * RATE_ONE;

/// A colour with fixed-point channels in `[0, RATE_ONE]`.
#[derive(Clone, Copy, PartialEq, Eq, Structural, Debug)]
pub struct ColorFp {
    pub r: u32,
    pub g: u32,
    pub b: u32,
    pub a: u32,
}

/// A four-lane weight vector: the legacy sensing weights for the first four
/// layers.
#[derive(Clone, Copy, PartialEq, Eq, Structural, Debug)]
pub struct WeightVec4 {
    pub x: i32,
    pub y: i32,
    pub z: i32,
    pub w: i32,
}

/// Movement speed in cells per tick, scaled by [`RATE_ONE`].
#[derive(Clone, Copy, PartialEq, Eq, Structural, Debug)]
pub struct MoveSpeed(pub u32);

/// Turning speed in radians per tick, scaled by [`RATE_ONE`].
#[derive(Clone, Copy, PartialEq, Eq, Structural, Debug)]
pub struct TurnSpeed(pub u32);

/// Sensor geometry: side-sensor angle in degrees, forward offset and
/// footprint size in cells, all scaled by [`RATE_ONE`].
#[derive(Clone, Copy, PartialEq, Eq, Structural, Debug)]
pub struct Sensor {
    pub angle_degrees: u32,
    pub offset_dst: u32,
    pub size: u32,
}

/// Display colour of a species.
#[derive(Clone, Copy, PartialEq, Eq, Structural, Debug)]
pub struct AgentColor(pub ColorFp);

/// The species is attracted to one scent channel with a fixed-point
/// strength.
#[derive(Clone, Copy, PartialEq, Eq, Structural, Debug)]
pub struct FollowsPheromone {
    pub channel: u32,
    pub strength: u32,
}

/// The species is repelled by one scent channel with a fixed-point
/// strength.
#[derive(Clone, Copy, PartialEq, Eq, Structural, Debug)]
pub struct AvoidsPheromone {
    pub channel: u32,
    pub strength: u32,
}

/// The species deposits into one scent channel, a fixed-point amount per
/// frame.
#[derive(Clone, Copy, PartialEq, Eq, Structural, Debug)]
pub struct EmitsPheromone {
    pub channel: u32,
    pub amount: u32,
}

/// Optional explicit per-layer sensing weights, overriding the legacy
/// four-lane vector.
#[derive(Clone, PartialEq, Eq, Debug)]
pub struct LayerWeights(pub Vec<i32>);

/// One packed species record, the per-species half of the table the agent
/// update kernel reads.
#[derive(Clone, Copy, PartialEq, Eq, Structural, Debug)]
pub struct SpeciesSettings {
    pub move_speed: u32,
    pub turn_speed: u32,
    pub sensor_angle_degrees: u32,
    pub sensor_offset_dst: u32,
    pub sensor_size: u32,
    pub color: ColorFp,
    pub weights: WeightVec4,
    pub emit_layer: u32,
    pub emit_amount: u32,
}

impl Default for SpeciesSettings {
    /// The hand-written default archetype.
    fn default() -> (s: Self)
        ensures
            s.move_speed == DEFAULT_MOVE_SPEED,
            s.turn_speed == DEFAULT_TURN_SPEED,
            s.sensor_angle_degrees == DEFAULT_SENSOR_ANGLE,
            s.sensor_offset_dst == DEFAULT_SENSOR_OFFSET,
            s.sensor_size == DEFAULT_SENSOR_SIZE,
            s.color == (ColorFp { r: RATE_ONE, g: RATE_ONE, b: RATE_ONE, a: RATE_ONE }),
            s.weights == (WeightVec4 { x: 0, y: 0, z: 0, w: 0 }),
            s.emit_layer == 0,
            s.emit_amount == 0,
    {
        SpeciesSettings {
            move_speed: DEFAULT_MOVE_SPEED,
            turn_speed: DEFAULT_TURN_SPEED,
            sensor_angle_degrees: DEFAULT_SENSOR_ANGLE,
            sensor_offset_dst: DEFAULT_SENSOR_OFFSET,
            sensor_size: DEFAULT_SENSOR_SIZE,
            color: ColorFp { r: RATE_ONE, g: RATE_ONE, b: RATE_ONE, a: RATE_ONE },
            weights: WeightVec4 { x: 0, y: 0, z: 0, w: 0 },
            emit_layer: 0,
            emit_amount: 0,
        }
    }
}

impl SpeciesSettings {
    /// Built-in red archetype: follows the first channel, emits into it.
    pub fn red() -> (s: Self)
        ensures
            s == (SpeciesSettings {
                move_speed: DEFAULT_MOVE_SPEED,
                turn_speed: DEFAULT_TURN_SPEED,
                sensor_angle_degrees: DEFAULT_SENSOR_ANGLE,
                sensor_offset_dst: DEFAULT_SENSOR_OFFSET,
                sensor_size: DEFAULT_SENSOR_SIZE,
                color: ColorFp { r: RATE_ONE, g: 0, b: 0, a: RATE_ONE },
                weights: WeightVec4 { x: WEIGHT_ONE, y: WEIGHT_NEG_ONE, z: WEIGHT_NEG_ONE, w: 0 },
                emit_layer: 0,
                emit_amount: RATE_ONE,
            }),
    {
        let mut s = SpeciesSettings::default();
        s.color = ColorFp { r: RATE_ONE, g: 0, b: 0, a: RATE_ONE };
        s.weights = WeightVec4 { x: WEIGHT_ONE, y: WEIGHT_NEG_ONE, z: WEIGHT_NEG_ONE, w: 0 };
        s.emit_layer = 0;
        s.emit_amount = RATE_ONE;
        s
    }

    /// Built-in green archetype: follows the second channel, emits into it.
    pub fn green() -> (s: Self)
        ensures
            s == (SpeciesSettings {
                move_speed: DEFAULT_MOVE_SPEED,
                turn_speed: DEFAULT_TURN_SPEED,
                sensor_angle_degrees: DEFAULT_SENSOR_ANGLE,
                sensor_offset_dst: DEFAULT_SENSOR_OFFSET,
                sensor_size: DEFAULT_SENSOR_SIZE,
                color: ColorFp { r: 0, g: RATE_ONE, b: 0, a: RATE_ONE },
                weights: WeightVec4 { x: WEIGHT_NEG_ONE, y: WEIGHT_ONE, z: WEIGHT_NEG_ONE, w: 0 },
                emit_layer: 1,
                emit_amount: RATE_ONE,
            }),
    {
        let mut s = SpeciesSettings::default();
        s.color = ColorFp { r: 0, g: RATE_ONE, b: 0, a: RATE_ONE };
        s.weights = WeightVec4 { x: WEIGHT_NEG_ONE, y: WEIGHT_ONE, z: WEIGHT_NEG_ONE, w: 0 };
        s.emit_layer = 1;
        s.emit_amount = RATE_ONE;
        s
    }

    /// Built-in blue archetype: follows the third channel, emits into it.
    pub fn blue() -> (s: Self)
        ensures
            s == (SpeciesSettings {
                move_speed: DEFAULT_MOVE_SPEED,
                turn_speed: DEFAULT_TURN_SPEED,
                sensor_angle_degrees: DEFAULT_SENSOR_ANGLE,
                sensor_offset_dst: DEFAULT_SENSOR_OFFSET,
                sensor_size: DEFAULT_SENSOR_SIZE,
                color: ColorFp { r: 0, g: 0, b: RATE_ONE, a: RATE_ONE },
                weights: WeightVec4 { x: WEIGHT_NEG_ONE, y: WEIGHT_NEG_ONE, z: WEIGHT_ONE, w: 0 },
                emit_layer: 2,
                emit_amount: RATE_ONE,
            }),
    {
        let mut s = SpeciesSettings::default();
        s.color = ColorFp { r: 0, g: 0, b: RATE_ONE, a: RATE_ONE };
        s.weights = WeightVec4 { x: WEIGHT_NEG_ONE, y: WEIGHT_NEG_ONE, z: WEIGHT_ONE, w: 0 };
        s.emit_layer = 2;
        s.emit_amount = RATE_ONE;
        s
    }
}

/// Lane `lane` of a four-lane weight vector.
pub open spec fn wv4_lane(w: WeightVec4, lane: int) -> int {
    if lane == 0 {
        w.x as int
    } else if lane == 1 {
        w.y as int
    } else if lane == 2 {
        w.z as int
    } else {
        w.w as int
    }
}

/// Map a channel index to a four-lane indicator mask. The fourth lane is
/// always full so alpha-blended display stays visible.
pub fn channel_to_mask(channel: u32) -> (m: WeightVec4)
    ensures
        m.x == if channel == 0 { WEIGHT_ONE } else { 0i32 },
        m.y == if channel == 1 { WEIGHT_ONE } else { 0i32 },
        m.z == if channel == 2 { WEIGHT_ONE } else { 0i32 },
        m.w == WEIGHT_ONE,
{
    if channel == 0 {
        WeightVec4 { x: WEIGHT_ONE, y: 0, z: 0, w: WEIGHT_ONE }
    } else if channel == 1 {
        WeightVec4 { x: 0, y: WEIGHT_ONE, z: 0, w: WEIGHT_ONE }
    } else if channel == 2 {
        WeightVec4 { x: 0, y: 0, z: WEIGHT_ONE, w: WEIGHT_ONE }
    } else {
        WeightVec4 { x: 0, y: 0, z: 0, w: WEIGHT_ONE }
    }
}

/// The contribution of an optional follow component to lane `lane`:
/// its strength where its channel mask covers the lane, zero otherwise.
pub open spec fn follow_lane(follow: Option<FollowsPheromone>, lane: int) -> int {
    match follow {
        Option::Some(f) => if lane == 3 || f.channel == lane { f.strength as int } else { 0 },
        Option::None => 0,
    }
}

/// The contribution of an optional avoid component to lane `lane`.
pub open spec fn avoid_lane(avoid: Option<AvoidsPheromone>, lane: int) -> int {
    match avoid {
        Option::Some(a) => if lane == 3 || a.channel == lane { a.strength as int } else { 0 },
        Option::None => 0,
    }
}

/// Pack authored components into one species record: the follow component
/// adds its strength to its channel's lane, the avoid component subtracts
/// its own, and the emit component selects the single deposit layer.
pub fn build_species_settings_from_components(
    color: &AgentColor,
    move_speed: &MoveSpeed,
    turn_speed: &TurnSpeed,
    sensor: &Sensor,
    follow: Option<&FollowsPheromone>,
    avoid: Option<&AvoidsPheromone>,
    emit: Option<&EmitsPheromone>,
) -> (s: SpeciesSettings)
    requires
        follow matches Option::Some(f) ==> f.strength <= MAX_STRENGTH,
        avoid matches Option::Some(a) ==> a.strength <= MAX_STRENGTH,
    ensures
        s.move_speed == move_speed.0,
        s.turn_speed == turn_speed.0,
        s.sensor_angle_degrees == sensor.angle_degrees,
        s.sensor_offset_dst == sensor.offset_dst,
        s.sensor_size == sensor.size,
        s.color == color.0,
        s.weights.x as int == follow_lane(option_deref(follow), 0) - avoid_lane(
            option_deref_avoid(avoid),
            0,
        ),
        s.weights.y as int == follow_lane(option_deref(follow), 1) - avoid_lane(
            option_deref_avoid(avoid),
            1,
        ),
        s.weights.z as int == follow_lane(option_deref(follow), 2) - avoid_lane(
            option_deref_avoid(avoid),
            2,
        ),
        s.weights.w as int == follow_lane(option_deref(follow), 3) - avoid_lane(
            option_deref_avoid(avoid),
            3,
        ),
        s.emit_layer == match emit {
            Option::Some(e) => e.channel,
            Option::None => 0u32,
        },
        s.emit_amount == match emit {
            Option::Some(e) => e.amount,
            Option::None => 0u32,
        },
{
    let mut wx: i64 = 0;
    let mut wy: i64 = 0;
    let mut wz: i64 = 0;
    let mut ww: i64 = 0;
    if let Option::Some(f) = follow {
        let mask = channel_to_mask(f.channel);
        if mask.x != 0 {
            wx = wx + f.strength as i64;
        }
        if mask.y != 0 {
            wy = wy + f.strength as i64;
        }
        if mask.z != 0 {
            wz = wz + f.strength as i64;
        }
        ww = ww + f.strength as i64;
    }
    if let Option::Some(a) = avoid {
        let mask = channel_to_mask(a.channel);
        if mask.x != 0 {
            wx = wx - a.strength as i64;
        }
        if mask.y != 0 {
            wy = wy - a.strength as i64;
        }
        if mask.z != 0 {
            wz = wz - a.strength as i64;
        }
        ww = ww - a.strength as i64;
    }

    let mut emit_layer: u32 = 0;
    let mut emit_amount: u32 = 0;
    if let Option::Some(e) = emit {
        emit_layer = e.channel;
        emit_amount = e.amount;
    }

    SpeciesSettings {
        move_speed: move_speed.0,
        turn_speed: turn_speed.0,
        sensor_angle_degrees: sensor.angle_degrees,
        sensor_offset_dst: sensor.offset_dst,
        sensor_size: sensor.size,
        color: color.0,
        weights: WeightVec4 { x: wx as i32, y: wy as i32, z: wz as i32, w: ww as i32 },
        emit_layer,
        emit_amount,
    }
}

/// View an optional follow reference as an optional value.
pub open spec fn option_deref(o: Option<&FollowsPheromone>) -> Option<FollowsPheromone> {
    match o {
        Option::Some(f) => Option::Some(*f),
        Option::None => Option::None,
    }
}

/// View an optional avoid reference as an optional value.
pub open spec fn option_deref_avoid(o: Option<&AvoidsPheromone>) -> Option<AvoidsPheromone> {
    match o {
        Option::Some(a) => Option::Some(*a),
        Option::None => Option::None,
    }
}

/// Does the list of layer indices name `li`?
pub fn contains_layer(v: &Vec<u32>, li: u32) -> (b: bool)
    ensures
        b == v@.contains(li),
{
    let mut i: usize = 0;
    while i < v.len()
        invariant
            i <= v@.len(),
            forall|j: int| 0 <= j < i ==> v@[j] != li,
        decreases v@.len() - i,
    {
        if v[i] == li {
            proof {
                assert(v@[i as int] == li);
            }
            return true;
        }
        i = i + 1;
    }
    false
}

/// The dense sensing-weight matrix: one row per species, one fixed-point
/// weight per layer, row-major.
pub struct SpeciesLayerWeights {
    pub weights: Vec<i32>,
    pub layer_count: u32,
    pub species_count: u32,
}

/// A row-major entry for a row strictly before `si` lies strictly before
/// row `si`'s first entry.
proof fn lemma_flat2_mono(lcount: int, s2: int, l2: int, si: int)
    by (nonlinear_arith)
    requires
        lcount >= 1,
        0 <= s2 < si,
        0 <= l2 < lcount,
    ensures
        0 <= s2 * lcount + l2 < si * lcount,
{
}

impl SpeciesLayerWeights {
    /// Structural validity: the flat buffer holds exactly one entry per
    /// species and layer.
    pub open spec fn wf(self) -> bool {
        1 <= self.layer_count <= MAX_LAYERS && 1 <= self.species_count <= MAX_SPECIES
            && self.weights@.len() == self.species_count * self.layer_count
    }

    /// The matrix entry for species `si` and layer `li`.
    pub open spec fn weight_at(self, si: int, li: int) -> int {
        self.weights@[si * self.layer_count + li] as int
    }

    /// Read one entry back from the dense matrix.
    pub fn get_weight(&self, si: u32, li: u32) -> (w: i32)
        requires
            self.wf(),
            si < self.species_count,
            li < self.layer_count,
        ensures
            w as int == self.weight_at(si as int, li as int),
    {
        let total: usize = self.weights.len();
        proof {
            lemma_flat2_mono(self.layer_count as int, si as int, li as int, self.species_count as int);
            assert(si as int * self.layer_count + li < total);
        }
        let idx: usize = (si as usize) * (self.layer_count as usize) + (li as usize);
        self.weights[idx]
    }
}

/// View optional explicit layer weights as an optional sequence.
pub open spec fn lw_view(o: Option<LayerWeights>) -> Option<Seq<i32>> {
    match o {
        Option::Some(w) => Option::Some(w.0@),
        Option::None => Option::None,
    }
}

/// The weight a species authors for layer `li`: the explicit per-layer
/// vector where one is given (zero past its end), else the legacy four-lane
/// vector mapped onto the first four layers.
pub open spec fn authored_weight(s: SpeciesSettings, ovr: Option<Seq<i32>>, li: int) -> int {
    match ovr {
        Option::Some(w) => if li < w.len() { w[li] as int } else { 0 },
        Option::None => if li < 4 { wv4_lane(s.weights, li) } else { 0 },
    }
}

/// The weight that reaches the dense matrix: a universal-repel layer is
/// forced to `-1` and a universal-attract layer to `+1` for every species,
/// regardless of the authored value (repel wins where both name the layer);
/// every other layer keeps the authored weight.
pub open spec fn packed_weight(
    cfg: PheromoneConfig,
    s: SpeciesSettings,
    ovr: Option<Seq<i32>>,
    li: int,
) -> int {
    if cfg.universal_hate_layers@.contains(li as u32) {
        WEIGHT_NEG_ONE as int
    } else if cfg.universal_love_layers@.contains(li as u32) {
        WEIGHT_ONE as int
    } else {
        authored_weight(s, ovr, li)
    }
}

/// Build the dense `species_count x layer_count` sensing-weight matrix from
/// the packed species records, the optional explicit per-layer weights, and
/// the universal overrides of the layer configuration.
pub fn build_weight_matrix(
    species: &Vec<SpeciesSettings>,
    overrides: &Vec<Option<LayerWeights>>,
    cfg: &PheromoneConfig,
) -> (m: SpeciesLayerWeights)
    requires
        cfg.wf(),
        species@.len() == overrides@.len(),
        1 <= species@.len() <= MAX_SPECIES,
    ensures
        m.wf(),
        m.species_count == species@.len(),
        m.layer_count == cfg.layer_count,
        forall|si: int, li: int|
            0 <= si < species@.len() && 0 <= li < cfg.layer_count ==> m.weight_at(si, li)
                == packed_weight(*cfg, species@[si], lw_view(overrides@[si]), li),
{
    let scount: usize = species.len();
    let lcount: usize = cfg.layer_count as usize;
    let mut data: Vec<i32> = Vec::new();
    let mut si: usize = 0;
    while si < scount
        invariant
            si <= scount,
            scount == species@.len(),
            scount == overrides@.len(),
            1 <= scount <= MAX_SPECIES,
            lcount == cfg.layer_count,
            1 <= lcount <= MAX_LAYERS,
            cfg.wf(),
            data@.len() == si * lcount,
            forall|s2: int, l2: int|
                0 <= s2 < si && 0 <= l2 < lcount ==> data@[s2 * lcount + l2] == packed_weight(
                    *cfg,
                    species@[s2],
                    lw_view(overrides@[s2]),
                    l2,
                ),
        decreases scount - si,
    {
        let mut li: usize = 0;
        while li < lcount
            invariant
                si < scount,
                li <= lcount,
                scount == species@.len(),
                scount == overrides@.len(),
                1 <= scount <= MAX_SPECIES,
                lcount == cfg.layer_count,
                1 <= lcount <= MAX_LAYERS,
                cfg.wf(),
                data@.len() == si * lcount + li,
                forall|s2: int, l2: int|
                    0 <= s2 < si && 0 <= l2 < lcount ==> data@[s2 * lcount + l2] == packed_weight(
                        *cfg,
                        species@[s2],
                        lw_view(overrides@[s2]),
                        l2,
                    ),
                forall|l2: int|
                    0 <= l2 < li ==> data@[si * lcount + l2] == packed_weight(
                        *cfg,
                        species@[si as int],
                        lw_view(overrides@[si as int]),
                        l2,
                    ),
            decreases lcount - li,
        {
            let w: i32 = if contains_layer(&cfg.universal_hate_layers, li as u32) {
                WEIGHT_NEG_ONE
            } else if contains_layer(&cfg.universal_love_layers, li as u32) {
                WEIGHT_ONE
            } else {
                match &overrides[si] {
                    Option::Some(ov) => if li < ov.0.len() {
                        ov.0[li]
                    } else {
                        0
                    },
                    Option::None => {
                        let sp = &species[si];
                        if li == 0 {
                            sp.weights.x
                        } else if li == 1 {
                            sp.weights.y
                        } else if li == 2 {
                            sp.weights.z
                        } else if li == 3 {
                            sp.weights.w
                        } else {
                            0
                        }
                    },
                }
            };
            data.push(w);
            proof {
                assert forall|s2: int, l2: int|
                    0 <= s2 < si && 0 <= l2 < lcount implies data@[s2 * lcount + l2]
                    == packed_weight(*cfg, species@[s2], lw_view(overrides@[s2]), l2) by {
                    lemma_flat2_mono(lcount as int, s2, l2, si as int);
                }
            }
            li = li + 1;
        }
        proof {
            assert((si + 1) * lcount == si * lcount + lcount) by (nonlinear_arith);
        }
        si = si + 1;
    }
    let m = SpeciesLayerWeights {
        weights: data,
        layer_count: cfg.layer_count,
        species_count: scount as u32,
    };
    proof {
        assert(m.weights@.len() == m.species_count * m.layer_count) by (nonlinear_arith)
            requires
                m.weights@.len() == scount * lcount,
                m.species_count == scount,
                m.layer_count == lcount,
        ;
    }
    m
}

/// Law: packing a species' authored weight vector into the dense matrix and
/// reading the same species/layer entry back yields the authored value,
/// except where a universal override names that layer, in which case the
/// override value (`+1` or `-1`) takes precedence regardless of the
/// authored value; repel wins where both sets name the layer.
pub proof fn lemma_pack_round_trip(
    m: SpeciesLayerWeights,
    cfg: PheromoneConfig,
    species: Seq<SpeciesSettings>,
    overrides: Seq<Option<LayerWeights>>,
    si: int,
    li: int,
)
    requires
        cfg.wf(),
        m.wf(),
        m.layer_count == cfg.layer_count,
        m.species_count == species.len(),
        species.len() == overrides.len(),
        0 <= si < species.len(),
        0 <= li < cfg.layer_count,
        forall|s2: int, l2: int|
            0 <= s2 < species.len() && 0 <= l2 < cfg.layer_count ==> m.weight_at(s2, l2)
                == packed_weight(cfg, species[s2], lw_view(overrides[s2]), l2),
    ensures
        cfg.universal_hate_layers@.contains(li as u32) ==> m.weight_at(si, li)
            == WEIGHT_NEG_ONE as int,
        !cfg.universal_hate_layers@.contains(li as u32)
            && cfg.universal_love_layers@.contains(li as u32) ==> m.weight_at(si, li)
            == WEIGHT_ONE as int,
        !cfg.universal_hate_layers@.contains(li as u32)
            && !cfg.universal_love_layers@.contains(li as u32) ==> m.weight_at(si, li)
            == authored_weight(species[si], lw_view(overrides[si]), li),
{
    assert(m.weight_at(si, li) == packed_weight(cfg, species[si], lw_view(overrides[si]), li));
}

/// The packed record that a set of authored components yields.
pub open spec fn settings_of(a: SpeciesAuthoring) -> SpeciesSettings {
    SpeciesSettings {
        move_speed: a.move_speed.0,
        turn_speed: a.turn_speed.0,
        sensor_angle_degrees: a.sensor.angle_degrees,
        sensor_offset_dst: a.sensor.offset_dst,
        sensor_size: a.sensor.size,
        color: a.color.0,
        weights: WeightVec4 {
            x: (follow_lane(a.follow, 0) - avoid_lane(a.avoid, 0)) as i32,
            y: (follow_lane(a.follow, 1) - avoid_lane(a.avoid, 1)) as i32,
            z: (follow_lane(a.follow, 2) - avoid_lane(a.avoid, 2)) as i32,
            w: (follow_lane(a.follow, 3) - avoid_lane(a.avoid, 3)) as i32,
        },
        emit_layer: match a.emit {
            Option::Some(e) => e.channel,
            Option::None => 0u32,
        },
        emit_amount: match a.emit {
            Option::Some(e) => e.amount,
            Option::None => 0u32,
        },
    }
}

/// The default archetype as a value.
pub open spec fn default_settings() -> SpeciesSettings {
    SpeciesSettings {
        move_speed: DEFAULT_MOVE_SPEED,
        turn_speed: DEFAULT_TURN_SPEED,
        sensor_angle_degrees: DEFAULT_SENSOR_ANGLE,
        sensor_offset_dst: DEFAULT_SENSOR_OFFSET,
        sensor_size: DEFAULT_SENSOR_SIZE,
        color: ColorFp { r: RATE_ONE, g: RATE_ONE, b: RATE_ONE, a: RATE_ONE },
        weights: WeightVec4 { x: 0, y: 0, z: 0, w: 0 },
        emit_layer: 0,
        emit_amount: 0,
    }
}

/// The built-in red archetype as a value.
pub open spec fn red_settings() -> SpeciesSettings {
    SpeciesSettings {
        color: ColorFp { r: RATE_ONE, g: 0, b: 0, a: RATE_ONE },
        weights: WeightVec4 { x: WEIGHT_ONE, y: WEIGHT_NEG_ONE, z: WEIGHT_NEG_ONE, w: 0 },
        emit_layer: 0,
        emit_amount: RATE_ONE,
        ..default_settings()
    }
}

/// The built-in green archetype as a value.
pub open spec fn green_settings() -> SpeciesSettings {
    SpeciesSettings {
        color: ColorFp { r: 0, g: RATE_ONE, b: 0, a: RATE_ONE },
        weights: WeightVec4 { x: WEIGHT_NEG_ONE, y: WEIGHT_ONE, z: WEIGHT_NEG_ONE, w: 0 },
        emit_layer: 1,
        emit_amount: RATE_ONE,
        ..default_settings()
    }
}

/// The built-in blue archetype as a value.
pub open spec fn blue_settings() -> SpeciesSettings {
    SpeciesSettings {
        color: ColorFp { r: 0, g: 0, b: RATE_ONE, a: RATE_ONE },
        weights: WeightVec4 { x: WEIGHT_NEG_ONE, y: WEIGHT_NEG_ONE, z: WEIGHT_ONE, w: 0 },
        emit_layer: 2,
        emit_amount: RATE_ONE,
        ..default_settings()
    }
}

/// One authored species archetype: the components the host attaches to a
/// species entity, gathered into a plain record.
pub struct SpeciesAuthoring {
    pub color: AgentColor,
    pub move_speed: MoveSpeed,
    pub turn_speed: TurnSpeed,
    pub sensor: Sensor,
    pub follow: Option<FollowsPheromone>,
    pub avoid: Option<AvoidsPheromone>,
    pub emit: Option<EmitsPheromone>,
    pub layer_weights: Option<LayerWeights>,
}

impl SpeciesAuthoring {
    /// Authored strengths stay small enough that a follow minus an avoid
    /// fits the packed record.
    pub open spec fn wf(self) -> bool {
        (self.follow matches Option::Some(f) ==> f.strength <= MAX_STRENGTH)
            && (self.avoid matches Option::Some(a) ==> a.strength <= MAX_STRENGTH)
    }
}

/// Pack every authored species in order.
pub fn collect_species_settings_from_refs(items: &Vec<SpeciesAuthoring>) -> (out: Vec<
    SpeciesSettings,
>)
    requires
        forall|i: int| 0 <= i < items@.len() ==> items@[i].wf(),
    ensures
        out@.len() == items@.len(),
        forall|i: int| 0 <= i < items@.len() ==> out@[i] == settings_of(items@[i]),
{
    let mut out: Vec<SpeciesSettings> = Vec::new();
    let mut i: usize = 0;
    while i < items.len()
        invariant
            i <= items@.len(),
            out@.len() == i,
            forall|j: int| 0 <= j < items@.len() ==> items@[j].wf(),
            forall|j: int| 0 <= j < i ==> out@[j] == settings_of(items@[j]),
        decreases items@.len() - i,
    {
        let it = &items[i];
        let follow = match &it.follow {
            Option::Some(f) => Option::Some(f),
            Option::None => Option::None,
        };
        let avoid = match &it.avoid {
            Option::Some(a) => Option::Some(a),
            Option::None => Option::None,
        };
        let emit = match &it.emit {
            Option::Some(e) => Option::Some(e),
            Option::None => Option::None,
        };
        let st = build_species_settings_from_components(
            &it.color,
            &it.move_speed,
            &it.turn_speed,
            &it.sensor,
            follow,
            avoid,
            emit,
        );
        proof {
            assert(option_deref(follow) == it.follow);
            assert(option_deref_avoid(avoid) == it.avoid);
            assert(st == settings_of(items@[i as int]));
        }
        out.push(st);
        i = i + 1;
    }
    out
}

/// Copy an explicit weight vector.
fn copy_weights(v: &Vec<i32>) -> (c: Vec<i32>)
    ensures
        c@ == v@,
{
    let mut c: Vec<i32> = Vec::new();
    let mut i: usize = 0;
    while i < v.len()
        invariant
            i <= v@.len(),
            c@ == v@.subrange(0, i as int),
        decreases v@.len() - i,
    {
        c.push(v[i]);
        proof {
            assert(c@ =~= v@.subrange(0, i + 1));
        }
        i = i + 1;
    }
    proof {
        assert(c@ =~= v@);
    }
    c
}

/// Author the three built-in species archetypes: each follows its own
/// channel, avoids its neighbour's, and emits into its own, with an
/// explicit five-layer weight vector; all three share the default
/// movement and sensor parameters and carry their namesake colour.
pub fn spawn_default_species() -> (out: Vec<SpeciesAuthoring>)
    ensures
        out@.len() == 3,
        forall|i: int| 0 <= i < 3 ==> out@[i].wf(),
        forall|i: int|
            0 <= i < 3 ==> #[trigger] out@[i].move_speed == MoveSpeed(DEFAULT_MOVE_SPEED)
                && out@[i].turn_speed == TurnSpeed(DEFAULT_TURN_SPEED) && out@[i].sensor == (Sensor {
                angle_degrees: DEFAULT_SENSOR_ANGLE,
                offset_dst: DEFAULT_SENSOR_OFFSET,
                size: DEFAULT_SENSOR_SIZE,
            }),
        out@[0].color == AgentColor(ColorFp { r: RATE_ONE, g: 0, b: 0, a: RATE_ONE }),
        out@[1].color == AgentColor(ColorFp { r: 0, g: RATE_ONE, b: 0, a: RATE_ONE }),
        out@[2].color == AgentColor(ColorFp { r: 0, g: 0, b: RATE_ONE, a: RATE_ONE }),
        out@[0].follow == Option::Some(FollowsPheromone { channel: 2, strength: RATE_ONE }),
        out@[0].avoid == Option::Some(AvoidsPheromone { channel: 3, strength: RATE_ONE }),
        out@[0].emit == Option::Some(EmitsPheromone { channel: 2, amount: RATE_ONE }),
        out@[0].layer_weights matches Option::Some(w) && w.0@ =~= seq![
            0i32,
            0i32,
            WEIGHT_ONE,
            WEIGHT_NEG_ONE,
            0i32,
        ],
        out@[1].follow == Option::Some(FollowsPheromone { channel: 3, strength: RATE_ONE }),
        out@[1].avoid == Option::Some(AvoidsPheromone { channel: 4, strength: RATE_ONE }),
        out@[1].emit == Option::Some(EmitsPheromone { channel: 3, amount: RATE_ONE }),
        out@[1].layer_weights matches Option::Some(w) && w.0@ =~= seq![
            0i32,
            0i32,
            0i32,
            WEIGHT_ONE,
            WEIGHT_NEG_ONE,
        ],
        out@[2].follow == Option::Some(FollowsPheromone { channel: 4, strength: RATE_ONE }),
        out@[2].avoid == Option::Some(AvoidsPheromone { channel: 2, strength: RATE_ONE }),
        out@[2].emit == Option::Some(EmitsPheromone { channel: 4, amount: RATE_ONE }),
        out@[2].layer_weights matches Option::Some(w) && w.0@ =~= seq![
            0i32,
            0i32,
            WEIGHT_NEG_ONE,
            0i32,
            WEIGHT_ONE,
        ],
{
    let sensor = Sensor {
        angle_degrees: DEFAULT_SENSOR_ANGLE,
        offset_dst: DEFAULT_SENSOR_OFFSET,
        size: DEFAULT_SENSOR_SIZE,
    };
    let mut w0: Vec<i32> = Vec::new();
    w0.push(0);
    w0.push(0);
    w0.push(WEIGHT_ONE);
    w0.push(WEIGHT_NEG_ONE);
    w0.push(0);
    let mut w1: Vec<i32> = Vec::new();
    w1.push(0);
    w1.push(0);
    w1.push(0);
    w1.push(WEIGHT_ONE);
    w1.push(WEIGHT_NEG_ONE);
    let mut w2: Vec<i32> = Vec::new();
    w2.push(0);
    w2.push(0);
    w2.push(WEIGHT_NEG_ONE);
    w2.push(0);
    w2.push(WEIGHT_ONE);
    let mut out: Vec<SpeciesAuthoring> = Vec::new();
    out.push(SpeciesAuthoring {
        color: AgentColor(ColorFp { r: RATE_ONE, g: 0, b: 0, a: RATE_ONE }),
        move_speed: MoveSpeed(DEFAULT_MOVE_SPEED),
        turn_speed: TurnSpeed(DEFAULT_TURN_SPEED),
        sensor,
        follow: Option::Some(FollowsPheromone { channel: 2, strength: RATE_ONE }),
        avoid: Option::Some(AvoidsPheromone { channel: 3, strength: RATE_ONE }),
        emit: Option::Some(EmitsPheromone { channel: 2, amount: RATE_ONE }),
        layer_weights: Option::Some(LayerWeights(w0)),
    });
    out.push(SpeciesAuthoring {
        color: AgentColor(ColorFp { r: 0, g: RATE_ONE, b: 0, a: RATE_ONE }),
        move_speed: MoveSpeed(DEFAULT_MOVE_SPEED),
        turn_speed: TurnSpeed(DEFAULT_TURN_SPEED),
        sensor,
        follow: Option::Some(FollowsPheromone { channel: 3, strength: RATE_ONE }),
        avoid: Option::Some(AvoidsPheromone { channel: 4, strength: RATE_ONE }),
        emit: Option::Some(EmitsPheromone { channel: 3, amount: RATE_ONE }),
        layer_weights: Option::Some(LayerWeights(w1)),
    });
    out.push(SpeciesAuthoring {
        color: AgentColor(ColorFp { r: 0, g: 0, b: RATE_ONE, a: RATE_ONE }),
        move_speed: MoveSpeed(DEFAULT_MOVE_SPEED),
        turn_speed: TurnSpeed(DEFAULT_TURN_SPEED),
        sensor,
        follow: Option::Some(FollowsPheromone { channel: 4, strength: RATE_ONE }),
        avoid: Option::Some(AvoidsPheromone { channel: 2, strength: RATE_ONE }),
        emit: Option::Some(EmitsPheromone { channel: 4, amount: RATE_ONE }),
        layer_weights: Option::Some(LayerWeights(w2)),
    });
    out
}

/// Rebuild the whole species table: pack every authored species and build
/// the dense sensing-weight matrix under the layer configuration's
/// universal overrides. With nothing authored, the three built-in
/// archetypes stand in so the simulation never stalls for lack of
/// configuration.
pub fn rebuild_species_table(authored: &Vec<SpeciesAuthoring>, cfg: &PheromoneConfig) -> (out: (
    Vec<SpeciesSettings>,
    SpeciesLayerWeights,
))
    requires
        cfg.wf(),
        authored@.len() <= MAX_SPECIES,
        forall|i: int| 0 <= i < authored@.len() ==> authored@[i].wf(),
    ensures
        out.1.wf(),
        out.1.layer_count == cfg.layer_count,
        out.1.species_count == out.0@.len(),
        out.0@.len() == if authored@.len() == 0 { 3int } else { authored@.len() as int },
        authored@.len() > 0 ==> forall|i: int|
            0 <= i < authored@.len() ==> out.0@[i] == settings_of(authored@[i]),
        authored@.len() > 0 ==> forall|si: int, li: int|
            0 <= si < authored@.len() && 0 <= li < cfg.layer_count ==> out.1.weight_at(si, li)
                == packed_weight(
                *cfg,
                settings_of(authored@[si]),
                lw_view(authored@[si].layer_weights),
                li,
            ),
        authored@.len() == 0 ==> out.0@ == seq![red_settings(), green_settings(), blue_settings()],
        authored@.len() == 0 ==> forall|si: int, li: int|
            0 <= si < 3 && 0 <= li < cfg.layer_count ==> out.1.weight_at(si, li) == packed_weight(
                *cfg,
                out.0@[si],
                Option::None,
                li,
            ),
{
    let mut settings = collect_species_settings_from_refs(authored);
    let mut overrides: Vec<Option<LayerWeights>> = Vec::new();
    let mut i: usize = 0;
    while i < authored.len()
        invariant
            i <= authored@.len(),
            overrides@.len() == i,
            forall|j: int| 0 <= j < i ==> lw_view(overrides@[j]) == lw_view(
                authored@[j].layer_weights,
            ),
        decreases authored@.len() - i,
    {
        let o = match &authored[i].layer_weights {
            Option::Some(w) => Option::Some(LayerWeights(copy_weights(&w.0))),
            Option::None => Option::None,
        };
        overrides.push(o);
        i = i + 1;
    }
    if settings.len() == 0 {
        settings = Vec::new();
        settings.push(SpeciesSettings::red());
        settings.push(SpeciesSettings::green());
        settings.push(SpeciesSettings::blue());
        overrides = Vec::new();
        overrides.push(Option::None);
        overrides.push(Option::None);
        overrides.push(Option::None);
        proof {
            assert(settings@ =~= seq![red_settings(), green_settings(), blue_settings()]);
        }
    }
    let matrix = build_weight_matrix(&settings, &overrides, cfg);
    (settings, matrix)
}

} // verus!
