use slime_sim::config::PheromoneConfig;
use slime_sim::rates::RATE_ONE;
use slime_sim::species::{
    build_species_settings_from_components, channel_to_mask, collect_species_settings_from_refs,
    rebuild_species_table, spawn_default_species, AgentColor, AvoidsPheromone, ColorFp,
    EmitsPheromone, FollowsPheromone, MoveSpeed, Sensor, SpeciesAuthoring, SpeciesSettings,
    TurnSpeed, WeightVec4, WEIGHT_NEG_ONE, WEIGHT_ONE,
};

#[test]
fn constants_and_defaults() {
    // Verify NUM_PHEROMONES matches the expected legacy channel count
    assert_eq!(slime_sim::sim::NUM_PHEROMONES, 3);

    // Verify default species settings match expectations
    let s = SpeciesSettings::default();
    assert_eq!(s.move_speed, 30 * RATE_ONE);
    assert_eq!(s.turn_speed, 6 * RATE_ONE);
    assert_eq!(s.sensor_angle_degrees, 30 * RATE_ONE);
    assert_eq!(s.sensor_offset_dst, 35 * RATE_ONE);
    assert_eq!(s.sensor_size, 1 * RATE_ONE);
    assert_eq!(s.color.a, RATE_ONE);
    // weights default to zero and emission defaults disabled
    assert_eq!(s.weights, WeightVec4 { x: 0, y: 0, z: 0, w: 0 });
    assert_eq!(s.emit_layer, 0);
    assert_eq!(s.emit_amount, 0);
}

#[test]
fn channel_to_mask_basic() {
    assert_eq!(channel_to_mask(0), WeightVec4 { x: WEIGHT_ONE, y: 0, z: 0, w: WEIGHT_ONE });
    assert_eq!(channel_to_mask(1), WeightVec4 { x: 0, y: WEIGHT_ONE, z: 0, w: WEIGHT_ONE });
    assert_eq!(channel_to_mask(2), WeightVec4 { x: 0, y: 0, z: WEIGHT_ONE, w: WEIGHT_ONE });
    // out-of-range channels default to zero rgb + full alpha
    assert_eq!(channel_to_mask(99), WeightVec4 { x: 0, y: 0, z: 0, w: WEIGHT_ONE });
}

#[test]
fn build_species_packs_weights_and_emit() {
    let color = AgentColor(ColorFp { r: 200_000, g: 300_000, b: 400_000, a: RATE_ONE });
    let move_speed = MoveSpeed(12 * RATE_ONE);
    let turn_speed = TurnSpeed(3 * RATE_ONE);
    let sensor = Sensor { angle_degrees: 10 * RATE_ONE, offset_dst: 5 * RATE_ONE, size: 2 * RATE_ONE };
    let follow = FollowsPheromone { channel: 0, strength: 500_000 };
    let avoid = AvoidsPheromone { channel: 1, strength: 250_000 };
    let emit = EmitsPheromone { channel: 2, amount: 750_000 };

    let settings = build_species_settings_from_components(
        &color,
        &move_speed,
        &turn_speed,
        &sensor,
        Some(&follow),
        Some(&avoid),
        Some(&emit),
    );

    // color is copied
    assert_eq!(settings.color, ColorFp { r: 200_000, g: 300_000, b: 400_000, a: RATE_ONE });
    // weights: follow on channel 0 (positive), avoid on channel 1 (negative)
    assert!(settings.weights.x > 0);
    assert!(settings.weights.y < 0);
    assert_eq!(settings.weights.x, 500_000);
    assert_eq!(settings.weights.y, -250_000);
    // emit: single-layer 2 set with amount
    assert_eq!(settings.emit_layer, 2);
    assert!(settings.emit_amount > 0);
}

#[test]
fn build_species_no_follow_avoid_emit() {
    let color = AgentColor(ColorFp { r: 100_000, g: 200_000, b: 300_000, a: RATE_ONE });
    let move_speed = MoveSpeed(10 * RATE_ONE);
    let turn_speed = TurnSpeed(2 * RATE_ONE);
    let sensor = Sensor { angle_degrees: 15 * RATE_ONE, offset_dst: 5 * RATE_ONE, size: 1 * RATE_ONE };

    let settings = build_species_settings_from_components(
        &color,
        &move_speed,
        &turn_speed,
        &sensor,
        None,
        None,
        None,
    );

    // weights should be zero and no emission configured
    assert_eq!(settings.weights, WeightVec4 { x: 0, y: 0, z: 0, w: 0 });
    assert_eq!(settings.emit_amount, 0);
}

#[test]
fn collect_species_settings_from_refs_basic() {
    let item = SpeciesAuthoring {
        color: AgentColor(ColorFp { r: 200_000, g: 300_000, b: 400_000, a: RATE_ONE }),
        move_speed: MoveSpeed(12 * RATE_ONE),
        turn_speed: TurnSpeed(3 * RATE_ONE),
        sensor: Sensor {
            angle_degrees: 10 * RATE_ONE,
            offset_dst: 5 * RATE_ONE,
            size: 2 * RATE_ONE,
        },
        follow: Some(FollowsPheromone { channel: 0, strength: 500_000 }),
        avoid: Some(AvoidsPheromone { channel: 1, strength: 250_000 }),
        emit: Some(EmitsPheromone { channel: 2, amount: 750_000 }),
        layer_weights: None,
    };

    let items = vec![item];
    let list = collect_species_settings_from_refs(&items);
    assert_eq!(list.len(), 1);
    let s = &list[0];
    assert_eq!(s.color, ColorFp { r: 200_000, g: 300_000, b: 400_000, a: RATE_ONE });
    assert!(s.weights.x > 0 && s.weights.y < 0);
    assert!(s.emit_layer == 2 && s.emit_amount > 0);
}

fn five_layer_config() -> PheromoneConfig {
    PheromoneConfig {
        layer_count: 5,
        brush_target_layer: 1,
        universal_love_layers: vec![1],
        universal_hate_layers: vec![0],
        paint_only_layers: vec![],
    }
}

#[test]
fn universal_overrides_force_whole_columns() {
    // layer_count = 5, three species, attract layer 1, repel layer 0:
    // every species row reads -1 in layer 0 and +1 in layer 1, and its
    // authored values everywhere else.
    let cfg = five_layer_config();
    let authored = spawn_default_species();
    let (species, matrix) = rebuild_species_table(&authored, &cfg);
    assert_eq!(species.len(), 3);
    assert_eq!(matrix.species_count, 3);
    assert_eq!(matrix.layer_count, 5);

    let authored_rows: [[i32; 5]; 3] = [
        [0, 0, WEIGHT_ONE, WEIGHT_NEG_ONE, 0],
        [0, 0, 0, WEIGHT_ONE, WEIGHT_NEG_ONE],
        [0, 0, WEIGHT_NEG_ONE, 0, WEIGHT_ONE],
    ];
    for si in 0..3u32 {
        assert_eq!(matrix.get_weight(si, 0), WEIGHT_NEG_ONE);
        assert_eq!(matrix.get_weight(si, 1), WEIGHT_ONE);
        for li in 2..5u32 {
            assert_eq!(matrix.get_weight(si, li), authored_rows[si as usize][li as usize]);
        }
    }
}

#[test]
fn packing_reads_back_authored_values_without_overrides() {
    // Round trip: with no universal layers configured, every packed entry
    // reads back as authored.
    let cfg = PheromoneConfig {
        layer_count: 5,
        brush_target_layer: 0,
        universal_love_layers: vec![],
        universal_hate_layers: vec![],
        paint_only_layers: vec![],
    };
    let authored = spawn_default_species();
    let (_, matrix) = rebuild_species_table(&authored, &cfg);
    let authored_rows: [[i32; 5]; 3] = [
        [0, 0, WEIGHT_ONE, WEIGHT_NEG_ONE, 0],
        [0, 0, 0, WEIGHT_ONE, WEIGHT_NEG_ONE],
        [0, 0, WEIGHT_NEG_ONE, 0, WEIGHT_ONE],
    ];
    for si in 0..3u32 {
        for li in 0..5u32 {
            assert_eq!(matrix.get_weight(si, li), authored_rows[si as usize][li as usize]);
        }
    }
}

#[test]
fn empty_authoring_falls_back_to_default_trio() {
    let cfg = PheromoneConfig::default();
    let authored: Vec<SpeciesAuthoring> = Vec::new();
    let (species, matrix) = rebuild_species_table(&authored, &cfg);
    assert_eq!(species.len(), 3);
    assert_eq!(species[0], SpeciesSettings::red());
    assert_eq!(species[1], SpeciesSettings::green());
    assert_eq!(species[2], SpeciesSettings::blue());
    // legacy four-lane weights land in the first min(4, layers) columns
    assert_eq!(matrix.get_weight(0, 0), WEIGHT_ONE);
    assert_eq!(matrix.get_weight(0, 1), WEIGHT_NEG_ONE);
    assert_eq!(matrix.get_weight(1, 1), WEIGHT_ONE);
    assert_eq!(matrix.get_weight(2, 2), WEIGHT_ONE);
}

#[test]
fn legacy_weights_ignore_layers_past_the_fourth() {
    // A species without an explicit vector maps its four lanes onto the
    // first four layers; the fifth layer is neutral.
    let cfg = PheromoneConfig {
        layer_count: 5,
        brush_target_layer: 0,
        universal_love_layers: vec![],
        universal_hate_layers: vec![],
        paint_only_layers: vec![],
    };
    let authored: Vec<SpeciesAuthoring> = Vec::new();
    let (_, matrix) = rebuild_species_table(&authored, &cfg);
    for si in 0..3u32 {
        assert_eq!(matrix.get_weight(si, 4), 0);
    }
}
