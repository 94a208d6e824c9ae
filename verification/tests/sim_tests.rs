use slime_sim::config::{build_frame_state, GlobalUniforms, PheromoneConfig};
use slime_sim::machine::{advance, KernelReadiness, KernelStatus, SimState};
use slime_sim::rates::RATE_ONE;
use slime_sim::sim::Simulation;
use slime_sim::species::SpeciesAuthoring;

fn ready() -> KernelReadiness {
    KernelReadiness {
        agent: KernelStatus::Ready,
        diffuse: KernelStatus::Ready,
        brush: KernelStatus::Ready,
        composite: KernelStatus::Ready,
    }
}

fn pending() -> KernelReadiness {
    KernelReadiness {
        agent: KernelStatus::Pending,
        diffuse: KernelStatus::Pending,
        brush: KernelStatus::Pending,
        composite: KernelStatus::Pending,
    }
}

#[test]
fn state_machine_progresses_loading_init_update() {
    // Loading -> Init once the kernel is ready, then -> Update(0), then
    // the index alternates strictly 0, 1, 0, 1, ...
    let s1 = advance(SimState::Loading, ready()).unwrap();
    assert_eq!(s1, SimState::Init);
    let s2 = advance(s1, ready()).unwrap();
    assert_eq!(s2, SimState::Update(0));
    let s3 = advance(s2, ready()).unwrap();
    assert_eq!(s3, SimState::Update(1));
    let s4 = advance(s3, ready()).unwrap();
    assert_eq!(s4, SimState::Update(0));
    let s5 = advance(s4, pending()).unwrap();
    assert_eq!(s5, SimState::Update(1));
}

#[test]
fn state_machine_waits_while_pending() {
    assert_eq!(advance(SimState::Loading, pending()).unwrap(), SimState::Loading);
    assert_eq!(advance(SimState::Init, pending()).unwrap(), SimState::Init);
}

#[test]
fn state_machine_reports_fatal_compile_failure() {
    let mut r = ready();
    r.agent = KernelStatus::Failed;
    assert!(advance(SimState::Loading, r).is_err());
}

#[test]
fn wheel_cycles_brush_layer_with_wrap() {
    let mut cfg = PheromoneConfig {
        layer_count: 5,
        brush_target_layer: 4,
        universal_love_layers: vec![],
        universal_hate_layers: vec![],
        paint_only_layers: vec![],
    };
    cfg.cycle_brush_layer(1);
    assert_eq!(cfg.brush_target_layer, 0);
    cfg.cycle_brush_layer(-1);
    assert_eq!(cfg.brush_target_layer, 4);
    cfg.cycle_brush_layer(-6);
    assert_eq!(cfg.brush_target_layer, 3);
    // any net scroll delta wraps, however large
    cfg.cycle_brush_layer(i32::MAX);
    assert_eq!(cfg.brush_target_layer, (3 + i32::MAX as i64).rem_euclid(5) as u32);
    let back = cfg.brush_target_layer;
    cfg.cycle_brush_layer(i32::MIN);
    assert_eq!(
        cfg.brush_target_layer,
        ((back as i64 + i32::MIN as i64).rem_euclid(5)) as u32
    );
    cfg.cycle_brush_layer(0);
    assert_eq!(
        cfg.brush_target_layer,
        ((back as i64 + i32::MIN as i64).rem_euclid(5)) as u32
    );
}

#[test]
fn digit_keys_jump_brush_layer_with_clamp() {
    let mut cfg = PheromoneConfig {
        layer_count: 5,
        brush_target_layer: 0,
        universal_love_layers: vec![],
        universal_hate_layers: vec![],
        paint_only_layers: vec![],
    };
    cfg.select_brush_layer(3);
    assert_eq!(cfg.brush_target_layer, 3);
    cfg.select_brush_layer(9);
    assert_eq!(cfg.brush_target_layer, 4);
}

#[test]
fn frame_state_clamps_and_flips_the_pointer() {
    let g = build_frame_state(6, -500, 2_000_000_000, 100, 50, 2, true, false);
    assert_eq!(g.frame, 7);
    assert_eq!(g.delta_ticks, 2);
    assert_eq!(g.pointer_x, 0);
    // the vertical axis is clamped to the last cell, then flipped
    assert_eq!(g.pointer_y, 50 * RATE_ONE - 49 * RATE_ONE);
    assert!(g.left_button_down);
    assert!(!g.right_button_down);
}

#[test]
fn simulation_runs_frames_and_flips_buffers() {
    let cfg = PheromoneConfig::default();
    let authored: Vec<SpeciesAuthoring> = Vec::new();
    let mut sim = Simulation::new_simulation(cfg, 24, 16, 50, &authored);
    assert_eq!(sim.state, SimState::Loading);
    assert_eq!(sim.frame, 0);
    assert_eq!(sim.agents.len(), 50);

    sim.advance_state(ready()).unwrap();
    assert_eq!(sim.state, SimState::Init);
    sim.advance_state(ready()).unwrap();
    assert_eq!(sim.state, SimState::Update(0));

    let g = GlobalUniforms {
        delta_ticks: 1,
        frame: 1,
        pointer_x: 12 * RATE_ONE,
        pointer_y: 8 * RATE_ONE,
        left_button_down: false,
        right_button_down: false,
    };
    sim.step_frame(&g, 3, 1000);
    assert_eq!(sim.state, SimState::Update(1));
    assert_eq!(sim.frame, 1);
    // the read copy of the first frame is untouched
    assert!(sim.field_a.data.iter().all(|&v| v == 0));
    // agents deposited into the write copy
    let total: u64 = sim.field_b.data.iter().map(|&v| v as u64).sum();
    assert!(total > 0);

    sim.step_frame(&g, 3, 1000);
    assert_eq!(sim.state, SimState::Update(0));
    assert_eq!(sim.frame, 2);

    // the display image has one RGBA pixel per cell
    assert_eq!(sim.display.width, 24);
    assert_eq!(sim.display.height, 16);
    assert_eq!(sim.display.data.len(), 24 * 16 * 4);
}

#[test]
fn painting_raises_the_target_layer_next_frame() {
    let cfg = PheromoneConfig {
        layer_count: 3,
        brush_target_layer: 2,
        universal_love_layers: vec![],
        universal_hate_layers: vec![],
        paint_only_layers: vec![],
    };
    let authored: Vec<SpeciesAuthoring> = Vec::new();
    let mut sim = Simulation::new_simulation(cfg, 20, 20, 0, &authored);
    sim.advance_state(ready()).unwrap();
    sim.advance_state(ready()).unwrap();
    let g = GlobalUniforms {
        delta_ticks: 1,
        frame: 1,
        pointer_x: 10 * RATE_ONE,
        pointer_y: 10 * RATE_ONE,
        left_button_down: true,
        right_button_down: false,
    };
    sim.step_frame(&g, 2, 70_000);
    // with no agents, the painted cell holds exactly the brush amount
    assert_eq!(sim.field_b.get(2, 10, 10), 70_000);
    assert_eq!(sim.field_b.get(0, 10, 10), 0);
    assert_eq!(sim.field_b.get(1, 10, 10), 0);
}
