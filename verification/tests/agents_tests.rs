use slime_sim::agents::{agents_to_gpu_bytes, generate_agents, Agent};
use slime_sim::rates::RATE_ONE;
use slime_sim::trig::ANGLE_FULL;

#[test]
fn generate_agents_basic() {
    let (w, h) = (200u32, 100u32);
    let agents = generate_agents(w, h, 1000, 3);
    assert_eq!(agents.len(), 1000);

    // positions should be within bounds and species index in range
    for a in agents.iter() {
        assert!(a.x <= w * RATE_ONE);
        assert!(a.y <= h * RATE_ONE);
        assert!(a.species_index < 3);
        // the heading always names an angle
        assert!(a.heading < ANGLE_FULL);
    }
}

#[test]
fn generate_agents_zero() {
    let agents = generate_agents(100, 100, 0, 3);
    assert!(agents.is_empty());
}

#[test]
fn generate_agents_species_one() {
    let agents = generate_agents(100, 100, 10, 1);
    assert_eq!(agents.len(), 10);
    for a in agents.iter() {
        assert_eq!(a.species_index, 0);
    }
}

#[test]
fn agents_to_gpu_bytes_roundtrip() {
    let agents = vec![
        Agent { x: 10, y: 20, heading: 16384, species_index: 0 },
        Agent { x: 30, y: 40, heading: 32768, species_index: 1 },
    ];

    let bytes = agents_to_gpu_bytes(&agents);
    // sixteen bytes per agent
    assert_eq!(bytes.len(), 16 * agents.len());
    // bytes should match the little-endian packing of the four words
    let expected: Vec<u8> = vec![
        10, 0, 0, 0, 20, 0, 0, 0, 0, 64, 0, 0, 0, 0, 0, 0, //
        30, 0, 0, 0, 40, 0, 0, 0, 0, 128, 0, 0, 1, 0, 0, 0,
    ];
    assert_eq!(bytes, expected);
}

#[test]
fn seeded_agents_follow_round_robin_order() {
    let agents = generate_agents(200, 100, 1000, 3);
    for (i, a) in agents.iter().enumerate() {
        assert_eq!(a.species_index, (i as u32) % 3);
    }
}

#[test]
fn seeded_agents_stay_inside_the_central_disc() {
    // The disc radius is 0.4 x min(width, height); no agent may leave it,
    // which would fail if the random draws were passed through unscaled.
    let (w, h) = (100u32, 60u32);
    let agents = generate_agents(w, h, 500, 2);
    let cx = (w as i64 * RATE_ONE as i64) / 2;
    let cy = (h as i64 * RATE_ONE as i64) / 2;
    let radius = (h as i64 * RATE_ONE as i64) * 2 / 5;
    for a in agents.iter() {
        let dx = a.x as i64 - cx;
        let dy = a.y as i64 - cy;
        // allow one cell of fixed-point rounding slack per axis
        assert!(dx * dx + dy * dy <= (radius + RATE_ONE as i64) * (radius + RATE_ONE as i64));
    }
}
