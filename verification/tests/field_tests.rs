use slime_sim::brush::apply_brush;
use slime_sim::composite::composite_pass;
use slime_sim::diffuse::{diffuse_decay_pass, PheromoneLayerParam};
use slime_sim::field::PheromoneField;
use slime_sim::rates::{per_frame_factor, RATE_ONE};
use slime_sim::species::ColorFp;

fn flat_params(layers: u32, diffusion: u32, decay: u32) -> Vec<PheromoneLayerParam> {
    let mut out = Vec::new();
    for _ in 0..layers {
        out.push(PheromoneLayerParam {
            diffusion,
            decay,
            color: ColorFp { r: RATE_ONE, g: RATE_ONE, b: RATE_ONE, a: RATE_ONE },
        });
    }
    out
}

#[test]
fn make_pheromone_array_images_layers_and_size() {
    let test_layers = 3u32; // the legacy RGB layer count
    let (prev, next) = slime_sim::field::make_pheromone_array_images(
        slime_sim::sim::SIZE_X,
        slime_sim::sim::SIZE_Y,
        test_layers,
    );

    // Verify the layer depth of both copies
    assert_eq!(prev.layers, test_layers);
    assert_eq!(next.layers, test_layers);

    // basic sanity: field size and layer count match expectations
    assert_eq!(prev.width, slime_sim::sim::SIZE_X);
    assert_eq!(prev.height, slime_sim::sim::SIZE_Y);
    assert_eq!(prev.layers, test_layers);
    assert_eq!(next.width, slime_sim::sim::SIZE_X);
    assert_eq!(next.height, slime_sim::sim::SIZE_Y);
    assert_eq!(next.layers, test_layers);
}

#[test]
fn create_pheromone_array_image_descriptor() {
    let test_layers = 3u32;
    let img = PheromoneField::new_field(slime_sim::sim::SIZE_X, slime_sim::sim::SIZE_Y, test_layers);
    // check dimensions and layer count
    assert_eq!(img.width, slime_sim::sim::SIZE_X);
    assert_eq!(img.height, slime_sim::sim::SIZE_Y);
    assert_eq!(img.layers, test_layers);
    // one cell per (x, y, layer) triple
    assert_eq!(
        img.data.len(),
        (slime_sim::sim::SIZE_X * slime_sim::sim::SIZE_Y * test_layers) as usize
    );
    // freshly allocated cells are all zero
    assert!(img.data.iter().all(|&v| v == 0));
    assert_eq!(img.get(2, 0, 0), 0);
    assert_eq!(img.get(0, slime_sim::sim::SIZE_X - 1, slime_sim::sim::SIZE_Y - 1), 0);
}

#[test]
fn zero_field_stays_zero_under_diffusion() {
    // An all-zero field with no deposits stays all-zero over several
    // diffusion/decay steps.
    let mut f = PheromoneField::new_field(16, 12, 3);
    let params = flat_params(3, 400_000, 700_000);
    for _ in 0..5 {
        f = diffuse_decay_pass(&f, &params);
        assert!(f.data.iter().all(|&v| v == 0));
    }
}

#[test]
fn full_decay_clears_a_cell_without_diffusion() {
    let mut f = PheromoneField::new_field(8, 8, 1);
    f.set(0, 4, 4, 9_000);
    let params = flat_params(1, 0, RATE_ONE);
    let out = diffuse_decay_pass(&f, &params);
    assert_eq!(out.get(0, 4, 4), 0);
}

#[test]
fn diffusion_spreads_toward_neighbours() {
    let mut f = PheromoneField::new_field(8, 8, 1);
    f.set(0, 4, 4, 900_000);
    // full diffusion, no decay: the centre cell becomes the 3x3 average
    let params = flat_params(1, RATE_ONE, 0);
    let out = diffuse_decay_pass(&f, &params);
    assert_eq!(out.get(0, 4, 4), 100_000);
    assert_eq!(out.get(0, 3, 4), 100_000);
    assert_eq!(out.get(0, 0, 0), 0);
}

#[test]
fn per_frame_factor_values() {
    // f(r, 0) = 0 and f(r, 1) = r exactly
    assert_eq!(per_frame_factor(700_000, 0), 0);
    assert_eq!(per_frame_factor(700_000, 1), 700_000);
    // f(0.4, 2) = 1 - 0.6^2 = 0.64
    assert_eq!(per_frame_factor(400_000, 2), 640_000);
    // monotone in time for a positive rate
    assert!(per_frame_factor(400_000, 1) < per_frame_factor(400_000, 2));
    assert!(per_frame_factor(400_000, 2) < per_frame_factor(400_000, 3));
    // a zero rate loses nothing at any time
    assert_eq!(per_frame_factor(0, 50), 0);
}

#[test]
fn brush_paints_only_the_target_layer() {
    // Brush at the field centre with target layer 2, left button down:
    // the centre cell of layer 2 grows, layers 0 and 1 are unaffected.
    let mut f = PheromoneField::new_field(32, 32, 3);
    let before = f.get(2, 16, 16);
    let px = 16 * RATE_ONE;
    let py = 16 * RATE_ONE;
    apply_brush(&mut f, 2, px, py, 4, 50_000, true, false);
    assert!(f.get(2, 16, 16) > before);
    assert_eq!(f.get(2, 16, 16), 50_000);
    for x in 0..32u32 {
        for y in 0..32u32 {
            assert_eq!(f.get(0, x, y), 0);
            assert_eq!(f.get(1, x, y), 0);
        }
    }
    // outside the radius the target layer is untouched as well
    assert_eq!(f.get(2, 16, 26), 0);
}

#[test]
fn brush_right_button_erases() {
    let mut f = PheromoneField::new_field(16, 16, 2);
    f.set(1, 8, 8, 777);
    f.set(1, 0, 0, 555);
    apply_brush(&mut f, 1, 8 * RATE_ONE, 8 * RATE_ONE, 2, 10, false, true);
    assert_eq!(f.get(1, 8, 8), 0);
    // far corner is outside the footprint
    assert_eq!(f.get(1, 0, 0), 555);
}

#[test]
fn brush_without_buttons_is_inert() {
    let mut f = PheromoneField::new_field(16, 16, 2);
    f.set(0, 8, 8, 42);
    apply_brush(&mut f, 0, 8 * RATE_ONE, 8 * RATE_ONE, 3, 1000, false, false);
    assert_eq!(f.get(0, 8, 8), 42);
    assert_eq!(f.get(0, 7, 8), 0);
}

#[test]
fn brush_clamps_pointer_outside_the_field() {
    let mut f = PheromoneField::new_field(16, 16, 1);
    // pointer far beyond the right edge clamps onto the last column
    apply_brush(&mut f, 0, 1_000 * RATE_ONE, 8 * RATE_ONE, 1, 7, true, false);
    assert_eq!(f.get(0, 15, 8), 7);
}

#[test]
fn composite_weights_layers_by_display_color() {
    let mut f = PheromoneField::new_field(4, 4, 2);
    f.set(0, 1, 1, RATE_ONE);
    f.set(1, 1, 1, RATE_ONE);
    let mut params = Vec::new();
    params.push(PheromoneLayerParam {
        diffusion: 0,
        decay: 0,
        color: ColorFp { r: 400_000, g: 0, b: 0, a: RATE_ONE },
    });
    params.push(PheromoneLayerParam {
        diffusion: 0,
        decay: 0,
        color: ColorFp { r: 0, g: 250_000, b: 0, a: RATE_ONE },
    });
    let img = composite_pass(&f, &params);
    assert_eq!(img.width, 4);
    assert_eq!(img.height, 4);
    // red from layer 0, green from layer 1, both at intensity 1.0
    let base = ((1 * 4 + 1) * 4) as usize;
    assert_eq!(img.data[base], 400_000);
    assert_eq!(img.data[base + 1], 250_000);
    assert_eq!(img.data[base + 2], 0);
    // an empty pixel is black
    assert_eq!(img.data[0], 0);
}
