use slime_sim::trig::{cos_fp, isqrt, sin_fp, ANGLE_HALF, ANGLE_QUARTER, SIN_ONE};

#[test]
fn sine_hits_the_cardinal_points() {
    assert_eq!(sin_fp(0), 0);
    assert_eq!(sin_fp(ANGLE_QUARTER), SIN_ONE);
    assert_eq!(sin_fp(ANGLE_HALF), 0);
    assert_eq!(sin_fp(ANGLE_HALF + ANGLE_QUARTER), -SIN_ONE);
    assert_eq!(cos_fp(0), SIN_ONE);
    assert_eq!(cos_fp(ANGLE_QUARTER), 0);
    assert_eq!(cos_fp(ANGLE_HALF), -SIN_ONE);
}

#[test]
fn sine_stays_within_unit_range() {
    let mut a: u32 = 0;
    while a < 65536 {
        let s = sin_fp(a);
        let c = cos_fp(a);
        assert!(-SIN_ONE <= s && s <= SIN_ONE);
        assert!(-SIN_ONE <= c && c <= SIN_ONE);
        a += 97;
    }
}

#[test]
fn integer_square_roots_are_exact_floors() {
    assert_eq!(isqrt(0), 0);
    assert_eq!(isqrt(1), 1);
    assert_eq!(isqrt(3), 1);
    assert_eq!(isqrt(4), 2);
    assert_eq!(isqrt(144_000_000), 12_000);
    assert_eq!(isqrt(1_000_000_000_000), 1_000_000);
    assert_eq!(isqrt(999_999_999_999), 999_999);
}
