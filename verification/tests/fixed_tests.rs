use particle_swarm::fixed::{fx_add, fx_sub, fx_mul, SCALE};

#[test]
fn add_exact() {
    assert_eq!(fx_add(250_000, 500_000), 750_000);
    assert_eq!(fx_add(-250_000, 500_000), 250_000);
}

#[test]
fn add_saturates() {
    assert_eq!(fx_add(i64::MAX, 1), i64::MAX);
    assert_eq!(fx_add(i64::MIN, -1), i64::MIN);
}

#[test]
fn sub_exact() {
    assert_eq!(fx_sub(250_000, 500_000), -250_000);
}

#[test]
fn sub_saturates() {
    assert_eq!(fx_sub(i64::MIN, 1), i64::MIN);
    assert_eq!(fx_sub(i64::MAX, -1), i64::MAX);
}

#[test]
fn mul_exact() {
    // 2.0 * 3.0 == 6.0
    assert_eq!(fx_mul(2 * SCALE, 3 * SCALE), 6 * SCALE);
    // 0.5 * 0.5 == 0.25
    assert_eq!(fx_mul(SCALE / 2, SCALE / 2), SCALE / 4);
    // -2.0 * 3.0 == -6.0
    assert_eq!(fx_mul(-2 * SCALE, 3 * SCALE), -6 * SCALE);
}

#[test]
fn mul_rounds_toward_zero() {
    // 0.000003 * 0.5 == 0.0000015, kept as 0.000001
    assert_eq!(fx_mul(3, SCALE / 2), 1);
    // the negative counterpart rounds up toward zero, not down
    assert_eq!(fx_mul(-3, SCALE / 2), -1);
}

#[test]
fn mul_saturates() {
    assert_eq!(fx_mul(i64::MAX, i64::MAX), i64::MAX);
    assert_eq!(fx_mul(i64::MAX, i64::MIN), i64::MIN);
    assert_eq!(fx_mul(i64::MIN, i64::MIN), i64::MAX);
}
