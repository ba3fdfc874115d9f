use task_core::binary32::{lt, nan, INFINITY, ONE, SIGN, ZERO};

fn samples() -> Vec<f32> {
    let mut all = vec![
        0.0f32,
        -0.0,
        1.0,
        -1.0,
        0.5,
        -0.5,
        2.0,
        -2.0,
        f32::MIN_POSITIVE,
        -f32::MIN_POSITIVE,
        f32::MAX,
        f32::MIN,
        f32::EPSILON,
        f32::INFINITY,
        f32::NEG_INFINITY,
        f32::NAN,
        -f32::NAN,
        f32::from_bits(1),
        f32::from_bits(0x8000_0001),
        f32::from_bits(0x007f_ffff),
        f32::from_bits(0x7f7f_ffff),
        f32::from_bits(0x7f80_0001),
        f32::from_bits(0xffff_ffff),
        f32::from_bits(0x3f7f_ffff),
        f32::from_bits(0x3f80_0001),
        0.1,
        0.3,
        0.999_999,
        1e-40,
        3.0e38,
    ];
    let mut x: u32 = 0x1234_5678;
    for _ in 0..200 {
        x = x.wrapping_mul(1_664_525).wrapping_add(1_013_904_223);
        all.push(f32::from_bits(x));
    }
    all
}

#[test]
fn encodings_of_the_named_numbers() {
    assert_eq!(ZERO, 0.0f32.to_bits());
    assert_eq!(ONE, 1.0f32.to_bits());
    assert_eq!(INFINITY, f32::INFINITY.to_bits());
    assert_eq!(SIGN, (-0.0f32).to_bits());
}

#[test]
fn comparison_agrees_with_the_hardware() {
    let all = samples();
    for a in &all {
        for b in &all {
            assert_eq!(lt(a.to_bits(), b.to_bits()), a < b, "{:?} < {:?}", a, b);
        }
    }
}

#[test]
fn comparison_at_the_edges() {
    assert!(!lt(ZERO, ZERO));
    assert!(!lt(ZERO, SIGN));
    assert!(!lt(SIGN, ZERO));
    assert!(lt(ZERO, 1));
    assert!(lt(SIGN + 1, ZERO));
    assert!(lt(ONE - 1, ONE));
    assert!(!lt(ONE, ONE));
    assert!(lt(ONE, INFINITY));
    assert!(!lt(INFINITY, INFINITY + 1));
    assert!(!lt(ZERO, INFINITY + 1));
    assert!(!lt(INFINITY + 1, ZERO));
    assert!(lt(SIGN + INFINITY, ZERO));
    assert!(!lt(u32::MAX, ZERO));
}

#[test]
fn nan_agrees_with_the_hardware() {
    for a in samples() {
        assert_eq!(nan(a.to_bits()), a.is_nan(), "{:?}", a);
    }
    assert!(!nan(INFINITY));
    assert!(nan(INFINITY + 1));
    assert!(!nan(SIGN + INFINITY));
    assert!(nan(SIGN + INFINITY + 1));
    assert!(nan(u32::MAX));
    assert!(!nan(ZERO));
    assert!(!nan(SIGN));
}
