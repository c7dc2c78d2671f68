use galaxy_sim::particle::{Particle, Vec3};
use galaxy_sim::scalar::Scalar;

fn s(x: f32) -> Scalar {
    Scalar::from_bits(x.to_bits())
}

fn table() -> Vec<f32> {
    vec![
        0.0,
        -0.0,
        f32::from_bits(1),
        -f32::from_bits(1),
        f32::from_bits(0x007F_FFFF),
        f32::MIN_POSITIVE,
        -f32::MIN_POSITIVE,
        5e-11,
        5.01e-11,
        -5e-11,
        0.1,
        1.0,
        -1.0,
        1.0000001,
        2.0,
        1e8,
        -1e8,
        7e9,
        f32::MAX,
        f32::MIN,
        f32::INFINITY,
        f32::NEG_INFINITY,
        f32::NAN,
        -f32::NAN,
        f32::from_bits(0x7F80_0001),
    ]
}

#[test]
fn bits_round_trip() {
    for x in table() {
        assert_eq!(s(x).to_bits(), x.to_bits());
        assert_eq!(Scalar { bits: x.to_bits() }, s(x));
    }
}

#[test]
fn classification_agrees_with_the_numbers() {
    for x in table() {
        assert_eq!(s(x).is_finite(), x.is_finite(), "finite {:?}", x);
        assert_eq!(s(x).is_nan(), x.is_nan(), "nan {:?}", x);
        assert_eq!(s(x).is_zero(), x == 0.0, "zero {:?}", x);
        assert_eq!(s(x).is_non_negative(), x >= 0.0, "non-negative {:?}", x);
        assert_eq!(s(x).is_positive(), x > 0.0, "positive {:?}", x);
    }
}

#[test]
fn order_agrees_with_the_numbers() {
    for a in table() {
        for b in table() {
            assert_eq!(s(a).lt(&s(b)), a < b, "{:?} < {:?}", a, b);
            assert_eq!(s(a).le(&s(b)), a <= b, "{:?} <= {:?}", a, b);
        }
    }
}

#[test]
fn order_on_neighbouring_patterns() {
    let mut bits: u32 = 0;
    while bits < 0x7F80_0000 {
        let a = f32::from_bits(bits);
        let b = f32::from_bits(bits + 1);
        assert!(s(a).lt(&s(b)));
        assert!(!s(b).lt(&s(a)));
        assert!(s(-b).lt(&s(-a)));
        bits += 0x0003_FFFF;
    }
}

#[test]
fn zeros_are_equal_in_order_but_distinct_scalars() {
    assert!(s(0.0).le(&s(-0.0)));
    assert!(s(-0.0).le(&s(0.0)));
    assert!(!s(-0.0).lt(&s(0.0)));
    assert_ne!(s(0.0), s(-0.0));
    assert!(s(-0.0).is_zero());
    assert!(s(-0.0).is_non_negative());
    assert!(!s(-0.0).is_positive());
}

#[test]
fn vectors_are_finite_and_zero_by_component() {
    let v = Vec3::new(s(1.0), s(2.0), s(3.0));
    assert!(v.is_finite());
    assert!(!v.is_zero());
    assert!(!Vec3::new(s(1.0), s(f32::NAN), s(3.0)).is_finite());
    assert!(!Vec3::new(s(1.0), s(2.0), s(f32::INFINITY)).is_finite());
    assert!(Vec3::new(s(0.0), s(-0.0), s(0.0)).is_zero());
    assert!(!Vec3::new(s(0.0), s(0.0), s(1e-40)).is_zero());
}

#[test]
fn particle_invariant() {
    let pos = Vec3::new(s(1.0), s(2.0), s(3.0));
    let vel = Vec3::new(s(0.0), s(0.0), s(0.0));
    let p = Particle::new(pos, vel, s(5.0), s(0.1));
    assert_eq!(p, Particle { pos, vel, mass: s(5.0), calibrate: s(0.1) });
    assert!(p.is_valid());
    assert!(p.is_finite());
    assert!(Particle::new(pos, vel, s(0.0), s(0.1)).is_valid());
    assert!(!Particle::new(pos, vel, s(-5.0), s(0.1)).is_valid());
    assert!(!Particle::new(pos, vel, s(f32::NAN), s(0.1)).is_valid());
    assert!(!Particle::new(pos, vel, s(5.0), s(0.0)).is_valid());
    assert!(!Particle::new(pos, vel, s(5.0), s(-0.1)).is_valid());
    let far = Vec3::new(s(f32::INFINITY), s(0.0), s(0.0));
    assert!(!Particle::new(far, vel, s(5.0), s(0.1)).is_valid());
    assert!(!Particle::new(pos, far, s(5.0), s(0.1)).is_finite());
}

#[test]
fn particle_words_are_laid_out_in_order() {
    let p = Particle::new(
        Vec3::new(s(1.0), s(2.0), s(3.0)),
        Vec3::new(s(4.0), s(5.0), s(6.0)),
        s(7.0),
        s(8.0),
    );
    let mut out: Vec<u32> = vec![0xDEAD_BEEF];
    p.write_words(&mut out);
    let expected: Vec<u32> = vec![
        0xDEAD_BEEF,
        1.0f32.to_bits(),
        2.0f32.to_bits(),
        3.0f32.to_bits(),
        0,
        4.0f32.to_bits(),
        5.0f32.to_bits(),
        6.0f32.to_bits(),
        0,
        7.0f32.to_bits(),
        8.0f32.to_bits(),
        0,
        0,
    ];
    assert_eq!(out, expected);
}
