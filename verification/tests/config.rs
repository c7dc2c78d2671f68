use galaxy_sim::config::{Band, Config, Interval, Share};
use galaxy_sim::formation::{formation, radius_interval, Group};
use galaxy_sim::scalar::Scalar;

fn s(x: f32) -> Scalar {
    Scalar::from_bits(x.to_bits())
}

#[test]
fn standard_dials_have_their_values() {
    let c = Config::standard();
    assert_eq!(c.bulge.radius.low, s(5e-11));
    assert_eq!(c.bulge.radius.high, s(5e-11f32 + 1e-13f32));
    assert_eq!(c.ring.radius.low, s(5e-11));
    assert_eq!(c.ring.radius.high, s(5e-11f32 + 8e-10f32));
    assert_eq!(c.arm.radius.low, s(7e-11));
    assert_eq!(c.arm.radius.high, s(7e-11f32 + 1e-9f32));
    assert_eq!(c.arms, 2);
    assert_eq!(c.density, s(7e9));
    assert_eq!(c.noise, s(std::f32::consts::PI / 8.0));
    assert_eq!(c.gravity, s(6.6e-31));
    assert_eq!(c.mass, s(1e8));
    assert_eq!(c.bulge.share, Share { parts: 1, divisor: 10 });
    assert_eq!(c.ring.share, Share { parts: 1, divisor: 10 });
    assert_eq!(c.arm.share, Share { parts: 4, divisor: 5 });
    assert!(c.is_wf());
}

#[test]
fn standard_shares_of_a_multiple_of_ten_sum_to_the_whole() {
    let c = Config::standard();
    for amount in [0u32, 10, 20, 100, 10000, 4294967290] {
        let bulge = c.bulge.share.count(amount);
        let ring = c.ring.share.count(amount);
        let arm = c.arm.share.count(amount);
        assert_eq!(bulge, (amount / 10) as u64);
        assert_eq!(ring, (amount / 10) as u64);
        assert_eq!(arm, 8 * (amount / 10) as u64);
        assert_eq!(bulge + ring + arm, amount as u64);
    }
}

#[test]
fn shares_count_whole_multiples_only() {
    let c = Config::standard();
    assert_eq!(c.bulge.share.count(15), 1);
    assert_eq!(c.ring.share.count(15), 1);
    assert_eq!(c.arm.share.count(15), 12);
    assert_eq!(c.bulge.share.count(9), 0);
    assert_eq!(c.arm.share.count(9), 4);
    assert_eq!(c.arm.share.count(4), 0);
    assert_eq!(Share { parts: 3, divisor: 7 }.count(50), 21);
    assert_eq!(Share { parts: 0, divisor: 7 }.count(50), 0);
    assert_eq!(Share { parts: 1, divisor: 1 }.count(u32::MAX), u32::MAX as u64);
}

#[test]
fn share_well_formedness() {
    assert!(Share { parts: 1, divisor: 10 }.is_wf());
    assert!(Share { parts: 10, divisor: 10 }.is_wf());
    assert!(Share { parts: 0, divisor: 1 }.is_wf());
    assert!(!Share { parts: 1, divisor: 0 }.is_wf());
    assert!(!Share { parts: 0, divisor: 0 }.is_wf());
    assert!(!Share { parts: 11, divisor: 10 }.is_wf());
}

#[test]
fn interval_is_half_open() {
    let i = Interval { low: s(5e-11), high: s(5e-11f32 + 1e-13f32) };
    assert!(i.is_wf());
    assert!(i.holds(&s(5e-11)));
    assert!(i.holds(&s(5.005e-11)));
    assert!(!i.holds(&s(5e-11f32 + 1e-13f32)));
    assert!(i.holds(&Scalar::from_bits((5e-11f32 + 1e-13f32).to_bits() - 1)));
    assert!(!i.holds(&Scalar::from_bits(5e-11f32.to_bits() - 1)));
    assert!(!i.holds(&s(0.0)));
    assert!(!i.holds(&s(-5.005e-11)));
    assert!(!i.holds(&s(f32::NAN)));
    assert!(!i.holds(&s(f32::INFINITY)));
}

#[test]
fn interval_well_formedness() {
    assert!(Interval { low: s(-1.0), high: s(1.0) }.is_wf());
    assert!(!Interval { low: s(1.0), high: s(1.0) }.is_wf());
    assert!(!Interval { low: s(2.0), high: s(1.0) }.is_wf());
    assert!(!Interval { low: s(1.0), high: s(f32::INFINITY) }.is_wf());
    assert!(!Interval { low: s(f32::NAN), high: s(1.0) }.is_wf());
    assert!(!Interval { low: s(-0.0), high: s(0.0) }.is_wf());
}

#[test]
fn config_well_formedness() {
    let c = Config::standard();
    assert!(!Config { arms: 0, ..c }.is_wf());
    assert!(!Config { mass: s(-1.0), ..c }.is_wf());
    assert!(!Config { mass: s(f32::NAN), ..c }.is_wf());
    assert!(Config { mass: s(0.0), ..c }.is_wf());
    let bad = Band { share: Share { parts: 1, divisor: 0 }, radius: c.bulge.radius };
    assert!(!bad.is_wf());
    assert!(!Config { bulge: bad, ..c }.is_wf());
    assert!(!Config { ring: bad, ..c }.is_wf());
    assert!(!Config { arm: bad, ..c }.is_wf());
}

#[test]
fn groups_follow_one_another() {
    let c = Config::standard();
    let mut seen: Vec<Group> = Vec::new();
    let mut k: u64 = 0;
    while let Some(g) = formation(&c, 20, k) {
        seen.push(g);
        k += 1;
    }
    let mut expected = vec![Group::Bulge, Group::Bulge, Group::Ring, Group::Ring];
    expected.extend(vec![Group::Arm; 16]);
    assert_eq!(seen, expected);
    assert_eq!(formation(&c, 20, 20), None);
    assert_eq!(formation(&c, 20, 21), None);
    assert_eq!(formation(&c, 0, 0), None);
    assert_eq!(formation(&c, 9, 0), Some(Group::Arm));
    assert_eq!(formation(&c, 9, 3), Some(Group::Arm));
    assert_eq!(formation(&c, 9, 4), None);
}

#[test]
fn groups_draw_from_their_own_intervals() {
    let c = Config::standard();
    assert_eq!(radius_interval(&c, Group::Bulge), c.bulge.radius);
    assert_eq!(radius_interval(&c, Group::Ring), c.ring.radius);
    assert_eq!(radius_interval(&c, Group::Arm), c.arm.radius);
}

#[test]
fn sampleable_dials() {
    let c = Config::standard();
    assert!(c.is_sampleable());
    assert!(Config { noise: s(0.0), ..c }.is_sampleable());
    assert!(Config { noise: s(-0.5), ..c }.is_sampleable());
    assert!(!Config { noise: s(f32::NAN), ..c }.is_sampleable());
    assert!(!Config { noise: s(f32::INFINITY), ..c }.is_sampleable());
    let below = Band {
        share: c.bulge.share,
        radius: Interval { low: s(-1.0), high: s(1.0) },
    };
    assert!(below.is_wf());
    assert!(!Config { bulge: below, ..c }.is_sampleable());
    assert!(!Config { ring: below, ..c }.is_sampleable());
    assert!(!Config { arm: below, ..c }.is_sampleable());
    let from_zero = Band {
        share: c.bulge.share,
        radius: Interval { low: s(-0.0), high: s(1.0) },
    };
    assert!(Config { arm: from_zero, ..c }.is_sampleable());
}
