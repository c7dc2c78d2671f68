//! The dials of the formation generator.
//!
//! A formation is sampled in three groups: a tight bulge round the centre, a
//! wider ring that softens the transition, and the spiral arms. Each group
//! takes a fixed share of the requested count and draws its radii from its
//! own interval. None of these numbers is derived from anything: they are
//! tuned by eye, and kept here by name so that they can be tuned again.

use vstd::prelude::*;
use vstd::arithmetic::mul::{lemma_mul_inequality, lemma_mul_is_commutative};
use vstd::arithmetic::div_mod::lemma_fundamental_div_mod;
use crate::scalar::{lemma_magnitude_order, Scalar};

verus! {

/// A half-open interval `[low, high)` of scalars.
#[derive(Clone, Copy, Debug, PartialEq, Eq, Structural)]
pub struct Interval {
    pub low: Scalar,
    pub high: Scalar,
}

impl Interval {
    /// Both ends are finite and `low < high`, so the interval is not empty.
    pub open spec fn wf(self) -> bool {
        self.low.finite() && self.high.finite() && self.low.less(self.high)
    }

    /// `low <= r < high`. No NaN is in any interval.
    pub open spec fn contains(self, r: Scalar) -> bool {
        self.low.at_most(r) && r.less(self.high)
    }

    /// Whether both ends are finite and `low < high`.
    pub fn is_wf(&self) -> (r: bool)
        ensures
            r == self.wf(),
    {
        self.low.is_finite() && self.high.is_finite() && self.low.lt(&self.high)
    }

    /// Whether `low <= r < high`.
    pub fn holds(&self, r: &Scalar) -> (inside: bool)
        ensures
            inside == self.contains(*r),
    {
        self.low.le(r) && r.lt(&self.high)
    }
}

/// The share of a requested count that goes to one group:
/// `parts` out of every `divisor` particles, counted on whole multiples of
/// `divisor` only.
#[derive(Clone, Copy, Debug, PartialEq, Eq, Structural)]
pub struct Share {
    pub parts: u32,
    pub divisor: u32,
}

impl Share {
    /// The divisor is not zero and the share is at most the whole.
    pub open spec fn wf(self) -> bool {
        0 < self.divisor && self.parts <= self.divisor
    }

    /// How many of `amount` requested particles the group gets:
    /// `(amount / divisor) * parts`.
    pub open spec fn of(self, amount: nat) -> nat {
        (amount / (self.divisor as nat)) * (self.parts as nat)
    }

    /// Whether the divisor is not zero and the share is at most the whole.
    pub fn is_wf(&self) -> (r: bool)
        ensures
            r == self.wf(),
    {
        0 < self.divisor && self.parts <= self.divisor
    }

    /// The group's part of `amount`.
    pub fn count(&self, amount: u32) -> (n: u64)
        requires
            self.wf(),
        ensures
            n == self.of(amount as nat),
            n <= amount,
    {
        proof {
            lemma_share_bounded(*self, amount as nat);
        }
        let whole: u64 = (amount / self.divisor) as u64;
        whole * (self.parts as u64)
    }
}

/// A group never gets more than was requested.
pub proof fn lemma_share_bounded(share: Share, amount: nat)
    requires
        share.wf(),
    ensures
        share.of(amount) <= amount,
{
    let d = share.divisor as int;
    let q = (amount as int) / d;
    lemma_fundamental_div_mod(amount as int, d);
    lemma_mul_inequality(share.parts as int, d, q);
    lemma_mul_is_commutative(share.parts as int, q);
    lemma_mul_is_commutative(d, q);
}

/// One sampling group: its share of the count and where its radii fall.
#[derive(Clone, Copy, Debug, PartialEq, Eq, Structural)]
pub struct Band {
    pub share: Share,
    pub radius: Interval,
}

impl Band {
    /// The share and the interval are well formed.
    pub open spec fn wf(self) -> bool {
        self.share.wf() && self.radius.wf()
    }

    /// Whether share and interval are well formed.
    pub fn is_wf(&self) -> (r: bool)
        ensures
            r == self.wf(),
    {
        self.share.is_wf() && self.radius.is_wf()
    }
}

/// Everything the generator is tuned by.
#[derive(Clone, Copy, Debug, PartialEq, Eq, Structural)]
pub struct Config {
    /// The dense group round the centre.
    pub bulge: Band,
    /// The wider, thinner group between bulge and arms.
    pub ring: Band,
    /// The spiral arms.
    pub arm: Band,
    /// Number of spiral arms.
    pub arms: u32,
    /// How fast an arm winds: the angle falls by `density * radius`.
    pub density: Scalar,
    /// Standard deviation of the angular scatter round an arm.
    pub noise: Scalar,
    /// The gravitational constant used for orbital speeds.
    pub gravity: Scalar,
    /// Mass of every generated satellite.
    pub mass: Scalar,
}

impl Config {
    /// The groups are well formed, there is at least one arm, and satellites
    /// do not have negative mass.
    pub open spec fn wf(self) -> bool {
        &&& self.bulge.wf()
        &&& self.ring.wf()
        &&& self.arm.wf()
        &&& self.arms > 0
        &&& self.mass.non_negative()
    }

    /// The dials can be handed to a sampler that draws real numbers: the
    /// scatter round an arm is a finite deviation, and no radius is negative,
    /// so that every interval has a finite width.
    pub open spec fn sampleable(self) -> bool {
        &&& self.noise.finite()
        &&& self.bulge.radius.low.non_negative()
        &&& self.ring.radius.low.non_negative()
        &&& self.arm.radius.low.non_negative()
    }

    /// Number of satellites generated for a request of `amount`: the three
    /// groups' parts together.
    pub open spec fn quota(self, amount: nat) -> nat {
        self.bulge.share.of(amount) + self.ring.share.of(amount) + self.arm.share.of(amount)
    }

    /// The configuration the simulation was tuned with: a tenth of the count
    /// in the bulge, a tenth in the ring, four fifths in two arms.
    pub open spec fn standard_spec() -> Config {
        Config {
            bulge: Band {
                share: Share { parts: 1, divisor: 10 },
                radius: Interval { low: Scalar { bits: 0x2E5B_E6FF }, high: Scalar { bits: 0x2E5C_5796 } },
            },
            ring: Band {
                share: Share { parts: 1, divisor: 10 },
                radius: Interval { low: Scalar { bits: 0x2E5B_E6FF }, high: Scalar { bits: 0x3069_A56F } },
            },
            arm: Band {
                share: Share { parts: 4, divisor: 5 },
                radius: Interval { low: Scalar { bits: 0x2E99_EE7F }, high: Scalar { bits: 0x3093_0F47 } },
            },
            arms: 2,
            density: Scalar { bits: 0x4FD0_9DC3 },
            noise: Scalar { bits: 0x3EC9_0FDB },
            gravity: Scalar { bits: 0x0D56_2EA8 },
            mass: Scalar { bits: 0x4CBE_BC20 },
        }
    }

    /// The standard configuration.
    ///
    /// | dial          | value                     |
    /// |---------------|---------------------------|
    /// | bulge radius  | `[5e-11, 5e-11 + 1e-13)`  |
    /// | ring radius   | `[5e-11, 5e-11 + 8e-10)`  |
    /// | arm radius    | `[7e-11, 7e-11 + 1e-9)`   |
    /// | arms          | 2                         |
    /// | density       | `7e9`                     |
    /// | noise         | `pi / 8`                  |
    /// | gravity       | `6.6e-31`                 |
    /// | mass          | `1e8`                     |
    pub fn standard() -> (c: Config)
        ensures
            c == Config::standard_spec(),
            c.wf(),
            c.sampleable(),
    {
        let c = Config {
            bulge: Band {
                share: Share { parts: 1, divisor: 10 },
                radius: Interval { low: Scalar { bits: 0x2E5B_E6FF }, high: Scalar { bits: 0x2E5C_5796 } },
            },
            ring: Band {
                share: Share { parts: 1, divisor: 10 },
                radius: Interval { low: Scalar { bits: 0x2E5B_E6FF }, high: Scalar { bits: 0x3069_A56F } },
            },
            arm: Band {
                share: Share { parts: 4, divisor: 5 },
                radius: Interval { low: Scalar { bits: 0x2E99_EE7F }, high: Scalar { bits: 0x3093_0F47 } },
            },
            arms: 2,
            density: Scalar { bits: 0x4FD0_9DC3 },
            noise: Scalar { bits: 0x3EC9_0FDB },
            gravity: Scalar { bits: 0x0D56_2EA8 },
            mass: Scalar { bits: 0x4CBE_BC20 },
        };
        proof {
            lemma_magnitude_order(c.bulge.radius.low, c.bulge.radius.high);
            lemma_magnitude_order(c.ring.radius.low, c.ring.radius.high);
            lemma_magnitude_order(c.arm.radius.low, c.arm.radius.high);
        }
        c
    }

    /// Whether a sampler that draws real numbers can work with the dials.
    pub fn is_sampleable(&self) -> (r: bool)
        ensures
            r == self.sampleable(),
    {
        self.noise.is_finite() && self.bulge.radius.low.is_non_negative()
            && self.ring.radius.low.is_non_negative() && self.arm.radius.low.is_non_negative()
    }

    /// Whether the configuration is well formed.
    pub fn is_wf(&self) -> (r: bool)
        ensures
            r == self.wf(),
    {
        self.bulge.is_wf() && self.ring.is_wf() && self.arm.is_wf() && self.arms > 0
            && self.mass.is_non_negative()
    }
}

/// With the standard shares a request for a multiple of ten is met exactly:
/// a tenth goes to the bulge, a tenth to the ring, eight tenths to the arms.
pub proof fn lemma_standard_split(amount: nat)
    requires
        amount % 10 == 0,
    ensures
        Config::standard_spec().bulge.share.of(amount) == amount / 10,
        Config::standard_spec().ring.share.of(amount) == amount / 10,
        Config::standard_spec().arm.share.of(amount) == 8 * (amount / 10),
        Config::standard_spec().quota(amount) == amount,
{
}

/// Whatever the shares, a formation never holds more than three times what
/// was requested.
pub proof fn lemma_quota_bounded(config: Config, amount: nat)
    requires
        config.wf(),
    ensures
        config.quota(amount) <= 3 * amount,
{
    lemma_share_bounded(config.bulge.share, amount);
    lemma_share_bounded(config.ring.share, amount);
    lemma_share_bounded(config.arm.share, amount);
}

/// With the standard shares a formation never holds more than was requested,
/// and falls short by less than ten.
pub proof fn lemma_standard_quota_bounded(amount: nat)
    ensures
        Config::standard_spec().quota(amount) <= amount,
        amount < Config::standard_spec().quota(amount) + 10,
{
}

} // verus!
