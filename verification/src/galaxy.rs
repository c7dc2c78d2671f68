//! What a run is started from: a list of descriptors, each either one
//! particle given outright or a galaxy to be formed round a central mass.

use vstd::prelude::*;
use crate::config::Config;
use crate::particle::{Particle, Vec3};
use crate::scalar::Scalar;

verus! {

#[derive(Clone, Copy, Debug, PartialEq, Eq, Structural)]
pub enum Galaxy {
    /// A single particle, placed as given.
    Particle { pos: Vec3, vel: Vec3, mass: Scalar },
    /// A central mass and a request for `amount` satellites orbiting it in
    /// the plane that `normal` stands on.
    Init { center_pos: Vec3, center_vel: Vec3, center_mass: Scalar, amount: u32, normal: Vec3 },
}

impl Galaxy {
    /// A descriptor can be simulated when its vectors are finite, its mass is
    /// not negative and, for a formation, its normal has a direction.
    pub open spec fn valid(self) -> bool {
        match self {
            Galaxy::Particle { pos, vel, mass } => {
                pos.finite() && vel.finite() && mass.non_negative()
            },
            Galaxy::Init { center_pos, center_vel, center_mass, amount, normal } => {
                &&& center_pos.finite()
                &&& center_vel.finite()
                &&& center_mass.non_negative()
                &&& normal.finite()
                &&& !normal.zero()
            },
        }
    }

    /// The particle that stands for the descriptor itself: the explicit
    /// particle, or the central mass of a formation.
    pub open spec fn anchor(self, calibrate: Scalar) -> Particle {
        match self {
            Galaxy::Particle { pos, vel, mass } => Particle { pos, vel, mass, calibrate },
            Galaxy::Init { center_pos, center_vel, center_mass, amount, normal } => Particle {
                pos: center_pos,
                vel: center_vel,
                mass: center_mass,
                calibrate,
            },
        }
    }

    /// How many satellites were asked for; none for an explicit particle.
    pub open spec fn amount(self) -> nat {
        match self {
            Galaxy::Particle { pos, vel, mass } => 0,
            Galaxy::Init { center_pos, center_vel, center_mass, amount, normal } => amount as nat,
        }
    }

    /// How many satellites the descriptor gets under `config`.
    pub open spec fn quota(self, config: Config) -> nat {
        match self {
            Galaxy::Particle { pos, vel, mass } => 0,
            Galaxy::Init { center_pos, center_vel, center_mass, amount, normal } => config.quota(
                amount as nat,
            ),
        }
    }

    /// Whether the descriptor can be simulated.
    pub fn is_valid(&self) -> (r: bool)
        ensures
            r == self.valid(),
    {
        match self {
            Galaxy::Particle { pos, vel, mass } => {
                pos.is_finite() && vel.is_finite() && mass.is_non_negative()
            },
            Galaxy::Init { center_pos, center_vel, center_mass, amount, normal } => {
                center_pos.is_finite() && center_vel.is_finite() && center_mass.is_non_negative()
                    && normal.is_finite() && !normal.is_zero()
            },
        }
    }

    /// The descriptor's anchor particle, with the given softening.
    pub fn anchor_particle(&self, calibrate: Scalar) -> (p: Particle)
        ensures
            p == self.anchor(calibrate),
            self.valid() && calibrate.positive() ==> p.valid(),
    {
        match self {
            Galaxy::Particle { pos, vel, mass } => Particle::new(*pos, *vel, *mass, calibrate),
            Galaxy::Init { center_pos, center_vel, center_mass, amount, normal } => Particle::new(
                *center_pos,
                *center_vel,
                *center_mass,
                calibrate,
            ),
        }
    }

    /// The number of satellites the descriptor gets under `config`.
    pub fn satellites(&self, config: &Config) -> (n: u64)
        requires
            config.wf(),
        ensures
            n == self.quota(*config),
    {
        match self {
            Galaxy::Particle { pos, vel, mass } => 0,
            Galaxy::Init { center_pos, center_vel, center_mass, amount, normal } => {
                let b: u64 = config.bulge.share.count(*amount);
                let r: u64 = config.ring.share.count(*amount);
                let a: u64 = config.arm.share.count(*amount);
                b + r + a
            },
        }
    }
}

} // verus!
