//! The formation generator, as far as it decides anything.
//!
//! Satellites of a formation are produced one at a time and in a fixed order:
//! first the bulge, then the ring, then the arms. For each one the generator
//! says which group it belongs to and what the sampler may draw from;
//! drawing the radius and the angle, and turning them into a position and a
//! velocity, is real-number work that is done elsewhere and comes back as a
//! [`Sample`]. [`create`] turns an accepted sample into a particle.

use vstd::prelude::*;
use crate::config::{Config, Interval};
use crate::particle::{Particle, Vec3};
use crate::scalar::Scalar;

verus! {

/// The three sampling groups of a formation.
#[derive(Clone, Copy, Debug, PartialEq, Eq, Structural)]
pub enum Group {
    Bulge,
    Ring,
    Arm,
}

/// The group of the satellite that comes after `placed` others in a formation
/// of `amount`: the bulge is filled first, then the ring, then the arms.
/// `None` once the formation is full.
pub open spec fn group_at(config: Config, amount: nat, placed: nat) -> Option<Group> {
    let bulge = config.bulge.share.of(amount);
    let ring = config.ring.share.of(amount);
    let arm = config.arm.share.of(amount);
    if placed < bulge {
        Some(Group::Bulge)
    } else if placed < bulge + ring {
        Some(Group::Ring)
    } else if placed < bulge + ring + arm {
        Some(Group::Arm)
    } else {
        None
    }
}

/// The interval that a group's radii are drawn from.
pub open spec fn radius_of(config: Config, group: Group) -> Interval {
    match group {
        Group::Bulge => config.bulge.radius,
        Group::Ring => config.ring.radius,
        Group::Arm => config.arm.radius,
    }
}

/// The group of the next satellite of a formation of `amount` in which
/// `placed` satellites stand already, or `None` when the formation is full.
pub fn formation(config: &Config, amount: u32, placed: u64) -> (next: Option<Group>)
    requires
        config.wf(),
    ensures
        next == group_at(*config, amount as nat, placed as nat),
        next is Some <==> placed < config.quota(amount as nat),
{
    let bulge: u64 = config.bulge.share.count(amount);
    let ring: u64 = config.ring.share.count(amount);
    let arm: u64 = config.arm.share.count(amount);
    if placed < bulge {
        Some(Group::Bulge)
    } else if placed < bulge + ring {
        Some(Group::Ring)
    } else if placed < bulge + ring + arm {
        Some(Group::Arm)
    } else {
        None
    }
}

/// The interval that the radii of `group` are drawn from.
pub fn radius_interval(config: &Config, group: Group) -> (interval: Interval)
    ensures
        interval == radius_of(*config, group),
{
    match group {
        Group::Bulge => config.bulge.radius,
        Group::Ring => config.ring.radius,
        Group::Arm => config.arm.radius,
    }
}

/// What the sampler is asked for: one satellite of one formation.
///
/// The radius is to be drawn from `radius`. In the bulge and the ring the
/// angle is uniform over the circle; in an arm it is
/// `arm / arms` of a full turn, less `density * radius`, plus scatter of
/// standard deviation `noise`. Position and velocity follow from radius and
/// angle, the centre, the orbital `normal`, `gravity` and the softening
/// `calibrate`.
#[derive(Clone, Copy, Debug, PartialEq, Eq, Structural)]
pub struct Request {
    /// Which descriptor the satellite belongs to.
    pub descriptor: usize,
    pub group: Group,
    pub radius: Interval,
    /// The spiral arm the satellite falls on; below `arms`. Drawn for every
    /// request, used in the arms only.
    pub arm: u32,
    pub arms: u32,
    pub density: Scalar,
    pub noise: Scalar,
    pub gravity: Scalar,
    pub calibrate: Scalar,
    pub center_pos: Vec3,
    pub center_vel: Vec3,
    pub center_mass: Scalar,
    pub normal: Vec3,
}

/// What the sampler hands back: the radius it drew, and where that puts the
/// satellite.
#[derive(Clone, Copy, Debug, PartialEq, Eq, Structural)]
pub struct Sample {
    pub radius: Scalar,
    pub pos: Vec3,
    pub vel: Vec3,
}

impl Sample {
    /// Position and velocity are finite.
    pub open spec fn finite(self) -> bool {
        self.pos.finite() && self.vel.finite()
    }

    /// The satellite that the sample stands for.
    pub open spec fn satellite(self, mass: Scalar, calibrate: Scalar) -> Particle {
        Particle { pos: self.pos, vel: self.vel, mass, calibrate }
    }

    /// Whether position and velocity are finite.
    pub fn is_finite(&self) -> (r: bool)
        ensures
            r == self.finite(),
    {
        self.pos.is_finite() && self.vel.is_finite()
    }
}

/// Appends the satellite that `sample` stands for, with the given mass and
/// softening.
pub fn create(particles: &mut Vec<Particle>, calibrate: Scalar, mass: Scalar, sample: &Sample)
    ensures
        final(particles)@ == old(particles)@.push(sample.satellite(mass, calibrate)),
        sample.finite() && mass.non_negative() && calibrate.positive() ==> sample.satellite(
            mass,
            calibrate,
        ).valid(),
{
    particles.push(Particle::new(sample.pos, sample.vel, mass, calibrate));
}

/// The groups of a formation follow one another without gaps: the first
/// `bulge` satellites are bulge, the next `ring` are ring, the rest arm, and
/// there are `quota` of them.
pub proof fn lemma_groups_partition(config: Config, amount: nat, k: nat)
    ensures
        group_at(config, amount, k) is Some <==> k < config.quota(amount),
        group_at(config, amount, k) == Some(Group::Bulge) <==> k < config.bulge.share.of(amount),
        group_at(config, amount, k) == Some(Group::Ring) <==> config.bulge.share.of(amount) <= k
            < config.bulge.share.of(amount) + config.ring.share.of(amount),
        group_at(config, amount, k) == Some(Group::Arm) <==> config.bulge.share.of(amount)
            + config.ring.share.of(amount) <= k < config.quota(amount),
{
}

} // verus!
