//! The particle record and its three-component vectors.

use vstd::prelude::*;
use crate::scalar::Scalar;

verus! {

/// A vector of three scalars.
#[derive(Clone, Copy, Debug, PartialEq, Eq, Structural)]
pub struct Vec3 {
    pub x: Scalar,
    pub y: Scalar,
    pub z: Scalar,
}

impl Vec3 {
    /// Every component is finite.
    pub open spec fn finite(self) -> bool {
        self.x.finite() && self.y.finite() && self.z.finite()
    }

    /// Every component is a zero: the vector has no direction.
    pub open spec fn zero(self) -> bool {
        self.x.zero() && self.y.zero() && self.z.zero()
    }

    /// The vector with the given components.
    pub fn new(x: Scalar, y: Scalar, z: Scalar) -> (v: Vec3)
        ensures
            v == (Vec3 { x, y, z }),
    {
        Vec3 { x, y, z }
    }

    /// Whether every component is finite.
    pub fn is_finite(&self) -> (r: bool)
        ensures
            r == self.finite(),
    {
        self.x.is_finite() && self.y.is_finite() && self.z.is_finite()
    }

    /// Whether every component is zero.
    pub fn is_zero(&self) -> (r: bool)
        ensures
            r == self.zero(),
    {
        self.x.is_zero() && self.y.is_zero() && self.z.is_zero()
    }
}

/// Number of 32-bit words one particle occupies in a packed buffer.
pub const PARTICLE_WORDS: usize = 12;

/// A point mass: where it is, how it moves, how heavy it is, and the softening
/// term that keeps its gravity bounded at close range.
#[derive(Clone, Copy, Debug, PartialEq, Eq, Structural)]
pub struct Particle {
    pub pos: Vec3,
    pub vel: Vec3,
    pub mass: Scalar,
    pub calibrate: Scalar,
}

impl Particle {
    /// The invariant of a simulated particle: finite position and velocity,
    /// `mass >= 0`, `calibrate > 0`.
    pub open spec fn valid(self) -> bool {
        &&& self.pos.finite()
        &&& self.vel.finite()
        &&& self.mass.non_negative()
        &&& self.calibrate.positive()
    }

    /// Position and velocity are finite. This is the part of `valid` that an
    /// integration step can break.
    pub open spec fn finite(self) -> bool {
        self.pos.finite() && self.vel.finite()
    }

    /// The twelve words of the packed form: position, a zero, velocity, a
    /// zero, mass, softening, two zeros.
    pub open spec fn words(self) -> Seq<u32> {
        seq![
            self.pos.x.bits,
            self.pos.y.bits,
            self.pos.z.bits,
            0u32,
            self.vel.x.bits,
            self.vel.y.bits,
            self.vel.z.bits,
            0u32,
            self.mass.bits,
            self.calibrate.bits,
            0u32,
            0u32,
        ]
    }

    /// The particle with the given fields.
    pub fn new(pos: Vec3, vel: Vec3, mass: Scalar, calibrate: Scalar) -> (p: Particle)
        ensures
            p == (Particle { pos, vel, mass, calibrate }),
    {
        Particle { pos, vel, mass, calibrate }
    }

    /// Whether the particle meets the invariant.
    pub fn is_valid(&self) -> (r: bool)
        ensures
            r == self.valid(),
    {
        self.pos.is_finite() && self.vel.is_finite() && self.mass.is_non_negative()
            && self.calibrate.is_positive()
    }

    /// Whether position and velocity are finite.
    pub fn is_finite(&self) -> (r: bool)
        ensures
            r == self.finite(),
    {
        self.pos.is_finite() && self.vel.is_finite()
    }

    /// Appends the packed form of the particle to `out`.
    pub fn write_words(&self, out: &mut Vec<u32>)
        ensures
            final(out)@ == old(out)@ + self.words(),
    {
        out.push(self.pos.x.bits);
        out.push(self.pos.y.bits);
        out.push(self.pos.z.bits);
        out.push(0);
        out.push(self.vel.x.bits);
        out.push(self.vel.y.bits);
        out.push(self.vel.z.bits);
        out.push(0);
        out.push(self.mass.bits);
        out.push(self.calibrate.bits);
        out.push(0);
        out.push(0);
    }
}

} // verus!
