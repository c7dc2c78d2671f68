//! Building the particle population from its descriptors.
//!
//! The population is built in two passes. The first puts down one anchor per
//! descriptor, in the order of the descriptors: the explicit particle, or the
//! central mass of a formation. Anchors therefore hold the lowest indices.
//! The second pass goes through the formations in the same order and appends
//! their satellites.
//!
//! Satellites are sampled outside this crate. A [`Nursery`] is the population
//! under construction: it says what it needs next ([`Nursery::request`]),
//! takes the sample ([`Nursery::place`]), and hands the population over when
//! nothing is missing ([`Nursery::finish`]). Its mathematical model is
//! [`Build`], and every operation is specified as a step of that model.

use vstd::prelude::*;
use rand::rngs::StdRng;
use crate::config::Config;
use crate::error::Error;
use crate::formation::{create, formation, group_at, radius_interval, radius_of, Group, Request, Sample};
use crate::galaxy::Galaxy;
use crate::particle::Particle;
use crate::random::draw;
use crate::scalar::Scalar;

verus! {

/// One anchor per descriptor, in the descriptors' order.
pub open spec fn anchors(galaxies: Seq<Galaxy>, calibrate: Scalar) -> Seq<Particle> {
    Seq::new(galaxies.len(), |i: int| galaxies[i].anchor(calibrate))
}

/// The first descriptor at or after `from` that is due any satellites, or the
/// number of descriptors if there is none.
pub open spec fn seek(galaxies: Seq<Galaxy>, config: Config, from: nat) -> nat
    decreases galaxies.len() - from,
{
    if from >= galaxies.len() {
        galaxies.len()
    } else if galaxies[from as int].quota(config) > 0 {
        from
    } else {
        seek(galaxies, config, from + 1)
    }
}

/// How many satellites the descriptors before `upto` are due together.
pub open spec fn quota_before(galaxies: Seq<Galaxy>, config: Config, upto: nat) -> nat
    decreases upto,
{
    if upto == 0 {
        0
    } else {
        quota_before(galaxies, config, (upto - 1) as nat) + galaxies[upto - 1].quota(config)
    }
}

/// The state of a population under construction.
pub struct Build {
    pub galaxies: Seq<Galaxy>,
    pub config: Config,
    pub calibrate: Scalar,
    /// The particles placed so far: the anchors, then satellites.
    pub population: Seq<Particle>,
    /// The descriptor whose formation is being filled, or the number of
    /// descriptors when nothing is missing.
    pub cursor: nat,
    /// How many satellites of that formation are placed.
    pub placed: nat,
}

impl Build {
    /// The state after the first pass: the anchors stand, and the cursor is
    /// on the first formation that is due a satellite.
    pub open spec fn start(galaxies: Seq<Galaxy>, config: Config, calibrate: Scalar) -> Build {
        Build {
            galaxies,
            config,
            calibrate,
            population: anchors(galaxies, calibrate),
            cursor: seek(galaxies, config, 0),
            placed: 0,
        }
    }

    /// Nothing is missing.
    pub open spec fn complete(self) -> bool {
        self.cursor == self.galaxies.len()
    }

    /// The invariant of a build. The descriptors are no more than a machine
    /// can index, so that the cursor names one of them in a request.
    pub open spec fn wf(self) -> bool {
        let n = self.galaxies.len();
        &&& n <= usize::MAX
        &&& self.config.wf()
        &&& self.calibrate.positive()
        &&& forall|i: int| 0 <= i < n ==> (#[trigger] self.galaxies[i]).valid()
        &&& self.cursor <= n
        &&& self.cursor < n ==> self.placed < self.galaxies[self.cursor as int].quota(self.config)
        &&& self.cursor == n ==> self.placed == 0
        &&& self.population.len() == n + quota_before(self.galaxies, self.config, self.cursor)
            + self.placed
        &&& self.population.subrange(0, n as int) == anchors(self.galaxies, self.calibrate)
        &&& forall|i: int| 0 <= i < self.population.len() ==> (#[trigger] self.population[i]).valid()
        &&& forall|i: int|
            n <= i < self.population.len() ==> (#[trigger] self.population[i]).mass
                == self.config.mass && self.population[i].calibrate == self.calibrate
    }

    /// The group of the satellite that is due next.
    pub open spec fn group(self) -> Group
        recommends
            !self.complete(),
    {
        group_at(self.config, self.galaxies[self.cursor as int].amount(), self.placed)->0
    }

    /// What is asked of the sampler next, given the arm that was drawn.
    pub open spec fn request(self, arm: u32) -> Request
        recommends
            !self.complete(),
    {
        let g = self.galaxies[self.cursor as int];
        Request {
            descriptor: self.cursor as usize,
            group: self.group(),
            radius: radius_of(self.config, self.group()),
            arm,
            arms: self.config.arms,
            density: self.config.density,
            noise: self.config.noise,
            gravity: self.config.gravity,
            calibrate: self.calibrate,
            center_pos: g->center_pos,
            center_vel: g->center_vel,
            center_mass: g->center_mass,
            normal: g->normal,
        }
    }

    /// A sample is placed when a satellite is due, the sample is finite, and
    /// its radius lies in the interval of the group that is due.
    pub open spec fn accepts(self, sample: Sample) -> bool {
        &&& !self.complete()
        &&& sample.finite()
        &&& radius_of(self.config, self.group()).contains(sample.radius)
    }

    /// The state after `sample` was placed: its satellite is appended, and
    /// the cursor moves on if that filled the formation.
    pub open spec fn place(self, sample: Sample) -> Build
        recommends
            self.accepts(sample),
    {
        let full = self.placed + 1 == self.galaxies[self.cursor as int].quota(self.config);
        Build {
            galaxies: self.galaxies,
            config: self.config,
            calibrate: self.calibrate,
            population: self.population.push(sample.satellite(self.config.mass, self.calibrate)),
            cursor: if full {
                seek(self.galaxies, self.config, self.cursor + 1)
            } else {
                self.cursor
            },
            placed: if full {
                0
            } else {
                self.placed + 1
            },
        }
    }
}

/// `seek` stops at a descriptor that is due satellites, or at the end, and
/// skips only descriptors that are due none.
pub proof fn lemma_seek(galaxies: Seq<Galaxy>, config: Config, from: nat)
    requires
        from <= galaxies.len(),
    ensures
        from <= seek(galaxies, config, from) <= galaxies.len(),
        seek(galaxies, config, from) < galaxies.len() ==> galaxies[seek(
            galaxies,
            config,
            from,
        ) as int].quota(config) > 0,
        quota_before(galaxies, config, seek(galaxies, config, from)) == quota_before(
            galaxies,
            config,
            from,
        ),
    decreases galaxies.len() - from,
{
    if from < galaxies.len() && galaxies[from as int].quota(config) == 0 {
        lemma_seek(galaxies, config, from + 1);
    }
}

/// The first pass leaves a well-formed build.
pub proof fn lemma_start_wf(galaxies: Seq<Galaxy>, config: Config, calibrate: Scalar)
    requires
        galaxies.len() <= usize::MAX,
        config.wf(),
        calibrate.positive(),
        forall|i: int| 0 <= i < galaxies.len() ==> (#[trigger] galaxies[i]).valid(),
    ensures
        Build::start(galaxies, config, calibrate).wf(),
{
    let b = Build::start(galaxies, config, calibrate);
    lemma_seek(galaxies, config, 0);
    assert(b.population.subrange(0, galaxies.len() as int) == anchors(galaxies, calibrate));
    assert forall|i: int| 0 <= i < b.population.len() implies (#[trigger] b.population[i]).valid() by {
        assert(galaxies[i].valid());
    }
}

/// Placing an accepted sample keeps the build well formed: the anchors stay
/// where they are, every particle is valid, and the count is right.
pub proof fn lemma_place_wf(b: Build, sample: Sample)
    requires
        b.wf(),
        b.accepts(sample),
    ensures
        b.place(sample).wf(),
        b.place(sample).population.len() == b.population.len() + 1,
{
    let after = b.place(sample);
    let n = b.galaxies.len();
    let s = sample.satellite(b.config.mass, b.calibrate);
    assert(s.valid());
    lemma_seek(b.galaxies, b.config, b.cursor + 1);
    assert(after.population.subrange(0, n as int) == b.population.subrange(0, n as int));
    assert forall|i: int| 0 <= i < after.population.len() implies (#[trigger] after.population[i]).valid() by {
        if i < b.population.len() {
            assert(after.population[i] == b.population[i]);
        }
    }
    assert forall|i: int| n <= i < after.population.len() implies (#[trigger] after.population[i]).mass
        == after.config.mass && after.population[i].calibrate == after.calibrate by {
        if i < b.population.len() {
            assert(after.population[i] == b.population[i]);
        }
    }
}

/// Where no descriptor is due a satellite, the population is complete from
/// the start, and is the anchors.
pub proof fn lemma_anchors_only(galaxies: Seq<Galaxy>, config: Config, calibrate: Scalar)
    requires
        forall|i: int| 0 <= i < galaxies.len() ==> (#[trigger] galaxies[i]).quota(config) == 0,
    ensures
        Build::start(galaxies, config, calibrate).complete(),
        Build::start(galaxies, config, calibrate).population == anchors(galaxies, calibrate),
{
    lemma_seek_past_idle(galaxies, config, 0);
}

/// Past descriptors that are due nothing, `seek` runs to the end.
proof fn lemma_seek_past_idle(galaxies: Seq<Galaxy>, config: Config, from: nat)
    requires
        from <= galaxies.len(),
        forall|i: int| from <= i < galaxies.len() ==> (#[trigger] galaxies[i]).quota(config) == 0,
    ensures
        seek(galaxies, config, from) == galaxies.len(),
    decreases galaxies.len() - from,
{
    if from < galaxies.len() {
        assert(galaxies[from as int].quota(config) == 0);
        lemma_seek_past_idle(galaxies, config, from + 1);
    }
}

/// The build after each of `samples` was placed in turn.
pub open spec fn grown(b: Build, samples: Seq<Sample>) -> Build
    decreases samples.len(),
{
    if samples.len() == 0 {
        b
    } else {
        grown(b, samples.drop_last()).place(samples.last())
    }
}

/// Each of `samples` is accepted when its turn comes.
pub open spec fn all_accepted(b: Build, samples: Seq<Sample>) -> bool
    decreases samples.len(),
{
    samples.len() > 0 ==> all_accepted(b, samples.drop_last()) && grown(
        b,
        samples.drop_last(),
    ).accepts(samples.last())
}

/// The population is the anchors followed by the satellites of the samples
/// that were placed, in the order in which they were placed, and is fixed by
/// the descriptors, the dials, the softening and those samples: two builds
/// from the same descriptors that are given the same samples end with the
/// same particles.
pub proof fn lemma_population_follows_samples(
    galaxies: Seq<Galaxy>,
    config: Config,
    calibrate: Scalar,
    samples: Seq<Sample>,
)
    requires
        Build::start(galaxies, config, calibrate).wf(),
        all_accepted(Build::start(galaxies, config, calibrate), samples),
    ensures
        grown(Build::start(galaxies, config, calibrate), samples).wf(),
        grown(Build::start(galaxies, config, calibrate), samples).population == anchors(
            galaxies,
            calibrate,
        ) + samples.map_values(|s: Sample| s.satellite(config.mass, calibrate)),
    decreases samples.len(),
{
    let start = Build::start(galaxies, config, calibrate);
    let satellite = |s: Sample| s.satellite(config.mass, calibrate);
    if samples.len() == 0 {
        assert(anchors(galaxies, calibrate) + samples.map_values(satellite) =~= anchors(
            galaxies,
            calibrate,
        ));
    } else {
        let before = samples.drop_last();
        lemma_population_follows_samples(galaxies, config, calibrate, before);
        lemma_grown_keeps(start, before);
        lemma_place_wf(grown(start, before), samples.last());
        assert(samples.map_values(satellite) =~= before.map_values(satellite).push(
            satellite(samples.last()),
        ));
        assert(grown(start, samples).population =~= anchors(galaxies, calibrate)
            + samples.map_values(satellite));
    }
}

/// Placing samples changes neither the descriptors nor the dials nor the
/// softening.
pub proof fn lemma_grown_keeps(b: Build, samples: Seq<Sample>)
    ensures
        grown(b, samples).galaxies == b.galaxies,
        grown(b, samples).config == b.config,
        grown(b, samples).calibrate == b.calibrate,
    decreases samples.len(),
{
    if samples.len() > 0 {
        lemma_grown_keeps(b, samples.drop_last());
    }
}

/// The satellites due before a descriptor do not grow fewer further on.
pub proof fn lemma_quota_before_grows(galaxies: Seq<Galaxy>, config: Config, a: nat, b: nat)
    requires
        a <= b,
    ensures
        quota_before(galaxies, config, a) <= quota_before(galaxies, config, b),
    decreases b,
{
    if a < b {
        lemma_quota_before_grows(galaxies, config, a, (b - 1) as nat);
    }
}

/// A build is complete exactly when it holds one anchor per descriptor and
/// every satellite that the formations are due: it never ends early and never
/// takes one particle too many.
pub proof fn lemma_complete_iff_full(b: Build)
    requires
        b.wf(),
    ensures
        b.complete() <==> b.population.len() == b.galaxies.len() + quota_before(
            b.galaxies,
            b.config,
            b.galaxies.len(),
        ),
        b.population.len() <= b.galaxies.len() + quota_before(
            b.galaxies,
            b.config,
            b.galaxies.len(),
        ),
{
    if b.cursor < b.galaxies.len() {
        lemma_quota_before_grows(b.galaxies, b.config, b.cursor + 1, b.galaxies.len());
    }
}

/// A population under construction.
pub struct Nursery {
    galaxies: Vec<Galaxy>,
    config: Config,
    calibrate: Scalar,
    particles: Vec<Particle>,
    cursor: usize,
    placed: u64,
}

impl View for Nursery {
    type V = Build;

    closed spec fn view(&self) -> Build {
        Build {
            galaxies: self.galaxies@,
            config: self.config,
            calibrate: self.calibrate,
            population: self.particles@,
            cursor: self.cursor as nat,
            placed: self.placed as nat,
        }
    }
}

/// Puts down the anchors: validates every descriptor, places one particle per
/// descriptor in the descriptors' order, and returns the population under
/// construction, ready to take the satellites of its formations.
///
/// Fails, with the index of the first descriptor that cannot be simulated,
/// if there is one; nothing is built then.
pub fn init_galaxy(calibrate: Scalar, galaxies: Vec<Galaxy>, config: Config) -> (r: Result<
    Nursery,
    Error,
>)
    requires
        calibrate.positive(),
        config.wf(),
    ensures
        match r {
            Ok(nursery) => {
                &&& forall|i: int| 0 <= i < galaxies@.len() ==> (#[trigger] galaxies@[i]).valid()
                &&& nursery@ == Build::start(galaxies@, config, calibrate)
                &&& nursery@.wf()
            },
            Err(e) => {
                &&& e matches Error::InvalidDescriptor { index }
                &&& index < galaxies@.len()
                &&& !galaxies@[index as int].valid()
                &&& forall|i: int| 0 <= i < index ==> (#[trigger] galaxies@[i]).valid()
            },
        },
{
    let mut particles: Vec<Particle> = Vec::new();
    let mut i: usize = 0;
    while i < galaxies.len()
        invariant
            i <= galaxies.len(),
            particles@.len() == i,
            forall|j: int| 0 <= j < i ==> (#[trigger] galaxies@[j]).valid(),
            forall|j: int| 0 <= j < i ==> particles@[j] == (#[trigger] galaxies@[j]).anchor(calibrate),
        decreases galaxies.len() - i,
    {
        if !galaxies[i].is_valid() {
            return Err(Error::InvalidDescriptor { index: i });
        }
        particles.push(galaxies[i].anchor_particle(calibrate));
        i += 1;
    }
    let cursor = seek_from(&galaxies, &config, 0);
    proof {
        assert(particles@ == anchors(galaxies@, calibrate));
        lemma_start_wf(galaxies@, config, calibrate);
    }
    Ok(Nursery { galaxies, config, calibrate, particles, cursor, placed: 0 })
}

/// The first descriptor at or after `from` that is due any satellites.
fn seek_from(galaxies: &Vec<Galaxy>, config: &Config, from: usize) -> (at: usize)
    requires
        config.wf(),
        from <= galaxies@.len(),
    ensures
        at == seek(galaxies@, *config, from as nat),
        from <= at <= galaxies@.len(),
{
    let mut i: usize = from;
    while i < galaxies.len() && galaxies[i].satellites(config) == 0
        invariant
            config.wf(),
            from <= i <= galaxies@.len(),
            seek(galaxies@, *config, from as nat) == seek(galaxies@, *config, i as nat),
        decreases galaxies@.len() - i,
    {
        i += 1;
    }
    i
}

impl Nursery {
    /// Whether nothing is missing.
    pub fn is_complete(&self) -> (r: bool)
        requires
            self@.wf(),
        ensures
            r == self@.complete(),
    {
        self.cursor == self.galaxies.len()
    }

    /// How many particles are placed.
    pub fn len(&self) -> (n: usize)
        ensures
            n == self@.population.len(),
    {
        self.particles.len()
    }

    /// What is asked of the sampler next, for a given choice of arm; `None`
    /// when nothing is missing.
    pub fn request_with(&self, arm: u32) -> (r: Option<Request>)
        requires
            self@.wf(),
        ensures
            r is None <==> self@.complete(),
            r matches Some(request) ==> request == self@.request(arm),
    {
        if self.cursor == self.galaxies.len() {
            return None;
        }
        match &self.galaxies[self.cursor] {
            Galaxy::Init { center_pos, center_vel, center_mass, amount, normal } => {
                match formation(&self.config, *amount, self.placed) {
                    Some(group) => Some(
                        Request {
                            descriptor: self.cursor,
                            group,
                            radius: radius_interval(&self.config, group),
                            arm,
                            arms: self.config.arms,
                            density: self.config.density,
                            noise: self.config.noise,
                            gravity: self.config.gravity,
                            calibrate: self.calibrate,
                            center_pos: *center_pos,
                            center_vel: *center_vel,
                            center_mass: *center_mass,
                            normal: *normal,
                        },
                    ),
                    None => None,
                }
            },
            Galaxy::Particle { pos, vel, mass } => None,
        }
    }

    /// What is asked of the sampler next; `None` when nothing is missing.
    ///
    /// For a satellite of the arms, the arm is drawn from `rng`; whatever is
    /// drawn, it is one of the configured arms. Nothing is drawn for the
    /// other groups, whose requests name arm 0. The rest of the request is
    /// fixed by the state.
    pub fn request(&self, rng: &mut StdRng) -> (r: Option<Request>)
        requires
            self@.wf(),
        ensures
            r is None <==> self@.complete(),
            r matches Some(request) ==> {
                &&& request == self@.request(request.arm)
                &&& request.arm < self@.config.arms
                &&& request.group != Group::Arm ==> request.arm == 0
            },
    {
        match self.request_with(0) {
            Some(request) => {
                match request.group {
                    Group::Arm => {
                        let arm = draw(rng, 0, self.config.arms as usize) as u32;
                        Some(Request { arm, ..request })
                    },
                    _ => Some(request),
                }
            },
            None => None,
        }
    }

    /// Takes a sample for the satellite that is due.
    ///
    /// The sample is placed (`Ok(true)`) when it is finite and its radius lies
    /// in the interval of the group that is due. A finite sample with a
    /// radius outside that interval is turned away (`Ok(false)`) and the same
    /// satellite stays due; so is any sample when nothing is missing. A sample
    /// that is not finite means that the formation cannot be built from its
    /// descriptor: that is an error, and the population must be given up.
    pub fn place(&mut self, sample: &Sample) -> (r: Result<bool, Error>)
        requires
            old(self)@.wf(),
        ensures
            final(self)@.wf(),
            match r {
                Ok(true) => old(self)@.accepts(*sample) && final(self)@ == old(self)@.place(*sample),
                Ok(false) => {
                    &&& old(self)@.complete() || sample.finite()
                    &&& !old(self)@.accepts(*sample)
                    &&& final(self)@ == old(self)@
                },
                Err(e) => {
                    &&& !old(self)@.complete()
                    &&& !sample.finite()
                    &&& e == (Error::InvalidDescriptor { index: old(self)@.cursor as usize })
                    &&& final(self)@ == old(self)@
                },
            },
    {
        if self.cursor == self.galaxies.len() {
            return Ok(false);
        }
        if !sample.is_finite() {
            return Err(Error::InvalidDescriptor { index: self.cursor });
        }
        let quota: u64 = self.galaxies[self.cursor].satellites(&self.config);
        let group = match &self.galaxies[self.cursor] {
            Galaxy::Init { center_pos, center_vel, center_mass, amount, normal } => formation(
                &self.config,
                *amount,
                self.placed,
            ),
            Galaxy::Particle { pos, vel, mass } => None,
        };
        let inside = match group {
            Some(g) => radius_interval(&self.config, g).holds(&sample.radius),
            None => false,
        };
        if !inside {
            return Ok(false);
        }
        proof {
            lemma_place_wf(old(self)@, *sample);
        }
        create(&mut self.particles, self.calibrate, self.config.mass, sample);
        if self.placed + 1 == quota {
            self.cursor = seek_from(&self.galaxies, &self.config, self.cursor + 1);
            self.placed = 0;
        } else {
            self.placed = self.placed + 1;
        }
        Ok(true)
    }

    /// Hands the population over if nothing is missing, and `None` otherwise:
    /// there is no partial population.
    ///
    /// The population starts with the anchors, in the descriptors' order;
    /// every particle in it is valid, and every satellite has the configured
    /// mass and the global softening.
    pub fn finish(self) -> (r: Option<Vec<Particle>>)
        requires
            self@.wf(),
        ensures
            r is Some <==> self@.complete(),
            r matches Some(particles) ==> {
                &&& particles@ == self@.population
                &&& particles@.len() == self@.galaxies.len() + quota_before(
                    self@.galaxies,
                    self@.config,
                    self@.galaxies.len(),
                )
                &&& particles@.subrange(0, self@.galaxies.len() as int) == anchors(
                    self@.galaxies,
                    self@.calibrate,
                )
                &&& forall|i: int| 0 <= i < particles@.len() ==> (#[trigger] particles@[i]).valid()
            },
    {
        if self.cursor == self.galaxies.len() {
            Some(self.particles)
        } else {
            None
        }
    }
}

} // verus!
