//! The state store: two buffers of particles and the global parameters.
//!
//! A sub-step reads the `previous` buffer and writes the `current` one. It
//! begins with [`State::snapshot`], which copies `current` into `previous`
//! and puts staged parameters in force; after that every particle is
//! integrated from `previous` alone and stored in its own slot of `current`
//! with [`State::store`]. Nothing but `snapshot` writes `previous` or the
//! parameters in force, so all updates of a sub-step see the same world, in
//! whatever order they run.
//!
//! The parameters alone, with the same rule for when a change takes effect,
//! are [`Controls`]; an executor that keeps the particles in memory of its own
//! uses those and leaves the buffers here aside.
//!
//! The mathematical model of a store is [`Buffers`], that of its controls
//! [`Dials`].

use vstd::prelude::*;
use crate::error::Error;
use crate::memory::{bytes_of, image_of};
use crate::particle::{Particle, Vec3, PARTICLE_WORDS};
use crate::scalar::Scalar;

verus! {

/// The parameters that every integration step of a sub-step shares.
#[derive(Clone, Copy, Debug, PartialEq, Eq)]
pub struct GpuInfo {
    /// The presentation transform. It is carried for whoever displays the
    /// particles and never looked at here.
    pub matrix: [[Scalar; 4]; 4],
    /// Number of particles in the population.
    pub particles: u32,
    /// The time scale of a sub-step; zero while the simulation is paused.
    pub motion: Scalar,
    /// The gravitational constant.
    pub gravity: Scalar,
    /// The softening term of the force law.
    pub calibrate: Scalar,
}

/// Number of 32-bit words the parameters occupy in packed form.
pub const INFO_WORDS: usize = 20;

impl GpuInfo {
    /// The packed form: the transform row by row, then the particle count,
    /// the time scale, the gravitational constant and the softening.
    pub open spec fn words(self) -> Seq<u32> {
        Seq::new(16, |k: int| self.matrix[k / 4][k % 4].bits) + seq![
            self.particles,
            self.motion.bits,
            self.gravity.bits,
            self.calibrate.bits,
        ]
    }

    /// The same parameters with another time scale.
    pub open spec fn with_motion(self, motion: Scalar) -> GpuInfo {
        GpuInfo { motion, ..self }
    }

    /// The same parameters with another presentation transform.
    pub open spec fn with_matrix(self, matrix: [[Scalar; 4]; 4]) -> GpuInfo {
        GpuInfo { matrix, ..self }
    }

    /// The parameters for a population of `population` particles, or `None`
    /// if the count does not fit the 32 bits it is packed in.
    pub fn new(
        matrix: [[Scalar; 4]; 4],
        population: usize,
        motion: Scalar,
        gravity: Scalar,
        calibrate: Scalar,
    ) -> (r: Option<GpuInfo>)
        ensures
            r is Some <==> population <= u32::MAX,
            r matches Some(info) ==> info == (GpuInfo {
                matrix,
                particles: population as u32,
                motion,
                gravity,
                calibrate,
            }),
    {
        if population > u32::MAX as usize {
            None
        } else {
            Some(GpuInfo { matrix, particles: population as u32, motion, gravity, calibrate })
        }
    }

    /// The parameters as bytes, ready for upload: the packed form as it lies
    /// in memory.
    pub fn pack(&self) -> (out: Vec<u8>)
        ensures
            image_of(self.words(), out@),
            out@.len() == 4 * INFO_WORDS,
    {
        let words = self.pack_words();
        bytes_of(&words)
    }

    /// The packed form of the parameters.
    pub fn pack_words(&self) -> (out: Vec<u32>)
        ensures
            out@ == self.words(),
            out@.len() == INFO_WORDS,
    {
        let mut out: Vec<u32> = Vec::new();
        let mut row: usize = 0;
        while row < 4
            invariant
                row <= 4,
                out@.len() == 4 * row,
                forall|k: int| 0 <= k < out@.len() ==> out@[k] == self.matrix[k / 4][k % 4].bits,
            decreases 4 - row,
        {
            let mut col: usize = 0;
            while col < 4
                invariant
                    row < 4,
                    col <= 4,
                    out@.len() == 4 * row + col,
                    forall|k: int| 0 <= k < out@.len() ==> out@[k] == self.matrix[k / 4][k % 4].bits,
                decreases 4 - col,
            {
                out.push(self.matrix[row][col].bits);
                col += 1;
            }
            row += 1;
        }
        out.push(self.particles);
        out.push(self.motion.bits);
        out.push(self.gravity.bits);
        out.push(self.calibrate.bits);
        out
    }
}

/// The particle whose every word is zero: what a fresh buffer holds.
pub open spec fn blank() -> Particle {
    let zero = Scalar { bits: 0 };
    let origin = Vec3 { x: zero, y: zero, z: zero };
    Particle { pos: origin, vel: origin, mass: zero, calibrate: zero }
}

/// The packed form of a sequence of particles: their words, one particle
/// after the other.
pub open spec fn packed(particles: Seq<Particle>) -> Seq<u32>
    decreases particles.len(),
{
    if particles.len() == 0 {
        Seq::empty()
    } else {
        packed(particles.drop_last()) + particles.last().words()
    }
}

/// The packed form is twelve words per particle, and the words of particle
/// `i` start at `12 * i`.
pub proof fn lemma_packed_layout(particles: Seq<Particle>, i: int, k: int)
    requires
        0 <= i < particles.len(),
        0 <= k < 12,
    ensures
        packed(particles).len() == 12 * particles.len(),
        packed(particles)[12 * i + k] == particles[i].words()[k],
    decreases particles.len(),
{
    lemma_packed_len(particles);
    lemma_packed_len(particles.drop_last());
    if i < particles.len() - 1 {
        lemma_packed_layout(particles.drop_last(), i, k);
    }
}

/// The packed form is twelve words per particle.
pub proof fn lemma_packed_len(particles: Seq<Particle>)
    ensures
        packed(particles).len() == PARTICLE_WORDS * particles.len(),
    decreases particles.len(),
{
    if particles.len() > 0 {
        lemma_packed_len(particles.drop_last());
    }
}

/// Packs a population for upload: the packed form as it lies in memory,
/// forty-eight bytes per particle.
pub fn pack(particles: &Vec<Particle>) -> (out: Vec<u8>)
    ensures
        image_of(packed(particles@), out@),
        out@.len() == 48 * particles@.len(),
{
    let words = pack_words(particles);
    bytes_of(&words)
}

/// The packed form of a population: twelve words per particle, in order.
pub fn pack_words(particles: &Vec<Particle>) -> (out: Vec<u32>)
    ensures
        out@ == packed(particles@),
        out@.len() == 12 * particles@.len(),
{
    let mut out: Vec<u32> = Vec::new();
    let mut i: usize = 0;
    while i < particles.len()
        invariant
            i <= particles@.len(),
            out@ == packed(particles@.take(i as int)),
        decreases particles@.len() - i,
    {
        proof {
            assert(particles@.take(i + 1).drop_last() == particles@.take(i as int));
        }
        particles[i].write_words(&mut out);
        i += 1;
    }
    proof {
        assert(particles@.take(i as int) == particles@);
        lemma_packed_len(particles@);
    }
    out
}

/// The index of the first particle whose position or velocity is not finite.
pub fn check_finite(particles: &Vec<Particle>) -> (r: Result<(), Error>)
    ensures
        match r {
            Ok(()) => forall|i: int| 0 <= i < particles@.len() ==> (#[trigger] particles@[i]).finite(),
            Err(e) => {
                &&& e matches Error::NumericDegeneracy { index }
                &&& index < particles@.len()
                &&& !particles@[index as int].finite()
                &&& forall|i: int| 0 <= i < index ==> (#[trigger] particles@[i]).finite()
            },
        },
{
    let mut i: usize = 0;
    while i < particles.len()
        invariant
            i <= particles@.len(),
            forall|j: int| 0 <= j < i ==> (#[trigger] particles@[j]).finite(),
        decreases particles@.len() - i,
    {
        if !particles[i].is_finite() {
            return Err(Error::NumericDegeneracy { index: i });
        }
        i += 1;
    }
    Ok(())
}

/// The state of the controls: the parameters, in force and to come.
pub struct Dials {
    /// The parameters in force for the running sub-step.
    pub active: GpuInfo,
    /// The parameters that the next sub-step begins with.
    pub staged: GpuInfo,
    /// The time scale to go back to after a pause.
    pub rest: Scalar,
}

impl Dials {
    /// The controls that a run starts from.
    pub open spec fn initial(info: GpuInfo) -> Dials {
        Dials { active: info, staged: info, rest: info.motion }
    }

    /// The controls at the beginning of a sub-step: what was staged is in
    /// force.
    pub open spec fn commit(self) -> Dials {
        Dials { active: self.staged, ..self }
    }

    /// The controls with another time scale staged.
    pub open spec fn stage_motion(self, motion: Scalar) -> Dials {
        Dials { staged: self.staged.with_motion(motion), ..self }
    }

    /// The controls with another presentation transform staged.
    pub open spec fn stage_matrix(self, matrix: [[Scalar; 4]; 4]) -> Dials {
        Dials { staged: self.staged.with_matrix(matrix), ..self }
    }

    /// The particle count is never changed.
    pub open spec fn wf(self) -> bool {
        self.staged.particles == self.active.particles
    }
}

/// The state of a store.
pub struct Buffers {
    pub dials: Dials,
    /// The snapshot that the running sub-step reads.
    pub previous: Seq<Particle>,
    /// The buffer that the running sub-step writes.
    pub current: Seq<Particle>,
}

impl Buffers {
    /// The two buffers have the same length, and the controls are well
    /// formed.
    pub open spec fn wf(self) -> bool {
        &&& self.previous.len() == self.current.len()
        &&& self.dials.wf()
    }

    /// The particle count in the parameters in force is the number of
    /// particles that the store holds.
    pub open spec fn counted(self) -> bool {
        self.current.len() == self.dials.active.particles
    }

    /// The store that a run starts from: the population in `current`, a
    /// blank `previous`.
    pub open spec fn initial(info: GpuInfo, particles: Seq<Particle>) -> Buffers {
        Buffers {
            dials: Dials::initial(info),
            previous: Seq::new(particles.len(), |i: int| blank()),
            current: particles,
        }
    }

    /// The store after a snapshot: `previous` is `current`, and what was
    /// staged is in force.
    pub open spec fn snapshot(self) -> Buffers {
        Buffers { dials: self.dials.commit(), previous: self.current, ..self }
    }

    /// The store after particle `i` got a new position and velocity.
    pub open spec fn store(self, i: int, pos: Vec3, vel: Vec3) -> Buffers
        recommends
            0 <= i < self.current.len(),
    {
        Buffers {
            current: self.current.update(i, Particle { pos, vel, ..self.current[i] }),
            ..self
        }
    }

    /// The store with other controls.
    pub open spec fn with_dials(self, dials: Dials) -> Buffers {
        Buffers { dials, ..self }
    }
}

/// One write of a sub-step: the particle and its new position and velocity.
pub struct Write {
    pub index: nat,
    pub pos: Vec3,
    pub vel: Vec3,
}

/// The store after a sequence of writes, applied in order.
pub open spec fn written(b: Buffers, writes: Seq<Write>) -> Buffers
    decreases writes.len(),
{
    if writes.len() == 0 {
        b
    } else {
        let w = writes.last();
        written(b, writes.drop_last()).store(w.index as int, w.pos, w.vel)
    }
}

/// Right after a snapshot the two buffers are equal, element by element.
pub proof fn lemma_snapshot_equal(b: Buffers)
    ensures
        b.snapshot().previous == b.snapshot().current,
        b.snapshot().current == b.current,
        b.wf() ==> b.snapshot().wf(),
{
}

/// Whatever a sub-step writes, and in whatever order, the snapshot it reads
/// and the parameters in force stay what they were when it began; the
/// current buffer keeps its length, and with it every particle its index.
pub proof fn lemma_substep_reads_snapshot(b: Buffers, writes: Seq<Write>)
    requires
        b.wf(),
        forall|k: int| 0 <= k < writes.len() ==> (#[trigger] writes[k]).index < b.current.len(),
    ensures
        written(b.snapshot(), writes).previous == b.current,
        written(b.snapshot(), writes).dials == b.dials.commit(),
        written(b.snapshot(), writes).dials.active == b.dials.staged,
        written(b.snapshot(), writes).current.len() == b.current.len(),
        written(b.snapshot(), writes).wf(),
    decreases writes.len(),
{
    if writes.len() > 0 {
        lemma_substep_reads_snapshot(b, writes.drop_last());
    }
}

/// Writes to different particles do not interfere: in either order they
/// leave the same store.
pub proof fn lemma_stores_commute(b: Buffers, first: Write, second: Write)
    requires
        first.index != second.index,
        first.index < b.current.len(),
        second.index < b.current.len(),
    ensures
        b.store(first.index as int, first.pos, first.vel).store(
            second.index as int,
            second.pos,
            second.vel,
        ) == b.store(second.index as int, second.pos, second.vel).store(
            first.index as int,
            first.pos,
            first.vel,
        ),
{
    let one = b.store(first.index as int, first.pos, first.vel).store(
        second.index as int,
        second.pos,
        second.vel,
    );
    let other = b.store(second.index as int, second.pos, second.vel).store(
        first.index as int,
        first.pos,
        first.vel,
    );
    assert(one.current =~= other.current);
}

/// A write changes the particle it is for and no other, and changes only
/// where the particle is and how it moves.
pub proof fn lemma_store_is_local(b: Buffers, w: Write, j: int)
    requires
        w.index < b.current.len(),
        0 <= j < b.current.len(),
    ensures
        j != w.index ==> b.store(w.index as int, w.pos, w.vel).current[j] == b.current[j],
        b.store(w.index as int, w.pos, w.vel).current[w.index as int].mass
            == b.current[w.index as int].mass,
        b.store(w.index as int, w.pos, w.vel).current[w.index as int].calibrate
            == b.current[w.index as int].calibrate,
{
}

/// The parameters of a run, with changes held back until the next sub-step.
pub struct Controls {
    gpu_info: GpuInfo,
    staged: GpuInfo,
    rest: Scalar,
}

impl View for Controls {
    type V = Dials;

    closed spec fn view(&self) -> Dials {
        Dials { active: self.gpu_info, staged: self.staged, rest: self.rest }
    }
}

impl Controls {
    /// Controls that start from `gpu_info`.
    pub fn new(gpu_info: GpuInfo) -> (controls: Controls)
        ensures
            controls@ == Dials::initial(gpu_info),
    {
        Controls { gpu_info, staged: gpu_info, rest: gpu_info.motion }
    }

    /// The parameters in force.
    pub fn parameters(&self) -> (info: GpuInfo)
        ensures
            info == self@.active,
    {
        self.gpu_info
    }

    /// Stages a new time scale. It is in force from the next sub-step on; the
    /// running one does not see it.
    pub fn set_motion_scale(&mut self, motion: Scalar)
        ensures
            final(self)@ == old(self)@.stage_motion(motion),
    {
        self.staged.motion = motion;
    }

    /// Stages a new presentation transform, in force from the next sub-step.
    pub fn set_matrix(&mut self, matrix: [[Scalar; 4]; 4])
        ensures
            final(self)@ == old(self)@.stage_matrix(matrix),
    {
        self.staged.matrix = matrix;
    }

    /// Pauses the simulation: stages a time scale of zero.
    pub fn pause(&mut self)
        ensures
            final(self)@ == old(self)@.stage_motion(Scalar { bits: 0 }),
    {
        self.staged.motion = Scalar { bits: 0 };
    }

    /// Ends a pause: stages the time scale that the run started with.
    pub fn resume(&mut self)
        ensures
            final(self)@ == old(self)@.stage_motion(old(self)@.rest),
    {
        self.staged.motion = self.rest;
    }

    /// Begins a sub-step: puts the staged parameters in force.
    pub fn commit(&mut self)
        ensures
            final(self)@ == old(self)@.commit(),
    {
        self.gpu_info = self.staged;
    }
}

/// Particle `i` went from `before` to `after` by one integration step: `after`
/// has the finite position and velocity that `kernel` returned for the
/// snapshot, the index and the parameters, and the mass and softening of
/// `before`.
pub open spec fn integrated<K: Fn(&Vec<Particle>, usize, GpuInfo) -> (Vec3, Vec3)>(
    kernel: K,
    snapshot: Vec<Particle>,
    info: GpuInfo,
    i: usize,
    before: Particle,
    after: Particle,
) -> bool {
    &&& call_ensures(kernel, (&snapshot, i, info), (after.pos, after.vel))
    &&& after.pos.finite() && after.vel.finite()
    &&& after.mass == before.mass
    &&& after.calibrate == before.calibrate
}

/// The double-buffered particle store.
pub struct State {
    controls: Controls,
    prev: Vec<Particle>,
    cur: Vec<Particle>,
}

impl View for State {
    type V = Buffers;

    closed spec fn view(&self) -> Buffers {
        Buffers { dials: self.controls@, previous: self.prev@, current: self.cur@ }
    }
}

impl State {
    /// A store for the given population and parameters: `current` holds the
    /// population, `previous` is blank until the first snapshot, and the
    /// parameters are in force as given.
    ///
    /// The particle count in the parameters is taken as it is; whether it is
    /// the size of the population is what [`State::is_counted`] tells.
    pub fn new(gpu_info: GpuInfo, particles: Vec<Particle>) -> (state: State)
        ensures
            state@ == Buffers::initial(gpu_info, particles@),
            state@.previous.len() == state@.current.len(),
            state@.wf(),
            state@.counted() <==> gpu_info.particles == particles@.len(),
    {
        let zero = Scalar { bits: 0 };
        let origin = Vec3 { x: zero, y: zero, z: zero };
        let fresh = Particle { pos: origin, vel: origin, mass: zero, calibrate: zero };
        let mut prev: Vec<Particle> = Vec::new();
        let mut i: usize = 0;
        while i < particles.len()
            invariant
                i <= particles@.len(),
                prev@.len() == i,
                fresh == blank(),
                forall|j: int| 0 <= j < i ==> prev@[j] == blank(),
            decreases particles@.len() - i,
        {
            prev.push(fresh);
            i += 1;
        }
        let state = State { controls: Controls::new(gpu_info), prev, cur: particles };
        proof {
            assert(state@.previous =~= Buffers::initial(gpu_info, particles@).previous);
        }
        state
    }

    /// Whether the particle count in the parameters in force is the number of
    /// particles that the store holds.
    pub fn is_counted(&self) -> (r: bool)
        ensures
            r == self@.counted(),
    {
        let info = self.controls.parameters();
        self.cur.len() <= u32::MAX as usize && self.cur.len() as u32 == info.particles
    }

    /// Number of particles.
    pub fn len(&self) -> (n: usize)
        ensures
            n == self@.current.len(),
    {
        self.cur.len()
    }

    /// The buffer that is being written: the state of the population.
    pub fn current(&self) -> (buffer: &Vec<Particle>)
        ensures
            buffer@ == self@.current,
    {
        &self.cur
    }

    /// The snapshot that the running sub-step reads.
    pub fn previous(&self) -> (buffer: &Vec<Particle>)
        ensures
            buffer@ == self@.previous,
            *buffer == self.snapshot_buffer(),
    {
        &self.prev
    }

    /// The parameters in force.
    pub fn parameters(&self) -> (info: GpuInfo)
        ensures
            info == self@.dials.active,
    {
        self.controls.parameters()
    }

    /// Stages a new time scale. It is in force from the next snapshot on;
    /// the running sub-step does not see it.
    pub fn set_motion_scale(&mut self, motion: Scalar)
        ensures
            final(self)@ == old(self)@.with_dials(old(self)@.dials.stage_motion(motion)),
    {
        self.controls.set_motion_scale(motion);
    }

    /// Stages a new presentation transform, in force from the next snapshot.
    pub fn set_matrix(&mut self, matrix: [[Scalar; 4]; 4])
        ensures
            final(self)@ == old(self)@.with_dials(old(self)@.dials.stage_matrix(matrix)),
    {
        self.controls.set_matrix(matrix);
    }

    /// Pauses the simulation: stages a time scale of zero.
    pub fn pause(&mut self)
        ensures
            final(self)@ == old(self)@.with_dials(
                old(self)@.dials.stage_motion(Scalar { bits: 0 }),
            ),
    {
        self.controls.pause();
    }

    /// Ends a pause: stages the time scale that the store was made with.
    pub fn resume(&mut self)
        ensures
            final(self)@ == old(self)@.with_dials(
                old(self)@.dials.stage_motion(old(self)@.dials.rest),
            ),
    {
        self.controls.resume();
    }

    /// Begins a sub-step: copies `current` into `previous`, all of it, and
    /// puts the staged parameters in force.
    pub fn snapshot(&mut self)
        requires
            old(self)@.wf(),
        ensures
            final(self)@ == old(self)@.snapshot(),
            final(self)@.previous == final(self)@.current,
            final(self)@.wf(),
    {
        let mut i: usize = 0;
        while i < self.cur.len()
            invariant
                i <= self.cur@.len(),
                self.prev@.len() == self.cur@.len(),
                self.cur@ == old(self).cur@,
                self.controls@ == old(self).controls@,
                forall|j: int| 0 <= j < i ==> self.prev@[j] == self.cur@[j],
            decreases self.cur@.len() - i,
        {
            let p = self.cur[i];
            self.prev.set(i, p);
            i += 1;
        }
        self.controls.commit();
        proof {
            assert(self.prev@ =~= self.cur@);
        }
    }

    /// Stores the outcome of integrating particle `i`: its new position and
    /// velocity. Mass and softening stay.
    ///
    /// Nothing is stored, and the run has failed, if a component of either
    /// vector is not finite.
    pub fn store(&mut self, i: usize, pos: Vec3, vel: Vec3) -> (r: Result<(), Error>)
        requires
            old(self)@.wf(),
            i < old(self)@.current.len(),
        ensures
            final(self)@.wf(),
            match r {
                Ok(()) => {
                    &&& pos.finite() && vel.finite()
                    &&& final(self)@ == old(self)@.store(i as int, pos, vel)
                    &&& old(self)@.current[i as int].valid() ==> final(self)@.current[i as int].valid()
                },
                Err(e) => {
                    &&& !(pos.finite() && vel.finite())
                    &&& e == (Error::NumericDegeneracy { index: i })
                    &&& final(self)@ == old(self)@
                },
            },
    {
        if !(pos.is_finite() && vel.is_finite()) {
            return Err(Error::NumericDegeneracy { index: i });
        }
        let before = self.cur[i];
        self.cur.set(i, Particle { pos, vel, mass: before.mass, calibrate: before.calibrate });
        Ok(())
    }

    /// The snapshot as the vector that an integration step is handed.
    pub closed spec fn snapshot_buffer(&self) -> Vec<Particle> {
        self.prev
    }

    /// The snapshot buffer holds the previous particles.
    pub proof fn lemma_snapshot_buffer(&self)
        ensures
            self.snapshot_buffer()@ == self@.previous,
    {
    }

    /// One integration pass: runs `kernel` for every particle and stores what
    /// it returns in the particle's own slot.
    ///
    /// The kernel is handed the snapshot, the index of the particle, and the
    /// parameters in force, and nothing else: whatever it computes is a
    /// function of those. It returns the particle's new position and
    /// velocity.
    ///
    /// The pass stops at the first particle for which the kernel returns
    /// something that is not finite. The run has failed then; the particles
    /// before that one are stored, the others are as they were.
    pub fn integrate(
        &mut self,
        kernel: impl Fn(&Vec<Particle>, usize, GpuInfo) -> (Vec3, Vec3),
    ) -> (r: Result<(), Error>)
        requires
            old(self)@.wf(),
            forall|i: usize|
                i < old(self)@.current.len() ==> call_requires(
                    kernel,
                    (&old(self).snapshot_buffer(), i, old(self)@.dials.active),
                ),
        ensures
            final(self)@.wf(),
            final(self)@.previous == old(self)@.previous,
            final(self)@.dials == old(self)@.dials,
            final(self).snapshot_buffer() == old(self).snapshot_buffer(),
            final(self)@.current.len() == old(self)@.current.len(),
            match r {
                Ok(()) => forall|i: usize|
                    i < old(self)@.current.len() ==> integrated(
                        kernel,
                        old(self).snapshot_buffer(),
                        old(self)@.dials.active,
                        i,
                        old(self)@.current[i as int],
                        #[trigger] final(self)@.current[i as int],
                    ),
                Err(e) => {
                    &&& e matches Error::NumericDegeneracy { index }
                    &&& index < old(self)@.current.len()
                    &&& forall|i: usize|
                        i < index ==> integrated(
                            kernel,
                            old(self).snapshot_buffer(),
                            old(self)@.dials.active,
                            i,
                            old(self)@.current[i as int],
                            #[trigger] final(self)@.current[i as int],
                        )
                    &&& forall|i: int|
                        index <= i < old(self)@.current.len() ==> #[trigger] final(self)@.current[i]
                            == old(self)@.current[i]
                    &&& exists|pos: Vec3, vel: Vec3|
                        #[trigger] call_ensures(
                            kernel,
                            (&old(self).snapshot_buffer(), index, old(self)@.dials.active),
                            (pos, vel),
                        ) && !(pos.finite() && vel.finite())
                },
            },
    {
        let info = self.controls.parameters();
        let mut i: usize = 0;
        while i < self.cur.len()
            invariant
                i <= self.cur@.len(),
                self@.wf(),
                self.prev == old(self).prev,
                self.controls@ == old(self).controls@,
                info == old(self)@.dials.active,
                self.cur@.len() == old(self).cur@.len(),
                forall|j: usize|
                    j < old(self)@.current.len() ==> call_requires(
                        kernel,
                        (&old(self).snapshot_buffer(), j, old(self)@.dials.active),
                    ),
                forall|j: usize|
                    j < i ==> integrated(
                        kernel,
                        old(self).snapshot_buffer(),
                        old(self)@.dials.active,
                        j,
                        old(self)@.current[j as int],
                        #[trigger] self@.current[j as int],
                    ),
                forall|j: int|
                    i <= j < self.cur@.len() ==> #[trigger] self@.current[j] == old(
                        self,
                    )@.current[j],
            decreases self.cur@.len() - i,
        {
            let (pos, vel) = kernel(&self.prev, i, info);
            if !(pos.is_finite() && vel.is_finite()) {
                return Err(Error::NumericDegeneracy { index: i });
            }
            let before = self.cur[i];
            self.cur.set(i, Particle { pos, vel, mass: before.mass, calibrate: before.calibrate });
            i += 1;
        }
        Ok(())
    }

    /// The current buffer as bytes, ready for upload.
    pub fn pack(&self) -> (out: Vec<u8>)
        ensures
            image_of(packed(self@.current), out@),
            out@.len() == 48 * self@.current.len(),
    {
        pack(&self.cur)
    }
}

} // verus!
