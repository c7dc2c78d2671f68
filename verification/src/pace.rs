//! The simulation loop, as a machine that is asked what to do next.
//!
//! A frame is a fixed number of sub-steps followed by a hand-over to whoever
//! consumes the particles. A sub-step is a snapshot and then one integration
//! pass over every particle, in that order and with nothing in between. The
//! loop runs frame after frame until it is told to stop, and it listens for
//! that only between frames: a frame that has begun is finished.
//!
//! The [`Pacer`] owns none of the work. It answers [`Pacer::next`] with a
//! [`Command`]; the caller carries the command out and asks again. Its
//! mathematical model is [`Beat`].

use vstd::prelude::*;
use crate::error::Error;

verus! {

/// Sub-steps per frame unless configured otherwise.
pub const SUBSTEPS: u32 = 3;

/// Where the loop stands. `Stopped` is final.
#[derive(Clone, Copy, Debug, PartialEq, Eq, Structural)]
pub enum Phase {
    Idle,
    Running,
    Stopped,
}

/// What the caller is to do next.
#[derive(Clone, Copy, Debug, PartialEq, Eq, Structural)]
pub enum Command {
    /// Copy the current buffer into the previous one.
    Snapshot,
    /// Integrate every particle from the snapshot.
    Integrate,
    /// The frame is done: hand the current buffer to its consumer.
    Present,
    /// There is nothing to do, now or later.
    Halt,
}

/// The state of the loop.
pub struct Beat {
    pub phase: Phase,
    /// Sub-steps per frame.
    pub substeps: nat,
    /// Sub-steps of the running frame that are finished.
    pub done: nat,
    /// The snapshot of the next sub-step is taken and its integration is not.
    pub copied: bool,
}

impl Beat {
    /// The invariant of the loop: counters stay in range, and outside
    /// `Running` no frame is under way.
    pub open spec fn wf(self) -> bool {
        &&& self.done <= self.substeps
        &&& self.copied ==> self.done < self.substeps
        &&& !(self.phase is Running) ==> self.done == 0 && !self.copied
    }

    /// A loop that has not begun.
    pub open spec fn idle(substeps: nat) -> Beat {
        Beat { phase: Phase::Idle, substeps, done: 0, copied: false }
    }

    /// Running, and between two frames.
    pub open spec fn between_frames(self) -> bool {
        self.phase is Running && self.done == 0 && !self.copied
    }

    /// The loop after an attempt to start it: an idle loop runs if an
    /// executor was acquired and is stopped for good if none was; a loop that
    /// is not idle stays as it is.
    pub open spec fn start(self, executor_ready: bool) -> Beat {
        if self.phase is Idle {
            Beat { phase: if executor_ready { Phase::Running } else { Phase::Stopped }, ..self }
        } else {
            self
        }
    }

    /// What is to be done next. `stop` is the cancellation signal; it is
    /// heeded between frames only.
    pub open spec fn command(self, stop: bool) -> Command {
        if !(self.phase is Running) {
            Command::Halt
        } else if self.between_frames() && stop {
            Command::Halt
        } else if self.copied {
            Command::Integrate
        } else if self.done < self.substeps {
            Command::Snapshot
        } else {
            Command::Present
        }
    }

    /// The loop after the command was given.
    pub open spec fn next(self, stop: bool) -> Beat {
        if !(self.phase is Running) {
            self
        } else if self.between_frames() && stop {
            Beat { phase: Phase::Stopped, ..self }
        } else if self.copied {
            Beat { copied: false, done: self.done + 1, ..self }
        } else if self.done < self.substeps {
            Beat { copied: true, ..self }
        } else {
            Beat { done: 0, ..self }
        }
    }

    /// The loop after a fatal failure: stopped, whatever it was doing.
    pub open spec fn abort(self) -> Beat {
        Beat { phase: Phase::Stopped, done: 0, copied: false, ..self }
    }

    /// The loop after `n` commands, with no cancellation.
    pub open spec fn after(self, n: nat) -> Beat
        decreases n,
    {
        if n == 0 {
            self
        } else {
            self.next(false).after((n - 1) as nat)
        }
    }

    /// The next `n` commands, with no cancellation.
    pub open spec fn commands(self, n: nat) -> Seq<Command>
        decreases n,
    {
        if n == 0 {
            Seq::empty()
        } else {
            seq![self.command(false)] + self.next(false).commands((n - 1) as nat)
        }
    }
}

/// The commands of a frame of `substeps` sub-steps: snapshot and integrate in
/// turn, `substeps` times, then present.
pub open spec fn frame(substeps: nat) -> Seq<Command> {
    Seq::new(
        2 * substeps + 1,
        |i: int|
            if i == 2 * substeps {
                Command::Present
            } else if i % 2 == 0 {
                Command::Snapshot
            } else {
                Command::Integrate
            },
    )
}

/// Every step keeps the invariant.
pub proof fn lemma_next_wf(b: Beat, stop: bool)
    requires
        b.wf(),
    ensures
        b.next(stop).wf(),
        b.start(stop).wf(),
        b.abort().wf(),
        b.next(stop).substeps == b.substeps,
{
}

/// A stopped loop stays stopped and asks for nothing.
pub proof fn lemma_stopped_is_final(b: Beat, stop: bool, executor_ready: bool)
    requires
        b.phase is Stopped,
    ensures
        b.command(stop) == Command::Halt,
        b.next(stop) == b,
        b.start(executor_ready) == b,
{
}

/// A sub-step that has begun is finished: after a snapshot the next command
/// is the integration, whether or not cancellation was asked for; and no
/// integration is commanded but right after a snapshot.
pub proof fn lemma_substep_is_whole(b: Beat, stop: bool, later: bool)
    requires
        b.wf(),
    ensures
        b.command(stop) == Command::Snapshot ==> b.next(stop).command(later) == Command::Integrate,
        b.command(stop) == Command::Integrate ==> b.copied,
        b.next(stop).copied ==> b.command(stop) == Command::Snapshot,
        b.command(stop) == Command::Halt ==> b.next(stop).command(later) == Command::Halt,
{
}

/// The loop stops only between frames, and only when asked to.
pub proof fn lemma_stops_between_frames(b: Beat, stop: bool)
    requires
        b.wf(),
        b.phase is Running,
    ensures
        b.next(stop).phase is Stopped <==> b.between_frames() && stop,
{
}

/// Left alone, a running loop between frames gives the commands of one whole
/// frame and is between frames again.
pub proof fn lemma_frame(b: Beat)
    requires
        b.wf(),
        b.between_frames(),
    ensures
        b.commands(2 * b.substeps + 1) == frame(b.substeps),
        b.after(2 * b.substeps + 1) == b,
{
    lemma_rest_of_frame(b, b);
}

/// From any point between two sub-steps of a frame, the loop gives the
/// commands of the sub-steps that remain, presents, and is back at `start`.
proof fn lemma_rest_of_frame(b: Beat, start: Beat)
    requires
        b.wf(),
        b.phase is Running,
        !b.copied,
        start == (Beat { done: 0, ..b }),
    ensures
        b.commands((2 * (b.substeps - b.done) + 1) as nat) == frame((b.substeps - b.done) as nat),
        b.after((2 * (b.substeps - b.done) + 1) as nat) == start,
    decreases b.substeps - b.done,
{
    let left = (b.substeps - b.done) as nat;
    let n = (2 * left + 1) as nat;
    if left == 0 {
        assert(b.next(false) == start);
        assert(b.next(false).commands(0) == Seq::<Command>::empty());
        assert(b.next(false).after(0) == start);
        assert(b.commands(1) == frame(0));
    } else {
        let one = b.next(false);
        let two = one.next(false);
        lemma_rest_of_frame(two, start);
        assert(b.command(false) == Command::Snapshot);
        assert(one.command(false) == Command::Integrate);
        let rest = two.commands((2 * (left - 1) + 1) as nat);
        assert(rest == frame((left - 1) as nat));
        assert(one.commands((n - 1) as nat) == seq![Command::Integrate] + rest);
        assert(b.commands(n) == seq![Command::Snapshot] + (seq![Command::Integrate] + rest));
        assert(b.commands(n) =~= frame(left));
        assert(one.after((n - 1) as nat) == two.after((n - 2) as nat));
    }
}

/// The pacer of the simulation loop.
pub struct Pacer {
    phase: Phase,
    substeps: u32,
    done: u32,
    copied: bool,
}

impl View for Pacer {
    type V = Beat;

    closed spec fn view(&self) -> Beat {
        Beat {
            phase: self.phase,
            substeps: self.substeps as nat,
            done: self.done as nat,
            copied: self.copied,
        }
    }
}

impl Pacer {
    /// An idle pacer for frames of `substeps` sub-steps.
    pub fn new(substeps: u32) -> (pacer: Pacer)
        ensures
            pacer@ == Beat::idle(substeps as nat),
            pacer@.wf(),
    {
        Pacer { phase: Phase::Idle, substeps, done: 0, copied: false }
    }

    /// Where the loop stands.
    pub fn phase(&self) -> (phase: Phase)
        ensures
            phase == self@.phase,
    {
        self.phase
    }

    /// Starts the loop, given whether an executor could be acquired.
    ///
    /// Succeeds exactly when the loop runs afterwards. Without an executor an
    /// idle loop is stopped for good; a stopped loop has given its executor
    /// up and cannot be started again.
    pub fn start(&mut self, executor_ready: bool) -> (r: Result<(), Error>)
        requires
            old(self)@.wf(),
        ensures
            final(self)@ == old(self)@.start(executor_ready),
            final(self)@.wf(),
            r is Ok <==> final(self)@.phase is Running,
            r matches Err(e) ==> e == Error::ExecutorUnavailable,
    {
        match self.phase {
            Phase::Idle => {
                if executor_ready {
                    self.phase = Phase::Running;
                    Ok(())
                } else {
                    self.phase = Phase::Stopped;
                    Err(Error::ExecutorUnavailable)
                }
            },
            Phase::Running => Ok(()),
            Phase::Stopped => Err(Error::ExecutorUnavailable),
        }
    }

    /// What to do next. `stop` says whether cancellation has been asked for.
    pub fn next(&mut self, stop: bool) -> (command: Command)
        requires
            old(self)@.wf(),
        ensures
            command == old(self)@.command(stop),
            final(self)@ == old(self)@.next(stop),
            final(self)@.wf(),
    {
        match self.phase {
            Phase::Running => {
                if self.done == 0 && !self.copied && stop {
                    self.phase = Phase::Stopped;
                    Command::Halt
                } else if self.copied {
                    self.copied = false;
                    self.done = self.done + 1;
                    Command::Integrate
                } else if self.done < self.substeps {
                    self.copied = true;
                    Command::Snapshot
                } else {
                    self.done = 0;
                    Command::Present
                }
            },
            _ => Command::Halt,
        }
    }

    /// Stops the loop for good, in the middle of whatever it was doing. For
    /// failures that leave nothing to resume.
    pub fn abort(&mut self)
        ensures
            final(self)@ == old(self)@.abort(),
            final(self)@.wf(),
    {
        self.phase = Phase::Stopped;
        self.done = 0;
        self.copied = false;
    }
}

} // verus!
