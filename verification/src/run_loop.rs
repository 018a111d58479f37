//! A run taken one step at a time: how far it has got, and which of the
//! states it visits it hands out as frames.
//!
//! A run of `total_steps` steps visits `total_steps + 1` states, the initial
//! one and the one after each step. A driver reads
//!
//! ```text
//! loop {
//!     if run.take_frame() { save the frame }
//!     if !run.take_step() { break }
//! }
//! ```
//!
//! and the frame at index `k` is the state after `k · N` steps, which puts the
//! initial condition first and the final state last. The physics of each step
//! stands outside this crate; [`RunCursor`] is the count it is taken against.

use vstd::prelude::*;
use crate::run_writer::{lemma_frame_count_counts_saved_steps, saved_at, saved_before, OutputCadence};

verus! {

/// Fewer steps never save more frames.
pub proof fn lemma_saved_before_is_monotonic(a: nat, b: nat, every_n_steps: int)
    requires
        a <= b,
        every_n_steps > 0,
    ensures
        saved_before(a, every_n_steps) <= saved_before(b, every_n_steps),
    decreases b - a,
{
    if a < b {
        lemma_saved_before_is_monotonic(a, (b - 1) as nat, every_n_steps);
    }
}

/// How far a run has got: steps taken, whether the current state's frame has
/// been handed out, and how many frames have been.
#[derive(Clone, Copy)]
pub struct RunCursor {
    cadence: OutputCadence,
    steps_taken: u64,
    frame_taken: bool,
    frames_taken: u64,
    no_frame_skipped: Ghost<bool>,
}

impl RunCursor {
    /// The run's cadence.
    pub closed spec fn cadence_spec(&self) -> OutputCadence {
        self.cadence
    }

    /// Steps taken so far; the state is the one after this many.
    pub closed spec fn steps_taken_spec(&self) -> u64 {
        self.steps_taken
    }

    /// Whether the frame of the current state has been handed out already.
    pub closed spec fn frame_taken_spec(&self) -> bool {
        self.frame_taken
    }

    /// Frames handed out so far.
    pub closed spec fn frames_taken_spec(&self) -> u64 {
        self.frames_taken
    }

    /// Whether every saved state the run has stepped past had its frame handed
    /// out before the step was taken.
    pub closed spec fn no_frame_skipped(&self) -> bool {
        self.no_frame_skipped@
    }

    /// The cursor is one a run can be at: no further than the end of the run,
    /// having handed out the frame of exactly the saved states it has passed
    /// and, if it is at one, possibly that one's too.
    pub closed spec fn wf(&self) -> bool {
        let every = self.cadence.every_n_steps_spec() as int;
        &&& every > 0
        &&& self.cadence.total_steps_spec() / self.cadence.every_n_steps_spec() < u64::MAX
        &&& self.steps_taken <= self.cadence.total_steps_spec()
        &&& self.frame_taken ==> self.cadence.writes_at_spec(self.steps_taken as int)
        &&& self.frames_taken <= saved_before(self.steps_taken as nat, every) + if self.frame_taken {
            1nat
        } else {
            0nat
        }
        &&& self.no_frame_skipped@ ==> self.frames_taken == saved_before(
            self.steps_taken as nat,
            every,
        ) + if self.frame_taken {
            1nat
        } else {
            0nat
        }
    }

    /// A run at its initial state, nothing stepped and nothing handed out.
    pub fn new(cadence: OutputCadence) -> (c: Self)
        requires
            cadence.total_steps_spec() / cadence.every_n_steps_spec() < u64::MAX,
        ensures
            c.wf(),
            c.cadence_spec() == cadence,
            c.steps_taken_spec() == 0,
            !c.frame_taken_spec(),
            c.frames_taken_spec() == 0,
            c.no_frame_skipped(),
    {
        let _ = cadence.every_n_steps();
        RunCursor {
            cadence,
            steps_taken: 0,
            frame_taken: false,
            frames_taken: 0,
            no_frame_skipped: Ghost(true),
        }
    }

    /// How long the run is and which of its steps are saved.
    pub fn cadence(&self) -> (c: OutputCadence)
        ensures
            c == self.cadence_spec(),
    {
        self.cadence
    }

    /// Steps taken so far.
    pub fn steps_taken(&self) -> (n: u64)
        ensures
            n == self.steps_taken_spec(),
    {
        self.steps_taken
    }

    /// Frames handed out so far.
    pub fn frames_taken(&self) -> (n: u64)
        ensures
            n == self.frames_taken_spec(),
    {
        self.frames_taken
    }

    /// Whether the run has taken every step it was asked for.
    pub fn is_finished(&self) -> (done: bool)
        ensures
            done == (self.steps_taken_spec() >= self.cadence_spec().total_steps_spec()),
    {
        self.steps_taken >= self.cadence.total_steps()
    }

    /// Whether the frame of the current state is to be handed out now: it is
    /// when the cadence saves this step and its frame has not been handed out
    /// yet, so a driver asking twice between two steps gets it once.
    pub fn take_frame(&mut self) -> (take: bool)
        requires
            old(self).wf(),
        ensures
            final(self).wf(),
            take == (!old(self).frame_taken_spec() && old(self).cadence_spec().writes_at_spec(
                old(self).steps_taken_spec() as int,
            )),
            final(self).cadence_spec() == old(self).cadence_spec(),
            final(self).steps_taken_spec() == old(self).steps_taken_spec(),
            final(self).no_frame_skipped() == old(self).no_frame_skipped(),
            final(self).frame_taken_spec() == (old(self).frame_taken_spec() || take),
            final(self).frames_taken_spec() == old(self).frames_taken_spec() + if take {
                1int
            } else {
                0int
            },
            // The frame handed out at step `k · N` is frame `k`.
            take && old(self).no_frame_skipped() ==> old(self).frames_taken_spec() == old(
                self,
            ).steps_taken_spec() / old(self).cadence_spec().every_n_steps_spec(),
    {
        if self.frame_taken || !self.cadence.writes_at_step(self.steps_taken) {
            return false;
        }
        proof {
            let every = self.cadence.every_n_steps_spec() as int;
            let total = self.cadence.total_steps_spec();
            let s = self.steps_taken as int;
            crate::run_writer::lemma_saved_before(s as nat, every);
            vstd::arithmetic::div_mod::lemma_fundamental_div_mod(s, every);
            let k = s / every;
            assert(s + every - 1 == k * every + (every - 1)) by (nonlinear_arith)
                requires
                    s == every * k + s % every,
                    s % every == 0,
            ;
            vstd::arithmetic::div_mod::lemma_fundamental_div_mod_converse_div(
                s + every - 1,
                every,
                k,
                every - 1,
            );
            lemma_saved_before_is_monotonic((self.steps_taken + 1) as nat, (total + 1) as nat, every);
            lemma_frame_count_counts_saved_steps(self.cadence);
            assert(saved_before((self.steps_taken + 1) as nat, every) == saved_before(
                self.steps_taken as nat,
                every,
            ) + 1);
        }
        self.frame_taken = true;
        self.frames_taken = self.frames_taken + 1;
        true
    }

    /// Take one step, if there is one left: `false` means the run has reached
    /// the end of its schedule and nothing was stepped.
    pub fn take_step(&mut self) -> (stepped: bool)
        requires
            old(self).wf(),
        ensures
            final(self).wf(),
            stepped == (old(self).steps_taken_spec() < old(self).cadence_spec().total_steps_spec()),
            final(self).cadence_spec() == old(self).cadence_spec(),
            final(self).frames_taken_spec() == old(self).frames_taken_spec(),
            stepped ==> {
                &&& final(self).steps_taken_spec() == old(self).steps_taken_spec() + 1
                &&& !final(self).frame_taken_spec()
                &&& final(self).no_frame_skipped() == (old(self).no_frame_skipped() && (
                old(self).frame_taken_spec() || !old(self).cadence_spec().writes_at_spec(
                    old(self).steps_taken_spec() as int,
                )))
            },
            !stepped ==> *final(self) == *old(self),
    {
        if self.is_finished() {
            return false;
        }
        proof {
            let every = self.cadence.every_n_steps_spec() as int;
            let s = self.steps_taken;
            assert(saved_at(self.cadence.total_steps_spec() as int, every, s as int) ==> s as int % every == 0);
        }
        let ghost kept = self.no_frame_skipped@ && (self.frame_taken
            || !self.cadence.writes_at_spec(self.steps_taken as int));
        self.steps_taken = self.steps_taken + 1;
        self.frame_taken = false;
        self.no_frame_skipped = Ghost(kept);
        true
    }
}

/// A run driven as `take_frame` then `take_step`, to its end, hands out the frame of every state its cadence
/// saves, and no other: once the last step is taken and the final state's
/// frame is handed out, the frames handed out are the frames the header
/// promised.
pub proof fn lemma_finished_run_hands_out_every_frame(cursor: RunCursor)
    requires
        cursor.wf(),
        cursor.no_frame_skipped(),
        cursor.steps_taken_spec() >= cursor.cadence_spec().total_steps_spec(),
        cursor.frame_taken_spec() || !cursor.cadence_spec().writes_at_spec(
            cursor.steps_taken_spec() as int,
        ),
    ensures
        cursor.frames_taken_spec() == cursor.cadence_spec().frame_count_spec(),
{
    let c = cursor.cadence_spec();
    lemma_frame_count_counts_saved_steps(c);
}

} // verus!
