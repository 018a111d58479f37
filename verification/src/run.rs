//! What a finished run reports about itself.

use vstd::prelude::*;

verus! {

/// What a run did: the steps it took and the frames it wrote.
#[derive(Debug, Clone, Copy, PartialEq, Eq, Structural)]
pub struct RunReport {
    steps_taken: u64,
    frames_written: u64,
}

impl RunReport {
    /// Steps the run took.
    pub closed spec fn steps_taken_spec(&self) -> u64 {
        self.steps_taken
    }

    /// Frames the run wrote.
    pub closed spec fn frames_written_spec(&self) -> u64 {
        self.frames_written
    }

    /// The report of a run that took `steps_taken` steps and wrote
    /// `frames_written` frames.
    pub fn new(steps_taken: u64, frames_written: u64) -> (r: Self)
        ensures
            r.steps_taken_spec() == steps_taken,
            r.frames_written_spec() == frames_written,
    {
        RunReport { steps_taken, frames_written }
    }

    /// Steps the run took.
    pub fn steps_taken(&self) -> (n: u64)
        ensures
            n == self.steps_taken_spec(),
    {
        self.steps_taken
    }

    /// Frames the run wrote.
    pub fn frames_written(&self) -> (n: u64)
        ensures
            n == self.frames_written_spec(),
    {
        self.frames_written
    }
}

} // verus!
