//! How often a run writes a frame, and the count a writer holds itself to.
//!
//! Output is decimated: a run saves every `every_n_steps`-th step, starting
//! from the initial state at step 0, up to and including the last multiple of
//! the cadence the run reaches. [`OutputCadence`] decides which steps those
//! are and how many there will be; a run's header promises that count before
//! the first frame exists, and a [`FrameLedger`] holds the writer to it.

use vstd::prelude::*;

verus! {

/// Why an output cadence was rejected.
#[derive(Debug, Clone, Copy, PartialEq, Eq, Structural)]
pub enum CadenceError {
    /// The output cadence was zero steps, which is not a cadence: it would
    /// ask for a frame between every pair of frames, without end.
    CadenceIsZero,
}

/// Whether the state after `step` steps of a run of `total_steps` is one of
/// the saved ones.
pub open spec fn saved_at(total_steps: int, every_n_steps: int, step: int) -> bool {
    0 <= step <= total_steps && step % every_n_steps == 0
}

/// How many of the steps `0 .. n` are multiples of `every_n_steps`.
pub open spec fn saved_before(n: nat, every_n_steps: int) -> nat
    decreases n,
{
    if n == 0 {
        0
    } else {
        saved_before((n - 1) as nat, every_n_steps) + if (n - 1) % every_n_steps == 0 {
            1nat
        } else {
            0nat
        }
    }
}

/// Among the first `n` steps, one in `every_n_steps` is saved, the first of
/// them included: `⌈n / every_n_steps⌉` of them.
pub proof fn lemma_saved_before(n: nat, every_n_steps: int)
    requires
        every_n_steps > 0,
    ensures
        saved_before(n, every_n_steps) == (n + every_n_steps - 1) / every_n_steps,
    decreases n,
{
    let e = every_n_steps;
    if n == 0 {
        vstd::arithmetic::div_mod::lemma_fundamental_div_mod_converse_div(e - 1, e, 0, e - 1);
    } else {
        let m = (n - 1) as int;
        lemma_saved_before(m as nat, e);
        let q = m / e;
        let r = m % e;
        vstd::arithmetic::div_mod::lemma_fundamental_div_mod(m, e);
        assert(m == q * e + r) by (nonlinear_arith)
            requires
                m == e * q + r,
        ;
        assert(0 <= r < e);
        if r > 0 {
            assert(m + e - 1 == (q + 1) * e + (r - 1)) by (nonlinear_arith)
                requires
                    m == q * e + r,
            ;
            vstd::arithmetic::div_mod::lemma_fundamental_div_mod_converse_div(
                m + e - 1,
                e,
                q + 1,
                r - 1,
            );
        } else {
            assert(m + e - 1 == q * e + (e - 1)) by (nonlinear_arith)
                requires
                    m == q * e + r,
                    r == 0,
            ;
            vstd::arithmetic::div_mod::lemma_fundamental_div_mod_converse_div(m + e - 1, e, q, e - 1);
        }
        assert(m + 1 + e - 1 == (q + 1) * e + r) by (nonlinear_arith)
            requires
                m == q * e + r,
        ;
        vstd::arithmetic::div_mod::lemma_fundamental_div_mod_converse_div(m + 1 + e - 1, e, q + 1, r);
    }
}

/// How often a run writes a frame, and therefore how many it writes.
#[derive(Debug, Clone, Copy, PartialEq, Eq)]
pub struct OutputCadence {
    total_steps: u64,
    every_n_steps: u64,
}

impl OutputCadence {
    #[verifier::type_invariant]
    spec fn inv(self) -> bool {
        self.every_n_steps > 0
    }

    /// Steps the run takes from its initial state.
    pub closed spec fn total_steps_spec(&self) -> u64 {
        self.total_steps
    }

    /// Steps between saved frames; never zero.
    pub closed spec fn every_n_steps_spec(&self) -> u64 {
        self.every_n_steps
    }

    /// Frames the run writes: one at step 0, then one per interval that fits.
    pub open spec fn frame_count_spec(&self) -> int {
        self.total_steps_spec() / self.every_n_steps_spec() + 1
    }

    /// Whether the state after `step` steps is saved.
    pub open spec fn writes_at_spec(&self, step: int) -> bool {
        saved_at(self.total_steps_spec() as int, self.every_n_steps_spec() as int, step)
    }

    /// A run of `total_steps` steps, saving a frame every `every_n_steps`
    /// steps.
    pub fn new(total_steps: u64, every_n_steps: u64) -> (r: Result<Self, CadenceError>)
        ensures
            every_n_steps == 0 <==> r == Err::<Self, CadenceError>(CadenceError::CadenceIsZero),
            every_n_steps != 0 <==> r is Ok,
            r matches Ok(c) ==> c.total_steps_spec() == total_steps && c.every_n_steps_spec()
                == every_n_steps,
    {
        if every_n_steps == 0 {
            return Err(CadenceError::CadenceIsZero);
        }
        Ok(OutputCadence { total_steps, every_n_steps })
    }

    /// Steps the run takes from its initial state.
    pub fn total_steps(&self) -> (n: u64)
        ensures
            n == self.total_steps_spec(),
    {
        self.total_steps
    }

    /// Steps between saved frames.
    pub fn every_n_steps(&self) -> (n: u64)
        ensures
            n == self.every_n_steps_spec(),
            n > 0,
    {
        proof {
            use_type_invariant(self);
        }
        self.every_n_steps
    }

    /// Frames this run will write: one at step 0, then one per interval that
    /// fits inside the run.
    pub fn frame_count(&self) -> (n: u64)
        requires
            self.total_steps_spec() / self.every_n_steps_spec() < u64::MAX,
        ensures
            n == self.frame_count_spec(),
    {
        proof {
            use_type_invariant(self);
        }
        self.total_steps / self.every_n_steps + 1
    }

    /// Whether the state after `step` steps is one of the saved ones.
    pub fn writes_at_step(&self, step: u64) -> (saved: bool)
        ensures
            saved == self.writes_at_spec(step as int),
    {
        proof {
            use_type_invariant(self);
        }
        step <= self.total_steps && step % self.every_n_steps == 0
    }
}

/// The frame count is the count of saved steps: of the `total_steps + 1`
/// states a run visits, exactly `frame_count` are saved — the header's
/// promise is the loop's delivery.
pub proof fn lemma_frame_count_counts_saved_steps(cadence: OutputCadence)
    requires
        cadence.every_n_steps_spec() > 0,
    ensures
        saved_before((cadence.total_steps_spec() + 1) as nat, cadence.every_n_steps_spec() as int)
            == cadence.frame_count_spec(),
        forall|step: int|
            cadence.writes_at_spec(step) <==> 0 <= step <= cadence.total_steps_spec() && step
                % (cadence.every_n_steps_spec() as int) == 0,
{
    let e = cadence.every_n_steps_spec() as int;
    let t = cadence.total_steps_spec() as int;
    lemma_saved_before((t + 1) as nat, e);
    assert((t + 1 + e - 1) / e == t / e + 1) by {
        vstd::arithmetic::div_mod::lemma_fundamental_div_mod(t, e);
        let q = t / e;
        let r = t % e;
        assert(t + 1 + e - 1 == (q + 1) * e + r) by (nonlinear_arith)
            requires
                t == e * q + r,
        ;
        vstd::arithmetic::div_mod::lemma_fundamental_div_mod_converse_div(t + 1 + e - 1, e, q + 1, r);
    }
}

/// Why a writer refused a frame or a close.
#[derive(Debug, Clone, Copy, PartialEq, Eq, Structural)]
pub enum FrameCountError {
    /// A frame was appended after the run had written every frame its header
    /// promised.
    TooManyFrames {
        /// Frames the header promised.
        promised: u64,
    },
    /// The run finished before writing every frame its header promised.
    MissingFrames {
        /// Frames the header promised.
        promised: u64,
        /// Frames actually written.
        written: u64,
    },
}

/// The frames a run's header promised, and how many of them have been
/// written.
#[derive(Debug, Clone, Copy, PartialEq, Eq)]
pub struct FrameLedger {
    promised: u64,
    written: u64,
}

impl FrameLedger {
    #[verifier::type_invariant]
    spec fn inv(self) -> bool {
        self.written <= self.promised
    }

    /// Frames the header promised.
    pub closed spec fn promised_spec(&self) -> u64 {
        self.promised
    }

    /// Frames written so far.
    pub closed spec fn written_spec(&self) -> u64 {
        self.written
    }

    /// The ledger of a run whose header promised `promised` frames and which
    /// has written none of them.
    pub fn new(promised: u64) -> (l: Self)
        ensures
            l.promised_spec() == promised,
            l.written_spec() == 0,
    {
        FrameLedger { promised, written: 0 }
    }

    /// Frames the header promised.
    pub fn promised(&self) -> (n: u64)
        ensures
            n == self.promised_spec(),
    {
        self.promised
    }

    /// Frames written so far.
    pub fn written(&self) -> (n: u64)
        ensures
            n == self.written_spec(),
            n <= self.promised_spec(),
    {
        proof {
            use_type_invariant(self);
        }
        self.written
    }

    /// Whether one more frame may be written: refused once the promised
    /// count has been written, since a reader takes the count from the header
    /// and would never see it.
    pub fn check_room(&self) -> (r: Result<(), FrameCountError>)
        ensures
            self.written_spec() < self.promised_spec() <==> r is Ok,
            r matches Err(e) ==> e == (FrameCountError::TooManyFrames { promised: self.promised_spec() }),
    {
        proof {
            use_type_invariant(self);
        }
        if self.written == self.promised {
            return Err(FrameCountError::TooManyFrames { promised: self.promised });
        }
        Ok(())
    }

    /// Account for one more frame written, where there was room for it.
    pub fn record_frame(&mut self)
        requires
            old(self).written_spec() < old(self).promised_spec(),
        ensures
            final(self).promised_spec() == old(self).promised_spec(),
            final(self).written_spec() == old(self).written_spec() + 1,
    {
        self.written = self.written + 1;
    }

    /// Whether the run may close: only once every promised frame is written.
    pub fn check_complete(&self) -> (r: Result<(), FrameCountError>)
        ensures
            self.written_spec() == self.promised_spec() <==> r is Ok,
            r matches Err(e) ==> e == (FrameCountError::MissingFrames {
                promised: self.promised_spec(),
                written: self.written_spec(),
            }),
    {
        if self.written != self.promised {
            return Err(FrameCountError::MissingFrames { promised: self.promised, written: self.written });
        }
        Ok(())
    }
}

} // verus!
