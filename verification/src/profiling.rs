//! Where a timestep's time goes: the phases and terms a step is split into,
//! and the bookkeeping that turns clock readings into a profile that adds up.
//!
//! The clock is read around the engine's own kernels, which are
//! floating-point and stand outside this crate; what is here is everything
//! the profiler does *with* those readings. A [`StepTally`] charges each of
//! the four timed [`StepPhase`]s what one step measured and makes the fifth,
//! [`StepPhase::StageAlgebra`], the residual of the step, so the five phases
//! of a [`StepProfile`] sum to the step. A [`TermTally`] does the same for
//! the fourteen [`RhsTerm`]s of one right-hand-side evaluation.

use vstd::prelude::*;
use std::time::Duration;
use crate::clock::{
    add_durations, as_nanos, duration_new, total_nanos, elapsed, floor_div, keep_reading, lemma_nanos_sum_bounds,
    lemma_nanos_sum_pointwise, lemma_nanos_sum_update, lemma_nanos_sum_zero, max_duration_nanos,
    nanos_of, nanos_sum, now, saturating_sub, zero,
};

verus! {

/// One of the five pieces a timestep is made of.
#[derive(Debug, Clone, Copy, PartialEq, Eq, Hash, Structural)]
pub enum StepPhase {
    /// Asking the forcing for the stress at the stage's instant, and sampling
    /// it onto the C-grid when the field in hand is not already that field.
    WindStressSampling,
    /// The shallow-water right-hand side: pressure gradient, surface stress,
    /// Rayleigh damping and the continuity divergence.
    ShallowWaterTerms,
    /// The two four-point interpolations and the `±f·` accumulations.
    Coriolis,
    /// No normal flow, on the incoming state and on each stage's tendency.
    BoundaryCondition,
    /// What the RK4 integrator itself does, measured as the residual of the
    /// step less the four phases above.
    StageAlgebra,
}

/// Every [`StepPhase`], in the order a step performs them.
pub const STEP_PHASES: [StepPhase; 5] = [
    StepPhase::WindStressSampling,
    StepPhase::ShallowWaterTerms,
    StepPhase::Coriolis,
    StepPhase::BoundaryCondition,
    StepPhase::StageAlgebra,
];

/// The four phases a profiler times directly; the fifth is their residual.
pub const TIMED_PHASES: usize = 4;

/// Stages of the RK4 tableau, each of which reads the clock
/// [`STAGE_CLOCK_READS`] times.
pub const RK4_STAGES: u32 = 4;

/// Clock reads inside one RK4 stage: one mark before the wind is sampled, and
/// one after each of the stage's four phases.
pub const STAGE_CLOCK_READS: u32 = 1 + TIMED_PHASES as u32;

/// Clock reads a step performs outside its stages: the pair around the step
/// itself, and the pair around the boundary condition applied to the incoming
/// state.
pub const STEP_CLOCK_READS: u32 = 4;

/// How many times a profiled step reads the clock.
pub const CLOCK_READS_PER_STEP: u32 = STEP_CLOCK_READS + RK4_STAGES * STAGE_CLOCK_READS;

/// Slot of `phase` in [`STEP_PHASES`] and in a [`StepProfile`].
pub open spec fn step_phase_index(phase: StepPhase) -> int {
    match phase {
        StepPhase::WindStressSampling => 0,
        StepPhase::ShallowWaterTerms => 1,
        StepPhase::Coriolis => 2,
        StepPhase::BoundaryCondition => 3,
        StepPhase::StageAlgebra => 4,
    }
}

/// How `phase` names itself in a report.
pub open spec fn step_phase_label(phase: StepPhase) -> Seq<char> {
    match phase {
        StepPhase::WindStressSampling => "wind stress sampling"@,
        StepPhase::ShallowWaterTerms => "shallow-water terms"@,
        StepPhase::Coriolis => "coriolis"@,
        StepPhase::BoundaryCondition => "boundary condition"@,
        StepPhase::StageAlgebra => "rk4 stage algebra"@,
    }
}

impl StepPhase {
    /// How this phase names itself in a report.
    pub fn label(self) -> (s: &'static str)
        ensures
            s@ == step_phase_label(self),
    {
        match self {
            StepPhase::WindStressSampling => "wind stress sampling",
            StepPhase::ShallowWaterTerms => "shallow-water terms",
            StepPhase::Coriolis => "coriolis",
            StepPhase::BoundaryCondition => "boundary condition",
            StepPhase::StageAlgebra => "rk4 stage algebra",
        }
    }

    /// Position of this phase in [`STEP_PHASES`], which is also its slot in a
    /// [`StepProfile`].
    pub fn index(self) -> (i: usize)
        ensures
            i == step_phase_index(self),
    {
        match self {
            StepPhase::WindStressSampling => 0,
            StepPhase::ShallowWaterTerms => 1,
            StepPhase::Coriolis => 2,
            StepPhase::BoundaryCondition => 3,
            StepPhase::StageAlgebra => 4,
        }
    }
}

/// Each phase sits at its own index in [`STEP_PHASES`], and the five are
/// five different phases: the order a report walks and the slot a profile
/// keeps a measurement in are one ordering.
pub proof fn lemma_step_phases_sit_at_their_index()
    ensures
        STEP_PHASES@.len() == 5,
        forall|i: int| 0 <= i < 5 ==> #[trigger] step_phase_index(STEP_PHASES@[i]) == i,
        forall|p: StepPhase| #[trigger] STEP_PHASES@[step_phase_index(p)] == p,
        TIMED_PHASES == STEP_PHASES@.len() - 1,
{
}

/// Each phase is named for what it is in a report, and no two phases share a
/// name, so a report's rows cannot be confused.
pub proof fn lemma_step_phase_labels()
    ensures
        step_phase_label(StepPhase::WindStressSampling) == "wind stress sampling"@,
        step_phase_label(StepPhase::ShallowWaterTerms) == "shallow-water terms"@,
        step_phase_label(StepPhase::Coriolis) == "coriolis"@,
        step_phase_label(StepPhase::BoundaryCondition) == "boundary condition"@,
        step_phase_label(StepPhase::StageAlgebra) == "rk4 stage algebra"@,
        forall|p: StepPhase, q: StepPhase|
            #[trigger] step_phase_label(p) == #[trigger] step_phase_label(q) ==> p == q,
{
    reveal_strlit("wind stress sampling");
    reveal_strlit("shallow-water terms");
    reveal_strlit("coriolis");
    reveal_strlit("boundary condition");
    reveal_strlit("rk4 stage algebra");
    assert forall|p: StepPhase, q: StepPhase|
        #[trigger] step_phase_label(p) == #[trigger] step_phase_label(q) implies p == q by {
        if p != q {
            let a = step_phase_label(p);
            let b = step_phase_label(q);
            assert(a.len() != b.len() || a[0] != b[0] || a[1] != b[1]);
        }
    }
}

/// A profiled step reads the clock twenty-four times: four around the step and
/// its incoming boundary condition, and five in each of the four RK4 stages.
pub proof fn lemma_clock_reads_per_step()
    ensures
        CLOCK_READS_PER_STEP == 24,
        CLOCK_READS_PER_STEP == STEP_CLOCK_READS + RK4_STAGES * (1 + TIMED_PHASES),
{
}


/// One of the fourteen array kernels the right-hand side and the Coriolis term
/// are built from, in the order they are performed.
#[derive(Debug, Clone, Copy, PartialEq, Eq, Hash, Structural)]
pub enum RhsTerm {
    /// `∂h/∂x` from cell centres onto east/west faces.
    ZonalPressureGradient,
    /// `∂h/∂y` from cell centres onto north/south faces.
    MeridionalPressureGradient,
    /// `−g'·∂h/∂x + τx/(ρ₀·H)` in place on the zonal tendency.
    ZonalPressureAndStress,
    /// `−g'·∂h/∂y + τy/(ρ₀·H)` in place on the meridional tendency.
    MeridionalPressureAndStress,
    /// `−r·u` on the zonal tendency.
    ZonalDamping,
    /// `−r·v` on the meridional tendency.
    MeridionalDamping,
    /// `∂u/∂x` from east/west faces onto cell centres.
    ZonalDivergence,
    /// `∂v/∂y` from north/south faces onto cell centres.
    MeridionalDivergence,
    /// `−H·(∂u/∂x + ∂v/∂y)` onto the thermocline tendency.
    Continuity,
    /// `−r·h` on the thermocline tendency.
    ThermoclineDamping,
    /// `v` interpolated onto the east/west faces.
    MeridionalVelocityOntoZonalFaces,
    /// `u` interpolated onto the north/south faces.
    ZonalVelocityOntoMeridionalFaces,
    /// `+f·v` accumulated onto the zonal tendency.
    ZonalRotation,
    /// `−f·u` accumulated onto the meridional tendency.
    MeridionalRotation,
}

/// Every [`RhsTerm`], in the order an evaluation performs them.
pub const RHS_TERMS: [RhsTerm; 14] = [
    RhsTerm::ZonalPressureGradient,
    RhsTerm::MeridionalPressureGradient,
    RhsTerm::ZonalPressureAndStress,
    RhsTerm::MeridionalPressureAndStress,
    RhsTerm::ZonalDamping,
    RhsTerm::MeridionalDamping,
    RhsTerm::ZonalDivergence,
    RhsTerm::MeridionalDivergence,
    RhsTerm::Continuity,
    RhsTerm::ThermoclineDamping,
    RhsTerm::MeridionalVelocityOntoZonalFaces,
    RhsTerm::ZonalVelocityOntoMeridionalFaces,
    RhsTerm::ZonalRotation,
    RhsTerm::MeridionalRotation,
];

/// Slot of `term` in [`RHS_TERMS`] and in a [`TermProfile`].
pub open spec fn rhs_term_index(term: RhsTerm) -> int {
    match term {
        RhsTerm::ZonalPressureGradient => 0,
        RhsTerm::MeridionalPressureGradient => 1,
        RhsTerm::ZonalPressureAndStress => 2,
        RhsTerm::MeridionalPressureAndStress => 3,
        RhsTerm::ZonalDamping => 4,
        RhsTerm::MeridionalDamping => 5,
        RhsTerm::ZonalDivergence => 6,
        RhsTerm::MeridionalDivergence => 7,
        RhsTerm::Continuity => 8,
        RhsTerm::ThermoclineDamping => 9,
        RhsTerm::MeridionalVelocityOntoZonalFaces => 10,
        RhsTerm::ZonalVelocityOntoMeridionalFaces => 11,
        RhsTerm::ZonalRotation => 12,
        RhsTerm::MeridionalRotation => 13,
    }
}

/// How `term` names itself in a report.
pub open spec fn rhs_term_label(term: RhsTerm) -> Seq<char> {
    match term {
        RhsTerm::ZonalPressureGradient => "d(h)/dx  centre -> u face"@,
        RhsTerm::MeridionalPressureGradient => "d(h)/dy  centre -> v face"@,
        RhsTerm::ZonalPressureAndStress => "-g'.dh/dx + taux/(rho.H)"@,
        RhsTerm::MeridionalPressureAndStress => "-g'.dh/dy + tauy/(rho.H)"@,
        RhsTerm::ZonalDamping => "-r.u"@,
        RhsTerm::MeridionalDamping => "-r.v"@,
        RhsTerm::ZonalDivergence => "d(u)/dx  u face -> centre"@,
        RhsTerm::MeridionalDivergence => "d(v)/dy  v face -> centre"@,
        RhsTerm::Continuity => "-H.(du/dx + dv/dy)"@,
        RhsTerm::ThermoclineDamping => "-r.h"@,
        RhsTerm::MeridionalVelocityOntoZonalFaces => "v -> u faces (4-point)"@,
        RhsTerm::ZonalVelocityOntoMeridionalFaces => "u -> v faces (4-point)"@,
        RhsTerm::ZonalRotation => "+f.v"@,
        RhsTerm::MeridionalRotation => "-f.u"@,
    }
}

/// The [`StepPhase`] `term` is part of: the four rotation kernels are the
/// Coriolis phase, the other ten the shallow-water terms.
pub open spec fn rhs_term_phase(term: RhsTerm) -> StepPhase {
    match term {
        RhsTerm::MeridionalVelocityOntoZonalFaces
        | RhsTerm::ZonalVelocityOntoMeridionalFaces
        | RhsTerm::ZonalRotation
        | RhsTerm::MeridionalRotation => StepPhase::Coriolis,
        _ => StepPhase::ShallowWaterTerms,
    }
}

impl RhsTerm {
    /// How this term names itself in a report.
    pub fn label(self) -> (s: &'static str)
        ensures
            s@ == rhs_term_label(self),
    {
        match self {
            RhsTerm::ZonalPressureGradient => "d(h)/dx  centre -> u face",
            RhsTerm::MeridionalPressureGradient => "d(h)/dy  centre -> v face",
            RhsTerm::ZonalPressureAndStress => "-g'.dh/dx + taux/(rho.H)",
            RhsTerm::MeridionalPressureAndStress => "-g'.dh/dy + tauy/(rho.H)",
            RhsTerm::ZonalDamping => "-r.u",
            RhsTerm::MeridionalDamping => "-r.v",
            RhsTerm::ZonalDivergence => "d(u)/dx  u face -> centre",
            RhsTerm::MeridionalDivergence => "d(v)/dy  v face -> centre",
            RhsTerm::Continuity => "-H.(du/dx + dv/dy)",
            RhsTerm::ThermoclineDamping => "-r.h",
            RhsTerm::MeridionalVelocityOntoZonalFaces => "v -> u faces (4-point)",
            RhsTerm::ZonalVelocityOntoMeridionalFaces => "u -> v faces (4-point)",
            RhsTerm::ZonalRotation => "+f.v",
            RhsTerm::MeridionalRotation => "-f.u",
        }
    }

    /// Which [`StepPhase`] this term is part of, so a term table can be read
    /// against the phase table above it.
    pub fn phase(self) -> (p: StepPhase)
        ensures
            p == rhs_term_phase(self),
    {
        match self {
            RhsTerm::MeridionalVelocityOntoZonalFaces
            | RhsTerm::ZonalVelocityOntoMeridionalFaces
            | RhsTerm::ZonalRotation
            | RhsTerm::MeridionalRotation => StepPhase::Coriolis,
            _ => StepPhase::ShallowWaterTerms,
        }
    }

    /// Position of this term in [`RHS_TERMS`], which is also its slot in a
    /// [`TermProfile`].
    pub fn index(self) -> (i: usize)
        ensures
            i == rhs_term_index(self),
    {
        match self {
            RhsTerm::ZonalPressureGradient => 0,
            RhsTerm::MeridionalPressureGradient => 1,
            RhsTerm::ZonalPressureAndStress => 2,
            RhsTerm::MeridionalPressureAndStress => 3,
            RhsTerm::ZonalDamping => 4,
            RhsTerm::MeridionalDamping => 5,
            RhsTerm::ZonalDivergence => 6,
            RhsTerm::MeridionalDivergence => 7,
            RhsTerm::Continuity => 8,
            RhsTerm::ThermoclineDamping => 9,
            RhsTerm::MeridionalVelocityOntoZonalFaces => 10,
            RhsTerm::ZonalVelocityOntoMeridionalFaces => 11,
            RhsTerm::ZonalRotation => 12,
            RhsTerm::MeridionalRotation => 13,
        }
    }
}

/// Each term is named for its own kernel in a report, and no two terms share
/// a name, so a term table's rows cannot be confused.
pub proof fn lemma_rhs_term_labels()
    ensures
        rhs_term_label(RhsTerm::ZonalPressureGradient) == "d(h)/dx  centre -> u face"@,
        rhs_term_label(RhsTerm::MeridionalPressureGradient) == "d(h)/dy  centre -> v face"@,
        rhs_term_label(RhsTerm::ZonalPressureAndStress) == "-g'.dh/dx + taux/(rho.H)"@,
        rhs_term_label(RhsTerm::MeridionalPressureAndStress) == "-g'.dh/dy + tauy/(rho.H)"@,
        rhs_term_label(RhsTerm::ZonalDamping) == "-r.u"@,
        rhs_term_label(RhsTerm::MeridionalDamping) == "-r.v"@,
        rhs_term_label(RhsTerm::ZonalDivergence) == "d(u)/dx  u face -> centre"@,
        rhs_term_label(RhsTerm::MeridionalDivergence) == "d(v)/dy  v face -> centre"@,
        rhs_term_label(RhsTerm::Continuity) == "-H.(du/dx + dv/dy)"@,
        rhs_term_label(RhsTerm::ThermoclineDamping) == "-r.h"@,
        rhs_term_label(RhsTerm::MeridionalVelocityOntoZonalFaces) == "v -> u faces (4-point)"@,
        rhs_term_label(RhsTerm::ZonalVelocityOntoMeridionalFaces) == "u -> v faces (4-point)"@,
        rhs_term_label(RhsTerm::ZonalRotation) == "+f.v"@,
        rhs_term_label(RhsTerm::MeridionalRotation) == "-f.u"@,
        forall|p: RhsTerm, q: RhsTerm|
            #[trigger] rhs_term_label(p) == #[trigger] rhs_term_label(q) ==> p == q,
{
    reveal_strlit("d(h)/dx  centre -> u face");
    reveal_strlit("d(h)/dy  centre -> v face");
    reveal_strlit("-g'.dh/dx + taux/(rho.H)");
    reveal_strlit("-g'.dh/dy + tauy/(rho.H)");
    reveal_strlit("-r.u");
    reveal_strlit("-r.v");
    reveal_strlit("d(u)/dx  u face -> centre");
    reveal_strlit("d(v)/dy  v face -> centre");
    reveal_strlit("-H.(du/dx + dv/dy)");
    reveal_strlit("-r.h");
    reveal_strlit("v -> u faces (4-point)");
    reveal_strlit("u -> v faces (4-point)");
    reveal_strlit("+f.v");
    reveal_strlit("-f.u");
    assert forall|p: RhsTerm, q: RhsTerm|
        #[trigger] rhs_term_label(p) == #[trigger] rhs_term_label(q) implies p == q by {
        if p != q {
            let a = rhs_term_label(p);
            let b = rhs_term_label(q);
            assert(a.len() != b.len() || a[0] != b[0] || a[1] != b[1] || a[2] != b[2] || a[3] != b[3]
                || a[6] != b[6] || a[8] != b[8]);
        }
    }
}

/// Each term sits at its own index in [`RHS_TERMS`], the fourteen are
/// fourteen different terms, and every one of them is part of one of the two
/// evaluator phases of a step.
pub proof fn lemma_rhs_terms_sit_at_their_index()
    ensures
        RHS_TERMS@.len() == 14,
        forall|i: int| 0 <= i < 14 ==> #[trigger] rhs_term_index(RHS_TERMS@[i]) == i,
        forall|t: RhsTerm| #[trigger] RHS_TERMS@[rhs_term_index(t)] == t,
        forall|t: RhsTerm|
            #[trigger] rhs_term_phase(t) == StepPhase::ShallowWaterTerms || rhs_term_phase(t)
                == StepPhase::Coriolis,
{
}


/// `total` divided among `count` steps or evaluations, to the nanosecond and
/// rounded down: zero for a count of zero, and a count past `u32::MAX` divides
/// as `u32::MAX`, the widest divisor a duration takes.
pub open spec fn mean_nanos(total: int, count: u64) -> int {
    floor_div(total, if count <= 0xffff_ffff { count as int } else { 0xffff_ffff })
}

/// `total` divided by `count`, or zero if there is nothing to divide.
pub fn mean_over(total: Duration, count: u64) -> (mean: Duration)
    ensures
        nanos_of(mean) == mean_nanos(nanos_of(total) as int, count),
{
    let divisor: u32 = if count <= 0xffff_ffffu64 {
        count as u32
    } else {
        0xffff_ffffu32
    };
    if divisor == 0 {
        return zero();
    }
    let n = as_nanos(total);
    let q = n / (divisor as u128);
    proof {
        vstd::arithmetic::div_mod::lemma_div_is_ordered_by_denominator(n as int, 1, divisor as int);
        vstd::arithmetic::div_mod::lemma_div_is_ordered(n as int, max_duration_nanos(), 1_000_000_000);
        vstd::arithmetic::div_mod::lemma_div_is_ordered(q as int, max_duration_nanos(), 1_000_000_000);
        vstd::arithmetic::div_mod::lemma_fundamental_div_mod(q as int, 1_000_000_000);
        assert(max_duration_nanos() / 1_000_000_000 == 18446744073709551615int);
    }
    let secs = (q / 1_000_000_000) as u64;
    let sub = (q % 1_000_000_000) as u32;
    duration_new(secs, sub)
}

/// What a run of the step profiler measured: the wall time of some number of
/// whole steps, and how it divided among the [`STEP_PHASES`].
#[derive(Debug, Clone, Copy, PartialEq)]
pub struct StepProfile {
    steps: u64,
    total: Duration,
    phases: [Duration; 5],
    charges: [u32; 5],
}

impl StepProfile {
    /// Steps this profile covers.
    pub closed spec fn steps_spec(&self) -> u64 {
        self.steps
    }

    /// Wall time of those steps, end to end.
    pub closed spec fn total_spec(&self) -> Duration {
        self.total
    }

    /// Time spent in `phase` across the whole profile: its slot of
    /// [`StepProfile::phases_spec`].
    pub open spec fn phase_spec(&self, phase: StepPhase) -> Duration {
        self.phases_spec()[step_phase_index(phase)]
    }

    /// How many times `phase` was charged over the whole profile: its slot of
    /// [`StepProfile::charges_seq_spec`].
    pub open spec fn charges_spec(&self, phase: StepPhase) -> u32 {
        self.charges_seq_spec()[step_phase_index(phase)]
    }

    /// Time spent in each phase, in the order of [`STEP_PHASES`].
    pub closed spec fn phases_spec(&self) -> Seq<Duration> {
        self.phases@
    }

    /// How many times each phase was charged, in the order of [`STEP_PHASES`].
    pub closed spec fn charges_seq_spec(&self) -> Seq<u32> {
        self.charges@
    }

    /// Steps this profile covers.
    pub fn steps(&self) -> (n: u64)
        ensures
            n == self.steps_spec(),
    {
        self.steps
    }

    /// Wall time of those steps, end to end.
    pub fn total(&self) -> (d: Duration)
        ensures
            d == self.total_spec(),
    {
        self.total
    }

    /// Mean wall time of one step.
    pub fn per_step(&self) -> (d: Duration)
        ensures
            nanos_of(d) == mean_nanos(nanos_of(self.total_spec()) as int, self.steps_spec()),
    {
        mean_over(self.total, self.steps)
    }

    /// Time spent in `phase` across the whole profile.
    pub fn phase(&self, phase: StepPhase) -> (d: Duration)
        ensures
            d == self.phase_spec(phase),
            self.phases_spec().len() == 5,
    {
        self.phases[phase.index()]
    }

    /// Mean time one step spent in `phase`.
    pub fn per_step_in(&self, phase: StepPhase) -> (d: Duration)
        ensures
            nanos_of(d) == mean_nanos(nanos_of(self.phase_spec(phase)) as int, self.steps_spec()),
    {
        mean_over(self.phase(phase), self.steps)
    }

    /// How many times `phase` was charged over the whole profile: the count
    /// rather than the duration, so that a missing charge shows up as a zero
    /// on any machine.
    pub fn charges(&self, phase: StepPhase) -> (n: u32)
        ensures
            n == self.charges_spec(phase),
    {
        self.charges[phase.index()]
    }
}

/// The five phases of a profile, read phase by phase in the order of
/// [`STEP_PHASES`], are its phases; none of them took longer than all five.
pub proof fn lemma_phases_of_a_step_profile(p: StepProfile)
    requires
        p.phases_spec().len() == 5,
    ensures
        Seq::new(5, |k: int| p.phase_spec(STEP_PHASES@[k])) == p.phases_spec(),
        forall|phase: StepPhase| nanos_of(#[trigger] p.phase_spec(phase)) <= nanos_sum(p.phases_spec()),
{
    lemma_step_phases_sit_at_their_index();
    assert(Seq::new(5, |k: int| p.phase_spec(STEP_PHASES@[k])) =~= p.phases_spec());
    assert forall|phase: StepPhase| nanos_of(#[trigger] p.phase_spec(phase)) <= nanos_sum(p.phases_spec()) by {
        lemma_nanos_sum_bounds(p.phases_spec(), step_phase_index(phase));
    }
}

/// The clock readings of one step in progress: what each of the four timed
/// phases has measured so far, and how many times each has been charged.
#[derive(Debug, Clone, Copy)]
pub struct StepCharges {
    this_step: [Duration; 4],
    charges: [u32; 4],
}

impl StepCharges {
    /// Time charged so far in this step to each timed phase, by slot.
    pub closed spec fn measured_spec(&self) -> Seq<Duration> {
        self.this_step@
    }

    /// Charges made to the timed phase at each slot so far in this step.
    pub closed spec fn charges_spec(&self) -> Seq<u32> {
        self.charges@
    }

    /// Whether this step was charged as one RK4 step is: the boundary
    /// condition once for the incoming state, and every timed phase once in
    /// each of the four stages.
    pub open spec fn is_rk4_step(&self) -> bool {
        self.charges_spec() == seq![4u32, 4u32, 4u32, 5u32]
    }

    /// A step nothing has been charged to yet.
    pub fn new() -> (c: Self)
        ensures
            c.charges_spec() == seq![0u32, 0u32, 0u32, 0u32],
            c.measured_spec().len() == 4,
            nanos_sum(c.measured_spec()) == 0,
            forall|i: int| 0 <= i < 4 ==> nanos_of(#[trigger] c.measured_spec()[i]) == 0,
    {
        let c = StepCharges { this_step: [zero(), zero(), zero(), zero()], charges: [0, 0, 0, 0] };
        proof {
            lemma_nanos_sum_zero(c.this_step@);
        }
        assert(c.charges@ =~= seq![0u32, 0u32, 0u32, 0u32]);
        c
    }

    /// Whether the boundary condition may be charged `measured` more: the
    /// step's time stays within `Duration::MAX` and its count within `u32`.
    pub fn admits_boundary(&self, measured: Duration) -> (ok: bool)
        ensures
            ok == (nanos_sum(self.measured_spec()) + nanos_of(measured) <= max_duration_nanos()
                && self.charges_spec()[3] < 0xffff_ffff),
    {
        let sum = total_nanos(&self.this_step) + as_nanos(measured);
        sum <= 18446744073709551615999999999u128 && self.charges[3] < 0xffff_ffff
    }

    /// Whether one more RK4 stage may be charged `measured`: the step's time
    /// stays within `Duration::MAX` and every count within `u32`.
    pub fn admits_stage(&self, measured: &[Duration; 4]) -> (ok: bool)
        ensures
            ok == (nanos_sum(self.measured_spec()) + nanos_sum(measured@) <= max_duration_nanos()
                && forall|k: int| 0 <= k < 4 ==> #[trigger] self.charges_spec()[k] < 0xffff_ffff),
    {
        let sum = total_nanos(&self.this_step) + total_nanos(measured);
        let mut room = true;
        let mut k: usize = 0;
        while k < 4
            invariant
                0 <= k <= 4,
                self.charges@.len() == 4,
                room == forall|j: int| 0 <= j < k ==> #[trigger] self.charges@[j] < 0xffff_ffff,
            decreases 4 - k,
        {
            room = room && self.charges[k] < 0xffff_ffff;
            k = k + 1;
        }
        assert(room == forall|j: int| 0 <= j < 4 ==> #[trigger] self.charges_spec()[j] < 0xffff_ffff) by {
            if room {
                assert forall|j: int| 0 <= j < 4 implies #[trigger] self.charges_spec()[j] < 0xffff_ffff by {
                    assert(self.charges@[j] < 0xffff_ffff);
                }
            } else {
                let j = choose|j: int| 0 <= j < 4 && !(#[trigger] self.charges@[j] < 0xffff_ffff);
                assert(!(self.charges_spec()[j] < 0xffff_ffff));
            }
        }
        sum <= 18446744073709551615999999999u128 && room
    }

    /// Charge the boundary condition applied to the state the step brings in.
    pub fn incoming_boundary(&mut self, measured: Duration)
        requires
            nanos_sum(old(self).measured_spec()) + nanos_of(measured) <= max_duration_nanos(),
            old(self).charges_spec()[3] < 0xffff_ffff,
        ensures
            final(self).measured_spec() == old(self).measured_spec().update(
                step_phase_index(StepPhase::BoundaryCondition),
                final(self).measured_spec()[3],
            ),
            nanos_of(final(self).measured_spec()[3]) == nanos_of(old(self).measured_spec()[3])
                + nanos_of(measured),
            nanos_sum(final(self).measured_spec()) == nanos_sum(old(self).measured_spec())
                + nanos_of(measured),
            final(self).charges_spec() == old(self).charges_spec().update(
                3,
                (old(self).charges_spec()[3] + 1) as u32,
            ),
    {
        proof {
            lemma_nanos_sum_bounds(self.this_step@, 3);
        }
        let slot = StepPhase::BoundaryCondition.index();
        let sum = add_durations(self.this_step[slot], measured);
        proof {
            lemma_nanos_sum_update(self.this_step@, 3, sum);
        }
        self.this_step[slot] = sum;
        let count = self.charges[slot] + 1;
        self.charges[slot] = count;
    }

    /// Charge one RK4 stage: `measured[k]` is what the timed phase at slot `k`
    /// took in it, and each of the four is charged once.
    pub fn stage(&mut self, measured: [Duration; 4])
        requires
            nanos_sum(old(self).measured_spec()) + nanos_sum(measured@) <= max_duration_nanos(),
            forall|k: int| 0 <= k < 4 ==> #[trigger] old(self).charges_spec()[k] < 0xffff_ffff,
        ensures
            final(self).measured_spec().len() == 4,
            forall|k: int|
                0 <= k < 4 ==> nanos_of(#[trigger] final(self).measured_spec()[k]) == nanos_of(
                    old(self).measured_spec()[k],
                ) + nanos_of(measured@[k]),
            nanos_sum(final(self).measured_spec()) == nanos_sum(old(self).measured_spec())
                + nanos_sum(measured@),
            forall|k: int|
                0 <= k < 4 ==> #[trigger] final(self).charges_spec()[k] == old(
                    self,
                ).charges_spec()[k] + 1,
            final(self).charges_spec().len() == 4,
    {
        let ghost before = self.this_step@;
        assert forall|j: int| 0 <= j < 4 implies #[trigger] old(self).charges@[j] < 0xffff_ffff by {
            assert(old(self).charges_spec()[j] < 0xffff_ffff);
        }
        let mut k: usize = 0;
        while k < 4
            invariant
                0 <= k <= 4,
                self.this_step@.len() == 4,
                self.charges@.len() == 4,
                before.len() == 4,
                measured@.len() == 4,
                nanos_sum(before) + nanos_sum(measured@) <= max_duration_nanos(),
                forall|j: int| 0 <= j < k ==> nanos_of(#[trigger] self.this_step@[j]) == nanos_of(before[j]) + nanos_of(measured@[j]),
                forall|j: int| k <= j < 4 ==> #[trigger] self.this_step@[j] == before[j],
                forall|j: int| 0 <= j < k ==> #[trigger] self.charges@[j] == old(self).charges@[j] + 1,
                forall|j: int| k <= j < 4 ==> #[trigger] self.charges@[j] == old(self).charges@[j],
                forall|j: int| 0 <= j < 4 ==> #[trigger] old(self).charges@[j] < 0xffff_ffff,
            decreases 4 - k,
        {
            proof {
                lemma_nanos_sum_bounds(before, k as int);
                lemma_nanos_sum_bounds(measured@, k as int);
            }
            let sum = add_durations(self.this_step[k], measured[k]);
            self.this_step[k] = sum;
            let count = self.charges[k] + 1;
            self.charges[k] = count;
            k = k + 1;
        }
        proof {
            lemma_nanos_sum_pointwise(before, measured@, self.this_step@);
        }
    }
}

/// The running totals of a step profiler: what each timed phase has cost over
/// every step taken so far, how often it was charged, and the wall time of the
/// steps around them.
#[derive(Clone, Copy)]
pub struct StepTally {
    timed: [Duration; 4],
    charged: [u32; 4],
    total: Duration,
    steps: u64,
    every_step_was_rk4: Ghost<bool>,
}

impl StepTally {
    #[verifier::type_invariant]
    spec fn inv(self) -> bool {
        &&& nanos_sum(self.timed@) <= max_duration_nanos()
        &&& self.every_step_was_rk4@ ==> self.charged@ == seq![
            (4 * self.steps) as u32,
            (4 * self.steps) as u32,
            (4 * self.steps) as u32,
            (5 * self.steps) as u32,
        ] && 5 * self.steps <= 0xffff_ffff
    }

    /// Steps taken so far.
    pub closed spec fn steps_spec(&self) -> u64 {
        self.steps
    }

    /// Wall time of the steps taken so far.
    pub closed spec fn total_spec(&self) -> Duration {
        self.total
    }

    /// Time accumulated in each directly timed phase, by slot.
    pub closed spec fn timed_spec(&self) -> Seq<Duration> {
        self.timed@
    }

    /// How many times each directly timed phase has been charged, by slot.
    pub closed spec fn charged_spec(&self) -> Seq<u32> {
        self.charged@
    }

    /// Whether every step recorded so far was charged as one RK4 step is.
    pub closed spec fn every_step_was_rk4(&self) -> bool {
        self.every_step_was_rk4@
    }

    /// The tally of a profiler that has taken no step.
    pub fn new() -> (t: Self)
        ensures
            t.steps_spec() == 0,
            nanos_of(t.total_spec()) == 0,
            t.timed_spec().len() == 4,
            forall|k: int| 0 <= k < 4 ==> nanos_of(#[trigger] t.timed_spec()[k]) == 0,
            t.charged_spec() == seq![0u32, 0u32, 0u32, 0u32],
            t.every_step_was_rk4(),
    {
        let timed = [zero(), zero(), zero(), zero()];
        let charged: [u32; 4] = [0, 0, 0, 0];
        proof {
            lemma_nanos_sum_zero(timed@);
        }
        assert(charged@ =~= seq![0u32, 0u32, 0u32, 0u32]);
        let t = StepTally { timed, charged, total: zero(), steps: 0, every_step_was_rk4: Ghost(true) };
        assert(t.charged@ =~= seq![0u32, 0u32, 0u32, 0u32]);
        t
    }

    /// Whether `step`, taking `step_elapsed`, may be folded into the totals:
    /// every time stays within `Duration::MAX` and every count within its
    /// type.
    pub fn admits_step(&self, step: &StepCharges, step_elapsed: Duration) -> (ok: bool)
        ensures
            ok == (nanos_sum(self.timed_spec()) + nanos_sum(step.measured_spec()) <= max_duration_nanos()
                && nanos_of(self.total_spec()) + nanos_of(step_elapsed) <= max_duration_nanos()
                && (forall|k: int|
                0 <= k < 4 ==> self.charged_spec()[k] + step.charges_spec()[k] <= 0xffff_ffff)
                && self.steps_spec() < 0xffff_ffff_ffff_ffff),
    {
        let times = total_nanos(&self.timed) + total_nanos(&step.this_step);
        let total = as_nanos(self.total) + as_nanos(step_elapsed);
        let mut room = true;
        let mut k: usize = 0;
        while k < 4
            invariant
                0 <= k <= 4,
                self.charged@.len() == 4,
                step.charges@.len() == 4,
                room == forall|j: int| 0 <= j < k ==> self.charged@[j] + step.charges@[j] <= 0xffff_ffff,
            decreases 4 - k,
        {
            room = room && step.charges[k] <= 0xffff_ffff - self.charged[k];
            k = k + 1;
        }
        assert(room == forall|j: int|
            0 <= j < 4 ==> self.charged_spec()[j] + step.charges_spec()[j] <= 0xffff_ffff) by {
            if room {
                assert forall|j: int| 0 <= j < 4 implies self.charged_spec()[j] + step.charges_spec()[j]
                    <= 0xffff_ffff by {
                    assert(self.charged@[j] + step.charges@[j] <= 0xffff_ffff);
                }
            } else {
                let j = choose|j: int|
                    0 <= j < 4 && !(self.charged@[j] + step.charges@[j] <= 0xffff_ffff);
                assert(!(self.charged_spec()[j] + step.charges_spec()[j] <= 0xffff_ffff));
            }
        }
        times <= 18446744073709551615999999999u128 && total <= 18446744073709551615999999999u128
            && room && self.steps < 0xffff_ffff_ffff_ffff
    }

    /// Fold one finished step into the totals: `step` is what its phases
    /// measured and how often each was charged, `step_elapsed` the wall time
    /// of the whole step.
    pub fn record_step(&mut self, step: &StepCharges, step_elapsed: Duration)
        requires
            nanos_sum(old(self).timed_spec()) + nanos_sum(step.measured_spec()) <= max_duration_nanos(),
            nanos_of(old(self).total_spec()) + nanos_of(step_elapsed) <= max_duration_nanos(),
            forall|k: int| 0 <= k < 4 ==> old(self).charged_spec()[k] + step.charges_spec()[k] <= 0xffff_ffff,
            old(self).steps_spec() < 0xffff_ffff_ffff_ffff,
        ensures
            final(self).steps_spec() == old(self).steps_spec() + 1,
            nanos_of(final(self).total_spec()) == nanos_of(old(self).total_spec()) + nanos_of(step_elapsed),
            final(self).timed_spec().len() == 4,
            forall|k: int|
                0 <= k < 4 ==> nanos_of(#[trigger] final(self).timed_spec()[k]) == nanos_of(
                    old(self).timed_spec()[k],
                ) + nanos_of(step.measured_spec()[k]),
            forall|k: int|
                0 <= k < 4 ==> #[trigger] final(self).charged_spec()[k] == old(self).charged_spec()[k]
                    + step.charges_spec()[k],
            final(self).charged_spec().len() == 4,
            final(self).every_step_was_rk4() == (old(self).every_step_was_rk4() && step.is_rk4_step()),
    {
        proof {
            use_type_invariant(&*self);
        }
        let mut timed = self.timed;
        let mut charged = self.charged;
        let ghost before = timed@;
        let mut k: usize = 0;
        while k < 4
            invariant
                0 <= k <= 4,
                timed@.len() == 4,
                charged@.len() == 4,
                before == self.timed@,
                step.measured_spec().len() == 4,
                step.charges_spec().len() == 4,
                nanos_sum(before) + nanos_sum(step.measured_spec()) <= max_duration_nanos(),
                forall|j: int| 0 <= j < k ==> nanos_of(#[trigger] timed@[j]) == nanos_of(before[j]) + nanos_of(step.measured_spec()[j]),
                forall|j: int| k <= j < 4 ==> #[trigger] timed@[j] == before[j],
                forall|j: int| 0 <= j < k ==> #[trigger] charged@[j] == self.charged@[j] + step.charges_spec()[j],
                forall|j: int| k <= j < 4 ==> #[trigger] charged@[j] == self.charged@[j],
                forall|j: int| 0 <= j < 4 ==> self.charged@[j] + step.charges_spec()[j] <= 0xffff_ffff,
            decreases 4 - k,
        {
            proof {
                lemma_nanos_sum_bounds(before, k as int);
                lemma_nanos_sum_bounds(step.measured_spec(), k as int);
            }
            let sum = add_durations(timed[k], step.this_step[k]);
            timed[k] = sum;
            let count = charged[k] + step.charges[k];
            charged[k] = count;
            k = k + 1;
        }
        proof {
            lemma_nanos_sum_pointwise(before, step.measured_spec(), timed@);
        }
        let total = add_durations(self.total, step_elapsed);
        let ghost all_rk4 = self.every_step_was_rk4@ && step.is_rk4_step();
        let steps = self.steps + 1;
        proof {
            if all_rk4 {
                assert(charged@ =~= seq![
                    (4 * steps) as u32,
                    (4 * steps) as u32,
                    (4 * steps) as u32,
                    (5 * steps) as u32,
                ]);
            }
        }
        *self = StepTally { timed, charged, total, steps, every_step_was_rk4: Ghost(all_rk4) };
    }

    /// What has been measured so far, as a profile of the five phases.
    ///
    /// The four timed phases are what was charged to them; the stage algebra
    /// is the residual of the steps' wall time less those four, saturating at
    /// zero where the named phases measured longer than the steps around them.
    /// It is charged once per step, being the one thing a step computes rather
    /// than measures.
    pub fn profile_so_far(&self) -> (p: StepProfile)
        ensures
            p.steps_spec() == self.steps_spec(),
            p.total_spec() == self.total_spec(),
            forall|k: int|
                0 <= k < 4 ==> #[trigger] p.phase_spec(STEP_PHASES@[k]) == self.timed_spec()[k],
            forall|k: int|
                0 <= k < 4 ==> #[trigger] p.charges_spec(STEP_PHASES@[k]) == self.charged_spec()[k],
            p.charges_spec(StepPhase::StageAlgebra) == if self.steps_spec() <= 0xffff_ffff {
                self.steps_spec() as int
            } else {
                0xffff_ffff
            },
            nanos_of(p.phase_spec(StepPhase::StageAlgebra)) == if nanos_of(self.total_spec())
                >= nanos_sum(self.timed_spec()) {
                nanos_of(self.total_spec()) - nanos_sum(self.timed_spec())
            } else {
                0
            },
            // The five phases divide the measured steps: they sum to the steps'
            // wall time, unless the named four alone measured longer.
            p.phases_spec().len() == 5,
            nanos_sum(p.phases_spec()) == if nanos_of(self.total_spec()) >= nanos_sum(
                self.timed_spec(),
            ) {
                nanos_of(self.total_spec()) as int
            } else {
                nanos_sum(self.timed_spec())
            },
            // Every phase is charged: the evaluator phases once per RK4 stage,
            // the boundary condition once more per step, the stage algebra once
            // per step.
            self.every_step_was_rk4() ==> {
                &&& p.charges_spec(StepPhase::WindStressSampling) == 4 * self.steps_spec()
                &&& p.charges_spec(StepPhase::ShallowWaterTerms) == 4 * self.steps_spec()
                &&& p.charges_spec(StepPhase::Coriolis) == 4 * self.steps_spec()
                &&& p.charges_spec(StepPhase::BoundaryCondition) == 5 * self.steps_spec()
                &&& p.charges_spec(StepPhase::StageAlgebra) == self.steps_spec()
            },
    {
        proof {
            use_type_invariant(self);
        }
        let mut named = zero();
        let mut k: usize = 0;
        while k < 4
            invariant
                0 <= k <= 4,
                self.timed@.len() == 4,
                nanos_sum(self.timed@) <= max_duration_nanos(),
                nanos_of(named) == nanos_sum(self.timed@.take(k as int)),
            decreases 4 - k,
        {
            proof {
                lemma_nanos_sum_bounds(self.timed@, k as int);
                lemma_nanos_sum_bounds(self.timed@, k as int + 1);
            }
            named = add_durations(named, self.timed[k]);
            k = k + 1;
        }
        assert(self.timed@.take(4) =~= self.timed@);
        let stage_charges: u32 = if self.steps <= 0xffff_ffffu64 {
            self.steps as u32
        } else {
            0xffff_ffffu32
        };
        let residual = saturating_sub(self.total, named);
        let phases = [self.timed[0], self.timed[1], self.timed[2], self.timed[3], residual];
        assert(phases@.drop_last() =~= self.timed@);
        StepProfile {
            steps: self.steps,
            total: self.total,
            phases,
            charges: [self.charged[0], self.charged[1], self.charged[2], self.charged[3], stage_charges],
        }
    }
}


/// What a run of the term profiler measured: how the time inside the two
/// evaluators divided among the [`RHS_TERMS`].
#[derive(Debug, Clone, Copy, PartialEq)]
pub struct TermProfile {
    evaluations: u64,
    terms: [Duration; 14],
    charges: [u32; 14],
}

impl TermProfile {
    #[verifier::type_invariant]
    spec fn inv(self) -> bool {
        &&& nanos_sum(self.terms@) <= max_duration_nanos()
        &&& forall|k: int| 0 <= k < 14 ==> #[trigger] self.charges@[k] == self.evaluations
    }

    /// Evaluations this profile covers.
    pub closed spec fn evaluations_spec(&self) -> u64 {
        self.evaluations
    }

    /// Time spent in each term, in the order of [`RHS_TERMS`].
    pub closed spec fn terms_spec(&self) -> Seq<Duration> {
        self.terms@
    }

    /// Time spent in `term` across the whole profile: its slot of
    /// [`TermProfile::terms_spec`].
    pub open spec fn term_spec(&self, term: RhsTerm) -> Duration {
        self.terms_spec()[rhs_term_index(term)]
    }

    /// How many times each term was charged, in the order of [`RHS_TERMS`].
    pub closed spec fn charges_seq_spec(&self) -> Seq<u32> {
        self.charges@
    }

    /// How many times `term` was charged over the whole profile: its slot of
    /// [`TermProfile::charges_seq_spec`].
    pub open spec fn charges_spec(&self, term: RhsTerm) -> u32 {
        self.charges_seq_spec()[rhs_term_index(term)]
    }

    /// Evaluations this profile covers.
    pub fn evaluations(&self) -> (n: u64)
        ensures
            n == self.evaluations_spec(),
    {
        self.evaluations
    }

    /// Time spent in `term` across the whole profile.
    pub fn term(&self, term: RhsTerm) -> (d: Duration)
        ensures
            d == self.term_spec(term),
            self.terms_spec().len() == 14,
    {
        self.terms[term.index()]
    }

    /// Mean time one evaluation spent in `term`.
    pub fn per_evaluation(&self, term: RhsTerm) -> (d: Duration)
        ensures
            nanos_of(d) == mean_nanos(nanos_of(self.term_spec(term)) as int, self.evaluations_spec()),
    {
        mean_over(self.term(term), self.evaluations)
    }

    /// Mean time one evaluation spent in every term together.
    pub fn per_evaluation_total(&self) -> (d: Duration)
        ensures
            nanos_of(d) == mean_nanos(nanos_sum(self.terms_spec()), self.evaluations_spec()),
    {
        mean_over(self.total(), self.evaluations)
    }

    /// How many times `term` was charged over the whole profile: once per
    /// evaluation, for every term.
    pub fn charges(&self, term: RhsTerm) -> (n: u32)
        ensures
            n == self.charges_spec(term),
            n == self.evaluations_spec(),
    {
        proof {
            use_type_invariant(self);
        }
        self.charges[term.index()]
    }

    /// Time spent in every term together.
    pub fn total(&self) -> (d: Duration)
        ensures
            nanos_of(d) == nanos_sum(self.terms_spec()),
            self.terms_spec().len() == 14,
    {
        proof {
            use_type_invariant(self);
        }
        let mut total = zero();
        let mut k: usize = 0;
        while k < 14
            invariant
                0 <= k <= 14,
                self.terms@.len() == 14,
                nanos_sum(self.terms@) <= max_duration_nanos(),
                nanos_of(total) == nanos_sum(self.terms@.take(k as int)),
            decreases 14 - k,
        {
            proof {
                lemma_nanos_sum_bounds(self.terms@, k as int);
                lemma_nanos_sum_bounds(self.terms@, k as int + 1);
            }
            total = add_durations(total, self.terms[k]);
            k = k + 1;
        }
        assert(self.terms@.take(14) =~= self.terms@);
        total
    }
}

/// The time spent in every term together is the time spent in each of the
/// [`RHS_TERMS`], added up, and so no term took longer than all of them.
pub proof fn lemma_terms_add_up_to_total(p: TermProfile)
    requires
        p.terms_spec().len() == 14,
    ensures
        Seq::new(14, |k: int| p.term_spec(RHS_TERMS@[k])) == p.terms_spec(),
        nanos_sum(Seq::new(14, |k: int| p.term_spec(RHS_TERMS@[k]))) == nanos_sum(p.terms_spec()),
        forall|t: RhsTerm| nanos_of(#[trigger] p.term_spec(t)) <= nanos_sum(p.terms_spec()),
{
    lemma_rhs_terms_sit_at_their_index();
    assert(Seq::new(14, |k: int| p.term_spec(RHS_TERMS@[k])) =~= p.terms_spec());
    assert forall|t: RhsTerm| nanos_of(#[trigger] p.term_spec(t)) <= nanos_sum(p.terms_spec()) by {
        lemma_nanos_sum_bounds(p.terms_spec(), rhs_term_index(t));
    }
}

/// The running totals of a term profiler: what each of the fourteen kernels
/// has cost over every evaluation so far, and how often it was charged.
#[derive(Debug, Clone, Copy)]
pub struct TermTally {
    terms: [Duration; 14],
    charges: [u32; 14],
    evaluations: u64,
}

impl TermTally {
    #[verifier::type_invariant]
    spec fn inv(self) -> bool {
        &&& nanos_sum(self.terms@) <= max_duration_nanos()
        &&& forall|k: int| 0 <= k < 14 ==> #[trigger] self.charges@[k] == self.evaluations
    }

    /// Evaluations performed so far.
    pub closed spec fn evaluations_spec(&self) -> u64 {
        self.evaluations
    }

    /// Time accumulated in each term so far, in the order of [`RHS_TERMS`].
    pub closed spec fn terms_spec(&self) -> Seq<Duration> {
        self.terms@
    }

    /// The tally of a profiler that has evaluated nothing.
    pub fn new() -> (t: Self)
        ensures
            t.evaluations_spec() == 0,
            t.terms_spec().len() == 14,
            forall|k: int| 0 <= k < 14 ==> nanos_of(#[trigger] t.terms_spec()[k]) == 0,
    {
        let z = zero();
        let terms = [z, z, z, z, z, z, z, z, z, z, z, z, z, z];
        let charges: [u32; 14] = [0, 0, 0, 0, 0, 0, 0, 0, 0, 0, 0, 0, 0, 0];
        proof {
            lemma_nanos_sum_zero(terms@);
        }
        TermTally { terms, charges, evaluations: 0 }
    }

    /// Whether one more evaluation measuring `measured` may be folded into
    /// the totals: the terms' time stays within `Duration::MAX` and the
    /// charges within `u32`.
    pub fn admits_evaluation(&self, measured: &[Duration; 14]) -> (ok: bool)
        ensures
            ok == (nanos_sum(self.terms_spec()) + nanos_sum(measured@) <= max_duration_nanos()
                && self.evaluations_spec() < 0xffff_ffff),
    {
        let sum = total_nanos(&self.terms) + total_nanos(measured);
        sum <= 18446744073709551615999999999u128 && self.evaluations < 0xffff_ffff
    }

    /// Fold one evaluation into the totals: `measured[k]` is what the term at
    /// slot `k` of [`RHS_TERMS`] took, and every term is charged once.
    pub fn record_evaluation(&mut self, measured: [Duration; 14])
        requires
            nanos_sum(old(self).terms_spec()) + nanos_sum(measured@) <= max_duration_nanos(),
            old(self).evaluations_spec() < 0xffff_ffff,
        ensures
            final(self).evaluations_spec() == old(self).evaluations_spec() + 1,
            final(self).terms_spec().len() == 14,
            forall|k: int|
                0 <= k < 14 ==> nanos_of(#[trigger] final(self).terms_spec()[k]) == nanos_of(
                    old(self).terms_spec()[k],
                ) + nanos_of(measured@[k]),
    {
        proof {
            use_type_invariant(&*self);
        }
        let mut terms = self.terms;
        let mut charges = self.charges;
        let ghost before = terms@;
        let mut k: usize = 0;
        while k < 14
            invariant
                0 <= k <= 14,
                terms@.len() == 14,
                charges@.len() == 14,
                before == self.terms@,
                measured@.len() == 14,
                nanos_sum(before) + nanos_sum(measured@) <= max_duration_nanos(),
                self.evaluations < 0xffff_ffff,
                forall|j: int| 0 <= j < k ==> nanos_of(#[trigger] terms@[j]) == nanos_of(before[j]) + nanos_of(measured@[j]),
                forall|j: int| k <= j < 14 ==> #[trigger] terms@[j] == before[j],
                forall|j: int| 0 <= j < k ==> #[trigger] charges@[j] == self.evaluations + 1,
                forall|j: int| k <= j < 14 ==> #[trigger] charges@[j] == self.evaluations,
            decreases 14 - k,
        {
            proof {
                lemma_nanos_sum_bounds(before, k as int);
                lemma_nanos_sum_bounds(measured@, k as int);
            }
            let sum = add_durations(terms[k], measured[k]);
            terms[k] = sum;
            let count = charges[k] + 1;
            charges[k] = count;
            k = k + 1;
        }
        proof {
            lemma_nanos_sum_pointwise(before, measured@, terms@);
        }
        *self = TermTally { terms, charges, evaluations: self.evaluations + 1 };
    }

    /// What has been measured so far.
    pub fn profile(&self) -> (p: TermProfile)
        ensures
            p.evaluations_spec() == self.evaluations_spec(),
            p.terms_spec() == self.terms_spec(),
            p.terms_spec().len() == 14,
    {
        proof {
            use_type_invariant(self);
        }
        TermProfile { evaluations: self.evaluations, terms: self.terms, charges: self.charges }
    }
}

/// The cost of one clock reading, measured by taking `reads` of them back to
/// back after one discarded pass of as many, so that a cold process's ramp
/// is not what is measured.
///
/// What it measures is the machine's, so the promise is only what holds of
/// any measurement: a duration divided `reads` ways.
pub fn clock_read_cost(reads: u32) -> (cost: Duration)
    requires
        reads > 0,
    ensures
        nanos_of(cost) <= max_duration_nanos() / (reads as int),
{
    for _k in 0..reads {
        keep_reading(now());
    }
    let started = now();
    for _k in 0..reads {
        keep_reading(now());
    }
    let spent = elapsed(&started);
    let cost = mean_over(spent, reads as u64);
    proof {
        vstd::arithmetic::div_mod::lemma_div_is_ordered(nanos_of(spent) as int, max_duration_nanos(), reads as int);
    }
    cost
}

} // verus!
