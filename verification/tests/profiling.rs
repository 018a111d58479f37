use std::time::Duration;

use engine::profiling::{
    clock_read_cost, mean_over, RhsTerm, StepCharges, StepPhase, StepTally, TermTally,
    CLOCK_READS_PER_STEP, RHS_TERMS, STEP_PHASES,
};

#[test]
fn a_profiled_step_reads_the_clock_twenty_four_times() {
    assert_eq!(CLOCK_READS_PER_STEP, 24);
}

#[test]
fn every_phase_sits_at_its_own_index_in_the_phase_list() {
    for (position, phase) in STEP_PHASES.into_iter().enumerate() {
        assert_eq!(phase.index(), position, "{phase:?} is listed out of order");
    }
}

#[test]
fn every_term_sits_at_its_own_index_in_the_term_list() {
    for (position, term) in RHS_TERMS.into_iter().enumerate() {
        assert_eq!(term.index(), position, "{term:?} is listed out of order");
    }
}

#[test]
fn phases_and_terms_name_themselves() {
    assert_eq!(StepPhase::WindStressSampling.label(), "wind stress sampling");
    assert_eq!(StepPhase::StageAlgebra.label(), "rk4 stage algebra");
    assert_eq!(RhsTerm::Continuity.label(), "-H.(du/dx + dv/dy)");
    assert_eq!(RhsTerm::ZonalRotation.label(), "+f.v");
}

#[test]
fn the_rotation_kernels_are_the_coriolis_phase() {
    let coriolis: Vec<RhsTerm> = RHS_TERMS
        .into_iter()
        .filter(|term| term.phase() == StepPhase::Coriolis)
        .collect();
    assert_eq!(
        coriolis,
        vec![
            RhsTerm::MeridionalVelocityOntoZonalFaces,
            RhsTerm::ZonalVelocityOntoMeridionalFaces,
            RhsTerm::ZonalRotation,
            RhsTerm::MeridionalRotation,
        ]
    );
    assert_eq!(RhsTerm::ZonalPressureGradient.phase(), StepPhase::ShallowWaterTerms);
}

#[test]
fn a_mean_divides_to_the_nanosecond_and_is_zero_over_nothing() {
    assert_eq!(mean_over(Duration::from_nanos(10), 3), Duration::from_nanos(3));
    assert_eq!(mean_over(Duration::from_secs(4), 0), Duration::ZERO);
    assert_eq!(
        mean_over(Duration::from_nanos(u64::from(u32::MAX) * 2), u64::MAX),
        Duration::from_nanos(2)
    );
}

fn one_rk4_step(boundary_ms: u64, stage_ms: [u64; 4]) -> StepCharges {
    let mut step = StepCharges::new();
    step.incoming_boundary(Duration::from_millis(boundary_ms));
    for _ in 0..4 {
        step.stage(stage_ms.map(Duration::from_millis));
    }
    step
}

#[test]
fn every_phase_of_a_step_is_charged_and_the_residual_is_the_stage_algebra() {
    let mut tally = StepTally::new();
    tally.record_step(&one_rk4_step(1, [1, 2, 3, 1]), Duration::from_millis(40));
    tally.record_step(&one_rk4_step(1, [1, 2, 3, 1]), Duration::from_millis(40));
    let profile = tally.profile_so_far();

    assert_eq!(profile.steps(), 2);
    assert_eq!(profile.total(), Duration::from_millis(80));
    assert_eq!(profile.charges(StepPhase::WindStressSampling), 8);
    assert_eq!(profile.charges(StepPhase::ShallowWaterTerms), 8);
    assert_eq!(profile.charges(StepPhase::Coriolis), 8);
    assert_eq!(profile.charges(StepPhase::BoundaryCondition), 10);
    assert_eq!(profile.charges(StepPhase::StageAlgebra), 2);

    assert_eq!(profile.phase(StepPhase::WindStressSampling), Duration::from_millis(8));
    assert_eq!(profile.phase(StepPhase::ShallowWaterTerms), Duration::from_millis(16));
    assert_eq!(profile.phase(StepPhase::Coriolis), Duration::from_millis(24));
    assert_eq!(profile.phase(StepPhase::BoundaryCondition), Duration::from_millis(10));
    // 80 ms of steps less the 58 ms the named phases took.
    assert_eq!(profile.phase(StepPhase::StageAlgebra), Duration::from_millis(22));
    let summed: Duration = STEP_PHASES.into_iter().map(|phase| profile.phase(phase)).sum();
    assert_eq!(summed, profile.total());

    assert_eq!(profile.per_step(), Duration::from_millis(40));
    assert_eq!(profile.per_step_in(StepPhase::Coriolis), Duration::from_millis(12));
}

#[test]
fn a_residual_below_the_clock_resolution_is_zero_rather_than_negative() {
    let mut tally = StepTally::new();
    tally.record_step(&one_rk4_step(5, [5, 5, 5, 5]), Duration::from_millis(10));
    let profile = tally.profile_so_far();
    assert_eq!(profile.phase(StepPhase::StageAlgebra), Duration::ZERO);
}

#[test]
fn an_empty_profile_has_no_steps_and_no_mean() {
    let profile = StepTally::new().profile_so_far();
    assert_eq!(profile.steps(), 0);
    assert_eq!(profile.per_step(), Duration::ZERO);
    assert_eq!(profile.charges(StepPhase::StageAlgebra), 0);
}

#[test]
fn every_term_is_charged_once_per_evaluation() {
    let mut tally = TermTally::new();
    let mut measured = [Duration::ZERO; 14];
    for (k, slot) in measured.iter_mut().enumerate() {
        *slot = Duration::from_micros(k as u64 + 1);
    }
    tally.record_evaluation(measured);
    tally.record_evaluation(measured);
    tally.record_evaluation(measured);
    let profile = tally.profile();

    assert_eq!(profile.evaluations(), 3);
    for term in RHS_TERMS {
        assert_eq!(profile.charges(term), 3);
    }
    assert_eq!(profile.term(RhsTerm::ZonalPressureGradient), Duration::from_micros(3));
    assert_eq!(profile.term(RhsTerm::MeridionalRotation), Duration::from_micros(42));
    assert_eq!(profile.per_evaluation(RhsTerm::MeridionalRotation), Duration::from_micros(14));
    // 1 + 2 + … + 14 = 105 µs an evaluation.
    assert_eq!(profile.total(), Duration::from_micros(315));
    assert_eq!(profile.per_evaluation_total(), Duration::from_micros(105));
}

#[test]
fn a_clock_read_costs_a_measurable_duration() {
    let cost = clock_read_cost(1000);
    assert!(cost < Duration::from_millis(10));
}

#[test]
fn a_tally_admits_what_fits_and_refuses_what_would_overflow() {
    let mut step = StepCharges::new();
    assert!(step.admits_boundary(Duration::from_millis(1)));
    assert!(step.admits_boundary(Duration::MAX));
    step.incoming_boundary(Duration::MAX);
    assert!(!step.admits_boundary(Duration::from_nanos(1)));
    assert!(step.admits_boundary(Duration::ZERO));
    assert!(!step.admits_stage(&[Duration::ZERO, Duration::ZERO, Duration::ZERO, Duration::from_nanos(1)]));

    let tally = StepTally::new();
    let small = one_rk4_step(1, [1, 1, 1, 1]);
    assert!(tally.admits_step(&small, Duration::from_millis(10)));
    assert!(tally.admits_step(&step, Duration::from_millis(10)));
    let mut full = StepTally::new();
    full.record_step(&step, Duration::MAX);
    assert!(!full.admits_step(&small, Duration::ZERO));
    assert!(!full.admits_step(&StepCharges::new(), Duration::from_nanos(1)));
    assert!(full.admits_step(&StepCharges::new(), Duration::ZERO));

    let terms = TermTally::new();
    assert!(terms.admits_evaluation(&[Duration::from_secs(1); 14]));
    let mut huge = [Duration::ZERO; 14];
    huge[0] = Duration::MAX;
    huge[1] = Duration::from_nanos(1);
    assert!(!terms.admits_evaluation(&huge));
}

#[test]
fn the_terms_of_a_profile_add_up_to_its_total() {
    let mut tally = TermTally::new();
    let mut measured = [Duration::ZERO; 14];
    for (k, slot) in measured.iter_mut().enumerate() {
        *slot = Duration::from_nanos(10 * k as u64 + 7);
    }
    tally.record_evaluation(measured);
    let profile = tally.profile();
    let summed: Duration = RHS_TERMS.into_iter().map(|term| profile.term(term)).sum();
    assert_eq!(summed, profile.total());
    for term in RHS_TERMS {
        assert!(profile.term(term) <= profile.total());
    }
}
