use engine::cli::Reporting;
use engine::integrator::Rk4;
use engine::precision::{StorageWidth, FIELD_STORAGE};
use engine::progress::Verbosity;
use engine::scenario::{check_grid_fits_in_memory, saturating_mul, BasinTooLarge};
use engine::state::carries;

#[test]
fn the_default_pacific_fits_coupled_or_not() {
    assert_eq!(check_grid_fits_in_memory(320, 100, false), Ok(()));
    assert_eq!(check_grid_fits_in_memory(320, 100, true), Ok(()));
}

#[test]
fn the_budget_admits_eleven_point_two_million_cells() {
    // 2 GiB at 192 bytes a cell.
    assert_eq!(check_grid_fits_in_memory(11_184_810, 1, false), Ok(()));
    assert_eq!(
        check_grid_fits_in_memory(11_184_811, 1, false),
        Err(BasinTooLarge { nx: 11_184_811, ny: 1, resident_bytes: 11_184_811 * 192 })
    );
    // The coupled run holds 352 bytes a cell.
    assert!(check_grid_fits_in_memory(11_184_810, 1, true).is_err());
}

#[test]
fn a_grid_past_u64_is_refused_rather_than_wrapped() {
    assert_eq!(saturating_mul(u64::MAX, 2), u64::MAX);
    assert_eq!(saturating_mul(0, u64::MAX), 0);
    assert_eq!(saturating_mul(3, 7), 21);
    let huge = usize::MAX;
    assert_eq!(
        check_grid_fits_in_memory(huge, huge, false),
        Err(BasinTooLarge { nx: huge, ny: huge, resident_bytes: u64::MAX })
    );
}

#[test]
fn states_are_described_by_whether_they_carry_the_sst() {
    assert_eq!(carries(true), "carries");
    assert_eq!(carries(false), "does not carry");
}

#[test]
fn the_flags_pick_the_verbosity() {
    let quiet = Reporting { quiet: true, verbose: false };
    let verbose = Reporting { quiet: false, verbose: true };
    let neither = Reporting { quiet: false, verbose: false };
    assert_eq!(quiet.verbosity(), Verbosity::Quiet);
    assert_eq!(verbose.verbosity(), Verbosity::Verbose);
    assert_eq!(neither.verbosity(), Verbosity::Normal);
}

#[test]
fn the_engine_ships_at_double_width() {
    assert_eq!(FIELD_STORAGE, StorageWidth::F64);
}

#[test]
fn an_integrator_is_shaped_like_its_prototype() {
    let rk4 = Rk4::new(&vec![0_u8; 3]);
    assert_eq!(rk4.k1.len(), 3);
    assert_eq!(rk4.k4, vec![0, 0, 0]);
    assert_eq!(rk4.stage.len(), 3);
}
