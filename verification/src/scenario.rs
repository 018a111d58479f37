//! The one bound a scenario is held to that no single constructor can see:
//! whether a run over its grid fits in memory.
//!
//! A well-formed basin can still ask for more cells than the machine has
//! memory for, and the engine says so before it starts allocating rather than
//! letting the allocator end the run partway through it.

use vstd::prelude::*;

verus! {

/// Bytes in a gibibyte.
pub const BYTES_PER_GIB: u64 = 1073741824;

/// Bytes of solver state a run holds resident per grid cell: the state and
/// RK4's five stage buffers are six states of three fields each, and the two
/// wind stress fields carry two components apiece — 22 `f64` a cell, rounded
/// up to 24 for the extra row and column the staggered velocities carry.
pub const RESIDENT_BYTES_PER_CELL: u64 = 24 * 8;

/// Bytes of solver state a run with the SST coupling holds resident per grid
/// cell: the linear core's, plus the SST anomaly in the state and the five
/// stage buffers, the eight fields of the SST term and the two components of
/// the extra stress field a coupled forcing sums into — 16 more `f64`, rounded
/// up to 20.
pub const COUPLED_RESIDENT_BYTES_PER_CELL: u64 = RESIDENT_BYTES_PER_CELL + 20 * 8;

/// The largest resident solver state this build will start a run with.
pub const MAX_RESIDENT_STATE_BYTES: u64 = 2 * BYTES_PER_GIB;

/// `a · b`, or `u64::MAX` where the product does not fit.
pub open spec fn saturating_product(a: int, b: int) -> int {
    if a * b > u64::MAX { u64::MAX as int } else { a * b }
}

/// Bytes of solver state a run over an `nx` × `ny` grid holds resident, as
/// counted in `u64` with saturation.
pub open spec fn resident_bytes(nx: int, ny: int, couples_sst: bool) -> int {
    saturating_product(
        saturating_product(nx, ny),
        if couples_sst { COUPLED_RESIDENT_BYTES_PER_CELL as int } else { RESIDENT_BYTES_PER_CELL as int },
    )
}

/// `a · b` in `u64`, saturating at `u64::MAX` rather than wrapping.
pub fn saturating_mul(a: u64, b: u64) -> (p: u64)
    ensures
        p == saturating_product(a as int, b as int),
{
    if a == 0 {
        proof {
            assert(a * b == 0);
        }
        return 0;
    }
    if b <= u64::MAX / a {
        proof {
            vstd::arithmetic::mul::lemma_mul_inequality(b as int, (u64::MAX / a) as int, a as int);
            vstd::arithmetic::div_mod::lemma_fundamental_div_mod(u64::MAX as int, a as int);
            assert(a * b == b * a) by (nonlinear_arith);
            assert((u64::MAX / a) * a <= u64::MAX) by (nonlinear_arith)
                requires
                    a > 0,
                    u64::MAX == a * (u64::MAX / a) + u64::MAX % a,
                    u64::MAX % a >= 0,
            ;
        }
        a * b
    } else {
        proof {
            assert(b >= u64::MAX / a + 1);
            vstd::arithmetic::div_mod::lemma_fundamental_div_mod(u64::MAX as int, a as int);
            assert(a * b >= a * (u64::MAX / a + 1)) by (nonlinear_arith)
                requires
                    b >= u64::MAX / a + 1,
                    a > 0,
            ;
            assert(a * (u64::MAX / a + 1) > u64::MAX) by (nonlinear_arith)
                requires
                    a > 0,
                    u64::MAX == a * (u64::MAX / a) + u64::MAX % a,
                    u64::MAX % a < a,
            ;
        }
        u64::MAX
    }
}

/// `[basin]` described a grid too fine for the engine to hold a run on.
#[derive(Debug, Clone, Copy, PartialEq, Eq, Structural)]
pub struct BasinTooLarge {
    /// Cells east–west.
    pub nx: usize,
    /// Cells north–south.
    pub ny: usize,
    /// Bytes of solver state a run over this grid would hold resident.
    pub resident_bytes: u64,
}

/// Refuse an `nx` × `ny` grid whose run would not fit in
/// [`MAX_RESIDENT_STATE_BYTES`]. The count saturates rather than wrapping,
/// so a grid far past the budget is refused for being past it rather than
/// accepted for having overflowed.
pub fn check_grid_fits_in_memory(nx: usize, ny: usize, couples_sst: bool) -> (r: Result<(), BasinTooLarge>)
    ensures
        r is Ok <==> resident_bytes(nx as int, ny as int, couples_sst) <= MAX_RESIDENT_STATE_BYTES,
        r matches Err(e) ==> e == (BasinTooLarge {
            nx,
            ny,
            resident_bytes: resident_bytes(nx as int, ny as int, couples_sst) as u64,
        }),
{
    let cells = saturating_mul(nx as u64, ny as u64);
    let per_cell = if couples_sst {
        COUPLED_RESIDENT_BYTES_PER_CELL
    } else {
        RESIDENT_BYTES_PER_CELL
    };
    let resident_bytes = saturating_mul(cells, per_cell);
    if resident_bytes > MAX_RESIDENT_STATE_BYTES {
        return Err(BasinTooLarge { nx, ny, resident_bytes });
    }
    Ok(())
}


/// A grid that fits still fits with fewer cells on either axis, and a grid
/// whose coupled run fits also fits uncoupled: the budget only ever refuses
/// more cells, or more fields a cell.
pub proof fn lemma_budget_is_monotonic(nx: nat, ny: nat, smaller_nx: nat, smaller_ny: nat, couples_sst: bool)
    requires
        smaller_nx <= nx,
        smaller_ny <= ny,
        resident_bytes(nx as int, ny as int, couples_sst) <= MAX_RESIDENT_STATE_BYTES,
    ensures
        resident_bytes(smaller_nx as int, smaller_ny as int, couples_sst) <= MAX_RESIDENT_STATE_BYTES,
        resident_bytes(smaller_nx as int, smaller_ny as int, false) <= MAX_RESIDENT_STATE_BYTES,
{
    assert(smaller_nx * smaller_ny <= nx * ny) by (nonlinear_arith)
        requires
            smaller_nx <= nx,
            smaller_ny <= ny,
    ;
    let cells = saturating_product(nx as int, ny as int);
    let fewer = saturating_product(smaller_nx as int, smaller_ny as int);
    assert(0 <= fewer <= cells);
    let per_cell = if couples_sst { COUPLED_RESIDENT_BYTES_PER_CELL as int } else { RESIDENT_BYTES_PER_CELL as int };
    assert(fewer * per_cell <= cells * per_cell) by (nonlinear_arith)
        requires
            0 <= fewer <= cells,
            per_cell >= 0,
    ;
    assert(fewer * (RESIDENT_BYTES_PER_CELL as int) <= fewer * per_cell) by (nonlinear_arith)
        requires
            fewer >= 0,
            per_cell >= RESIDENT_BYTES_PER_CELL,
    ;
}

} // verus!
