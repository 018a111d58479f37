//! The control logic of the Pacific thermocline engine, verified with Verus.
//!
//! The physics of the engine is floating-point throughout and lives beside
//! this crate; what stands here is the bookkeeping that decides *when* and
//! *how often* things happen in a run: which steps are saved, how many frames
//! a run promises and delivers, how a timing profile adds up, how loudly a run
//! reports itself, and whether a grid fits in memory.

pub mod cli;
pub mod clock;
pub mod integrator;
pub mod precision;
pub mod profiling;
pub mod progress;
pub mod run;
pub mod run_loop;
pub mod run_writer;
pub mod scenario;
pub mod state;
