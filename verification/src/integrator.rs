//! The classic 4th-order Runge-Kutta integrator's scratch space.
//!
//! One `Rk4` is built per run from a prototype state and reused for every
//! step, so a whole simulation allocates the four stage buffers and the stage
//! state exactly once. The stepping itself is arithmetic over the reals and
//! stands beside this crate; what is here is the integrator's shape.

use vstd::prelude::*;

verus! {

/// The classic 4th-order Runge-Kutta integrator's stage buffers.
///
/// It carries no time and no state of its own: the caller owns the state, `t`
/// and `dt`. The buffers are public because the step that writes them is
/// written against this type from outside it.
#[derive(Debug, Clone)]
pub struct Rk4<S> {
    /// The tendency at the start of the step.
    pub k1: S,
    /// The tendency at the first midpoint stage.
    pub k2: S,
    /// The tendency at the second midpoint stage.
    pub k3: S,
    /// The tendency at the end of the step.
    pub k4: S,
    /// The state a stage is evaluated at.
    pub stage: S,
}

impl<S: Clone> Rk4<S> {
    /// An integrator sized for states shaped like `prototype`: each of the
    /// five buffers is a clone of it, and only its shape matters.
    pub fn new(prototype: &S) -> (rk4: Self)
        ensures
            cloned(*prototype, rk4.k1),
            cloned(*prototype, rk4.k2),
            cloned(*prototype, rk4.k3),
            cloned(*prototype, rk4.k4),
            cloned(*prototype, rk4.stage),
    {
        Rk4 {
            k1: prototype.clone(),
            k2: prototype.clone(),
            k3: prototype.clone(),
            k4: prototype.clone(),
            stage: prototype.clone(),
        }
    }
}

} // verus!
