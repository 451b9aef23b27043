//! The explicit (forward) Euler scheme.
use num_complex::Complex;
use vstd::prelude::*;

use crate::stability::{amplification_of, Amplification, Scheme};
use crate::traits::{Dynamics, IntegrableState, Stepper};

verus! {

/// The explicit (forward) Euler stepper: `x' = x + dt · f(t, x, u)`.
///
/// A step requires `dt` to be a valid step size (positive and finite).
#[derive(Clone, Copy, Debug, Default)]
pub struct ForwardEuler;

impl<M: Dynamics> Stepper<M> for ForwardEuler {
    open spec fn step_spec(
        &self,
        model: &M,
        t: <M::State as IntegrableState>::Scalar,
        state: &M::State,
        control: &M::Control,
        dt: <M::State as IntegrableState>::Scalar,
    ) -> M::State {
        state.add_scaled_spec(&model.derivative_spec(t, state, control), dt)
    }

    /// `state + dt · f(t, state, control)`.
    fn step(
        &mut self,
        model: &M,
        t: <M::State as IntegrableState>::Scalar,
        state: &M::State,
        control: &M::Control,
        dt: <M::State as IntegrableState>::Scalar,
    ) -> (r: M::State) {
        let dx = model.derivative(t, state, control);
        state.add_scaled(&dx, dt)
    }
}

impl ForwardEuler {
    /// The stability function `R(z) = 1 + z` of explicit Euler.
    pub fn stability(z: Complex<i32>, den: u32) -> (r: Amplification)
        requires
            den > 0,
        ensures
            r == amplification_of(Scheme::ExplicitEuler, z, den),
    {
        Scheme::ExplicitEuler.stability(z, den)
    }
}

} // verus!
