//! The classic four-stage Runge-Kutta scheme.
use vstd::prelude::*;

use crate::traits::{Dynamics, IntegrableState, Stepper};

verus! {

/// Classic fixed-step Runge-Kutta 4 integrator.
#[derive(Clone, Copy, Debug, Default)]
pub struct Rk4;

/// One RK4 step: `k1` at `t`; `k2` and `k3` at `t + dt/2` from the states
/// advanced by `dt/2` along `k1` and `k2`; `k4` at `t + dt` from the state
/// advanced by `dt` along `k3`; the result is
/// `state + (dt/6) · (k1 + 2·k2 + 2·k3 + k4)`.
pub open spec fn rk4_spec<M: Dynamics>(
    model: &M,
    t: <M::State as IntegrableState>::Scalar,
    state: &M::State,
    control: &M::Control,
    dt: <M::State as IntegrableState>::Scalar,
) -> M::State {
    let h = <M::State as IntegrableState>::half_spec(dt);
    let t_half = <M::State as IntegrableState>::plus_spec(t, h);
    let t_full = <M::State as IntegrableState>::plus_spec(t, dt);
    let k1 = model.derivative_spec(t, state, control);
    let k2 = model.derivative_spec(t_half, &state.add_scaled_spec(&k1, h), control);
    let k3 = model.derivative_spec(t_half, &state.add_scaled_spec(&k2, h), control);
    let k4 = model.derivative_spec(t_full, &state.add_scaled_spec(&k3, dt), control);
    let two = <M::State as IntegrableState>::weight_spec(2);
    let one = <M::State as IntegrableState>::weight_spec(1);
    let incr = k1.add_scaled_spec(&k2, two).add_scaled_spec(&k3, two).add_scaled_spec(&k4, one);
    state.add_scaled_spec(&incr, <M::State as IntegrableState>::sixth_spec(dt))
}

impl<M: Dynamics> Stepper<M> for Rk4 {
    open spec fn step_spec(
        &self,
        model: &M,
        t: <M::State as IntegrableState>::Scalar,
        state: &M::State,
        control: &M::Control,
        dt: <M::State as IntegrableState>::Scalar,
    ) -> M::State {
        rk4_spec(model, t, state, control, dt)
    }

    fn step(
        &mut self,
        model: &M,
        t: <M::State as IntegrableState>::Scalar,
        state: &M::State,
        control: &M::Control,
        dt: <M::State as IntegrableState>::Scalar,
    ) -> (r: M::State) {
        let h = <M::State as IntegrableState>::half(dt);
        let t_half = <M::State as IntegrableState>::plus(t, h);
        let t_full = <M::State as IntegrableState>::plus(t, dt);

        let k1 = model.derivative(t, state, control);
        let state_k2 = state.add_scaled(&k1, h);

        let k2 = model.derivative(t_half, &state_k2, control);
        let state_k3 = state.add_scaled(&k2, h);

        let k3 = model.derivative(t_half, &state_k3, control);
        let state_k4 = state.add_scaled(&k3, dt);

        let k4 = model.derivative(t_full, &state_k4, control);

        let two = <M::State as IntegrableState>::weight(2);
        let one = <M::State as IntegrableState>::weight(1);
        let incr = k1.add_scaled(&k2, two).add_scaled(&k3, two).add_scaled(&k4, one);

        state.add_scaled(&incr, <M::State as IntegrableState>::sixth(dt))
    }
}

} // verus!
