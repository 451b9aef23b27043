//! The interfaces that pair a dynamics model with a stepping scheme.
//!
//! Each exec method is tied to a spec function of the implementing type, so
//! generic code can state what it computes in terms of the model's own
//! mathematics: a state is advanced as `add_scaled_spec`, the derivative is
//! `derivative_spec`, and so on.
use vstd::prelude::*;

verus! {

/// States that explicit and implicit schemes can integrate.
pub trait IntegrableState: Sized {
    /// Numbers used for times, step sizes and scale factors.
    type Scalar: Copy;

    /// `self + scale · derivative`.
    spec fn add_scaled_spec(&self, derivative: &Self, scale: Self::Scalar) -> Self;

    fn add_scaled(&self, derivative: &Self, scale: Self::Scalar) -> (r: Self)
        ensures
            r == self.add_scaled_spec(derivative, scale),
    ;

    /// Whether `dt` is a step size a scheme may take (positive and finite).
    spec fn valid_step(dt: Self::Scalar) -> bool;

    /// `s / 2`.
    spec fn half_spec(s: Self::Scalar) -> Self::Scalar;

    /// `s / 6`.
    spec fn sixth_spec(s: Self::Scalar) -> Self::Scalar;

    /// `a + b`.
    spec fn plus_spec(a: Self::Scalar, b: Self::Scalar) -> Self::Scalar;

    /// The whole number `n` as a scalar.
    spec fn weight_spec(n: u8) -> Self::Scalar;

    fn half(s: Self::Scalar) -> (r: Self::Scalar)
        ensures
            r == Self::half_spec(s),
    ;

    fn sixth(s: Self::Scalar) -> (r: Self::Scalar)
        ensures
            r == Self::sixth_spec(s),
    ;

    fn plus(a: Self::Scalar, b: Self::Scalar) -> (r: Self::Scalar)
        ensures
            r == Self::plus_spec(a, b),
    ;

    fn weight(n: u8) -> (r: Self::Scalar)
        ensures
            r == Self::weight_spec(n),
    ;
}

/// A dynamics model: the control derived from a pilot input, and the time
/// derivative of the state under a control.
pub trait Dynamics {
    type State: IntegrableState;
    type Control;
    type Input;

    /// The control that `input` maps to.
    spec fn control_spec(&self, input: &Self::Input) -> Self::Control;

    /// `dx/dt` at `(t, state, control)`.
    spec fn derivative_spec(
        &self,
        t: <Self::State as IntegrableState>::Scalar,
        state: &Self::State,
        control: &Self::Control,
    ) -> Self::State;

    fn input_to_control(&self, input: &Self::Input) -> (c: Self::Control)
        ensures
            c == self.control_spec(input),
    ;

    fn derivative(
        &self,
        t: <Self::State as IntegrableState>::Scalar,
        state: &Self::State,
        control: &Self::Control,
    ) -> (d: Self::State)
        ensures
            d == self.derivative_spec(t, state, control),
    ;

    /// Called on each state before it is advanced; accepts every state unless
    /// a model says otherwise.
    fn validate_state(&self, state: &Self::State) {
    }
}

/// A one-step scheme that advances a state of model `M` by one time increment.
pub trait Stepper<M: Dynamics> {
    /// The state one step of size `dt` after `state` at time `t`.
    spec fn step_spec(
        &self,
        model: &M,
        t: <M::State as IntegrableState>::Scalar,
        state: &M::State,
        control: &M::Control,
        dt: <M::State as IntegrableState>::Scalar,
    ) -> M::State;

    /// A step may update what the stepper records of its own work, never what
    /// its steps compute.
    fn step(
        &mut self,
        model: &M,
        t: <M::State as IntegrableState>::Scalar,
        state: &M::State,
        control: &M::Control,
        dt: <M::State as IntegrableState>::Scalar,
    ) -> (r: M::State)
        requires
            <M::State as IntegrableState>::valid_step(dt),
        ensures
            r == old(self).step_spec(model, t, state, control, dt),
            forall|m: &M, t2, s2: &M::State, c2: &M::Control, dt2|
                #[trigger] final(self).step_spec(m, t2, s2, c2, dt2) == old(self).step_spec(
                    m,
                    t2,
                    s2,
                    c2,
                    dt2,
                ),
    ;
}

} // verus!
