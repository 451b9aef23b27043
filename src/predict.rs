//! The prediction driver: one control for the whole horizon, one stepper call
//! per time point, every state recorded.
use vstd::prelude::*;

use crate::traits::{Dynamics, IntegrableState, Stepper};

verus! {

/// A recorded trajectory and the control held over it.
#[derive(Debug)]
pub struct Prediction<S, U> {
    pub states: Vec<S>,
    pub control: U,
}

impl<S, U> Prediction<S, U> {
    /// The number of steps recorded: one less than the number of states.
    pub fn n(&self) -> (r: usize)
        ensures
            r == if self.states@.len() == 0 { 0 } else { self.states@.len() - 1 },
    {
        self.states.len().saturating_sub(1)
    }
}

/// Two results of `input_to_control` on one model and one input are equal:
/// the control is a function of the model and the input alone.
pub proof fn lemma_control_is_deterministic<M: Dynamics>(
    model: &M,
    input: &M::Input,
    first: M::Control,
    second: M::Control,
)
    requires
        first == model.control_spec(input),
        second == model.control_spec(input),
    ensures
        first == second,
{
}

/// A state that one step leaves unchanged at every time point of a run is
/// never left: when `states` is a trajectory recorded as `predict` records
/// it, from such a fixed point `x`, every recorded state is `x`.
pub proof fn lemma_fixed_point_is_kept<M: Dynamics, S: Stepper<M>>(
    model: &M,
    stepper: &S,
    control: M::Control,
    x: M::State,
    times: Seq<<M::State as IntegrableState>::Scalar>,
    dt: <M::State as IntegrableState>::Scalar,
    states: Seq<M::State>,
)
    requires
        states.len() == times.len() + 1,
        states[0] == x,
        forall|i: int|
            0 <= i < times.len() ==> #[trigger] states[i + 1] == stepper.step_spec(
                model,
                times[i],
                &states[i],
                &control,
                dt,
            ),
        forall|i: int|
            0 <= i < times.len() ==> #[trigger] stepper.step_spec(model, times[i], &x, &control, dt)
                == x,
    ensures
        forall|i: int| 0 <= i < states.len() ==> #[trigger] states[i] == x,
{
    assert forall|i: int| 0 <= i < states.len() implies #[trigger] states[i] == x by {
        lemma_fixed_point_up_to(model, stepper, control, x, times, dt, states, i);
    }
}

proof fn lemma_fixed_point_up_to<M: Dynamics, S: Stepper<M>>(
    model: &M,
    stepper: &S,
    control: M::Control,
    x: M::State,
    times: Seq<<M::State as IntegrableState>::Scalar>,
    dt: <M::State as IntegrableState>::Scalar,
    states: Seq<M::State>,
    i: int,
)
    requires
        0 <= i < states.len(),
        states.len() == times.len() + 1,
        states[0] == x,
        forall|k: int|
            0 <= k < times.len() ==> #[trigger] states[k + 1] == stepper.step_spec(
                model,
                times[k],
                &states[k],
                &control,
                dt,
            ),
        forall|k: int|
            0 <= k < times.len() ==> #[trigger] stepper.step_spec(model, times[k], &x, &control, dt)
                == x,
    ensures
        states[i] == x,
    decreases i,
{
    if i > 0 {
        lemma_fixed_point_up_to(model, stepper, control, x, times, dt, states, i - 1);
        assert(states[(i - 1) + 1] == stepper.step_spec(model, times[i - 1], &states[i - 1], &control, dt));
    }
}

/// Predicts the states at the time points `times` (each followed by a step of
/// size `dt`) from `initial_state`, holding the control of `input` constant.
pub fn predict<M: Dynamics, S: Stepper<M>>(
    input: &M::Input,
    initial_state: M::State,
    model: &M,
    stepper: &mut S,
    times: &Vec<<M::State as IntegrableState>::Scalar>,
    dt: <M::State as IntegrableState>::Scalar,
) -> (p: Prediction<M::State, M::Control>)
    requires
        times@.len() > 0,
        <M::State as IntegrableState>::valid_step(dt),
    ensures
        p.control == model.control_spec(input),
        p.states@.len() == times@.len() + 1,
        p.states@[0] == initial_state,
        forall|i: int|
            0 <= i < times@.len() ==> #[trigger] p.states@[i + 1] == old(stepper).step_spec(
                model,
                times@[i],
                &p.states@[i],
                &p.control,
                dt,
            ),
{
    let control = model.input_to_control(input);
    let mut states: Vec<M::State> = Vec::new();
    states.push(initial_state);
    let mut i: usize = 0;
    while i < times.len()
        invariant
            i <= times@.len(),
            states@.len() == i + 1,
            states@[0] == initial_state,
            control == model.control_spec(input),
            <M::State as IntegrableState>::valid_step(dt),
            forall|m: &M, t2, s2: &M::State, c2: &M::Control, dt2|
                #[trigger] stepper.step_spec(m, t2, s2, c2, dt2) == old(stepper).step_spec(
                    m,
                    t2,
                    s2,
                    c2,
                    dt2,
                ),
            forall|k: int|
                0 <= k < i ==> #[trigger] states@[k + 1] == old(stepper).step_spec(
                    model,
                    times@[k],
                    &states@[k],
                    &control,
                    dt,
                ),
        decreases times@.len() - i,
    {
        model.validate_state(&states[i]);
        let next = stepper.step(model, times[i], &states[i], &control, dt);
        states.push(next);
        i = i + 1;
    }
    Prediction { states, control }
}

} // verus!
