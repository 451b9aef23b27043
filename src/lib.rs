//! Trajectory prediction for a vehicle under a constant pilot input: the
//! generic model/stepper interfaces, the explicit Euler and Runge-Kutta
//! schemes, the prediction driver, and exact stability analysis of the Euler
//! schemes.

pub mod complex;
pub mod forward_euler;
pub mod predict;
pub mod rk4;
pub mod stability;
pub mod traits;

pub use forward_euler::ForwardEuler;
pub use predict::{predict, Prediction};
pub use rk4::Rk4;
pub use stability::{stability_grid, Amplification, Scheme};
pub use traits::{Dynamics, IntegrableState, Stepper};
