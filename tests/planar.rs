use pilots_intent::{predict, Dynamics, ForwardEuler, IntegrableState};

const GRAVITY: f64 = 9.81;

/// North, East, their velocities, and yaw.
#[derive(Debug, Clone, Copy, PartialEq)]
struct Planar {
    north: f64,
    east: f64,
    v_north: f64,
    v_east: f64,
    yaw: f64,
}

impl IntegrableState for Planar {
    type Scalar = f64;
    fn add_scaled_spec(&self, d: &Self, k: f64) -> Self {
        self.add_scaled(d, k)
    }
    fn add_scaled(&self, d: &Self, k: f64) -> Self {
        Planar {
            north: self.north + k * d.north,
            east: self.east + k * d.east,
            v_north: self.v_north + k * d.v_north,
            v_east: self.v_east + k * d.v_east,
            yaw: self.yaw + k * d.yaw,
        }
    }

    fn valid_step(dt: f64) -> bool {
        dt.is_finite() && dt > 0.0
    }
    fn half_spec(s: f64) -> f64 {
        Self::half(s)
    }
    fn sixth_spec(s: f64) -> f64 {
        Self::sixth(s)
    }
    fn plus_spec(a: f64, b: f64) -> f64 {
        Self::plus(a, b)
    }
    fn weight_spec(n: u8) -> f64 {
        Self::weight(n)
    }
    fn half(s: f64) -> f64 {
        0.5 * s
    }
    fn sixth(s: f64) -> f64 {
        s / 6.0
    }
    fn plus(a: f64, b: f64) -> f64 {
        a + b
    }
    fn weight(n: u8) -> f64 {
        f64::from(n)
    }
}

/// (roll, pitch, yaw rate)
type Stick = (f64, f64, f64);

/// Hover approximation with linear drag, body accelerations rotated by yaw.
struct Quad {
    drag: f64,
}

impl Dynamics for Quad {
    type State = Planar;
    type Control = (f64, f64, f64);
    type Input = Stick;

    fn control_spec(&self, input: &Stick) -> (f64, f64, f64) {
        self.input_to_control(input)
    }

    fn derivative_spec(&self, t: f64, s: &Planar, u: &(f64, f64, f64)) -> Planar {
        self.derivative(t, s, u)
    }

    fn input_to_control(&self, input: &Stick) -> (f64, f64, f64) {
        (GRAVITY * input.1.tan(), -GRAVITY * input.0.tan(), input.2)
    }

    fn derivative(&self, _t: f64, s: &Planar, u: &(f64, f64, f64)) -> Planar {
        let (c, sn) = (s.yaw.cos(), s.yaw.sin());
        Planar {
            north: s.v_north,
            east: s.v_east,
            v_north: u.0 * c - u.1 * sn - self.drag * s.v_north,
            v_east: u.0 * sn + u.1 * c - self.drag * s.v_east,
            yaw: u.2,
        }
    }
}

#[test]
fn ten_degree_pitch_from_rest_accelerates_north_only() {
    let model = Quad { drag: 0.1 };
    let input: Stick = (0.0, 10f64.to_radians(), 0.0);
    let init = Planar {
        north: 0.0,
        east: 0.0,
        v_north: 0.0,
        v_east: 0.0,
        yaw: 0.0,
    };
    let steps = 30_000;
    let dt = 10.0 / steps as f64;
    let times: Vec<f64> = (0..steps).map(|i| i as f64 * dt).collect();
    let p = predict(&input, init, &model, &mut ForwardEuler, &times, dt);

    assert_eq!(p.states.len(), steps + 1);
    let v_inf = GRAVITY * 10f64.to_radians().tan() / model.drag;
    for (i, s) in p.states.iter().enumerate() {
        assert!(s.v_east.abs() < 1e-9);
        assert!(s.east.abs() < 1e-9);
        assert!(s.v_north < v_inf);
        // v(t) = v_inf (1 - e^{-drag t})
        let t = i as f64 * dt;
        let exact = v_inf * (1.0 - (-model.drag * t).exp());
        assert!((s.v_north - exact).abs() < 1e-3);
    }
    for w in p.states.windows(2) {
        assert!(w[1].v_north > w[0].v_north);
    }
}
