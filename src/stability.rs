//! Stability functions of the one-step schemes, evaluated exactly.
//!
//! A point of the scaled-eigenvalue plane is a Gaussian rational
//! `z = (re + i·im) / den`, given by its numerator `re + i·im` and its
//! denominator `den > 0`. The amplification factor `R(z)` of a scheme is then a
//! quotient of two Gaussian integers, and `|R(z)| <= 1` is decided on integers.
use num_complex::Complex;
use vstd::prelude::*;

use crate::complex::norm_sqr;

verus! {

/// The one-step amplification factor `R(z) = num / den` of a scheme applied
/// to the test equation `dx/dt = λx` with `z = λ·dt`.
#[derive(Clone, Copy, Debug)]
pub struct Amplification {
    pub num: Complex<i64>,
    pub den: Complex<i64>,
}

/// A fixed-step scheme whose stability function is known in closed form.
#[derive(Clone, Copy, Debug, PartialEq, Eq)]
pub enum Scheme {
    /// `R(z) = 1 + z`.
    ExplicitEuler,
    /// `R(z) = 1 / (1 - z)`.
    ImplicitEuler,
}

/// `R(z)` of `scheme` at `z = (re + i·im) / den`, as a quotient of Gaussian integers.
pub open spec fn amplification_of(scheme: Scheme, z: Complex<i32>, den: u32) -> Amplification {
    match scheme {
        // 1 + z = (den + re + i·im) / den
        Scheme::ExplicitEuler => Amplification {
            num: Complex { re: (den + z.re) as i64, im: z.im as i64 },
            den: Complex { re: den as i64, im: 0 },
        },
        // 1 / (1 - z) = den / (den - re - i·im)
        Scheme::ImplicitEuler => Amplification {
            num: Complex { re: den as i64, im: 0 },
            den: Complex { re: (den - z.re) as i64, im: (-z.im) as i64 },
        },
    }
}

/// `|R| <= 1`; a pole (`den == 0` with `num != 0`) is not stable.
pub open spec fn is_bounded(a: Amplification) -> bool {
    norm_sqr(a.num) <= norm_sqr(a.den)
}

/// Whether `scheme` damps the test equation at `z = (re + i·im) / den`.
pub open spec fn stable_at(scheme: Scheme, z: Complex<i32>, den: u32) -> bool {
    is_bounded(amplification_of(scheme, z, den))
}

/// Number of integer points in `lo..=hi`.
pub open spec fn span_len(lo: i32, hi: i32) -> int {
    if lo <= hi { hi - lo + 1 } else { 0 }
}

/// `re² + im²` of a Gaussian integer whose parts are below `2^33` in size.
fn squared_modulus(c: Complex<i64>) -> (r: i128)
    requires
        -0x2_0000_0000 <= c.re <= 0x2_0000_0000,
        -0x2_0000_0000 <= c.im <= 0x2_0000_0000,
    ensures
        r == norm_sqr(c),
{
    let x = c.re as i128;
    let y = c.im as i128;
    assert(0 <= x * x <= 0x4_0000_0000_0000_0000) by (nonlinear_arith)
        requires
            -0x2_0000_0000 <= x <= 0x2_0000_0000,
    ;
    assert(0 <= y * y <= 0x4_0000_0000_0000_0000) by (nonlinear_arith)
        requires
            -0x2_0000_0000 <= y <= 0x2_0000_0000,
    ;
    x * x + y * y
}

impl Scheme {
    /// The stability function `R(z)` at `z = (re + i·im) / den`.
    pub fn stability(&self, z: Complex<i32>, den: u32) -> (r: Amplification)
        requires
            den > 0,
        ensures
            r == amplification_of(*self, z, den),
    {
        let d = den as i64;
        match self {
            Scheme::ExplicitEuler => Amplification {
                num: Complex::new(d + z.re as i64, z.im as i64),
                den: Complex::new(d, 0),
            },
            Scheme::ImplicitEuler => Amplification {
                num: Complex::new(d, 0),
                den: Complex::new(d - z.re as i64, -(z.im as i64)),
            },
        }
    }

    /// Whether `|R(z)| <= 1` at `z = (re + i·im) / den`.
    pub fn is_stable(&self, z: Complex<i32>, den: u32) -> (r: bool)
        requires
            den > 0,
        ensures
            r == stable_at(*self, z, den),
    {
        let a = self.stability(z, den);
        squared_modulus(a.num) <= squared_modulus(a.den)
    }
}

/// Classifies the grid points `z = (re + i·im) / den` for `re` in
/// `re_min..=re_max` and `im` in `im_min..=im_max`: row `j` holds the points
/// with `im = im_min + j`, column `i` those with `re = re_min + i`, and a cell
/// is `true` when `scheme` is stable there.
pub fn stability_grid(
    scheme: Scheme,
    re_min: i32,
    re_max: i32,
    im_min: i32,
    im_max: i32,
    den: u32,
) -> (g: Vec<Vec<bool>>)
    requires
        den > 0,
    ensures
        g@.len() == span_len(im_min, im_max),
        forall|j: int| 0 <= j < g@.len() ==> #[trigger] g@[j]@.len() == span_len(re_min, re_max),
        forall|j: int, i: int|
            0 <= j < g@.len() && 0 <= i < g@[j]@.len() ==> #[trigger] g@[j]@[i] == stable_at(
                scheme,
                Complex { re: (re_min + i) as i32, im: (im_min + j) as i32 },
                den,
            ),
{
    let mut g: Vec<Vec<bool>> = Vec::new();
    let mut im: i64 = im_min as i64;
    while im <= im_max as i64
        invariant
            im_min <= im,
            im <= im_max + 1 || im == im_min,
            g@.len() == im - im_min,
            den > 0,
            forall|j: int| 0 <= j < g@.len() ==> #[trigger] g@[j]@.len() == span_len(re_min, re_max),
            forall|j: int, i: int|
                0 <= j < g@.len() && 0 <= i < g@[j]@.len() ==> #[trigger] g@[j]@[i] == stable_at(
                    scheme,
                    Complex { re: (re_min + i) as i32, im: (im_min + j) as i32 },
                    den,
                ),
        decreases im_max + 1 - im,
    {
        let mut row: Vec<bool> = Vec::new();
        let mut re: i64 = re_min as i64;
        while re <= re_max as i64
            invariant
                re_min <= re,
                re <= re_max + 1 || re == re_min,
                im_min <= im <= im_max,
                den > 0,
                row@.len() == re - re_min,
                forall|i: int|
                    0 <= i < row@.len() ==> #[trigger] row@[i] == stable_at(
                        scheme,
                        Complex { re: (re_min + i) as i32, im: im as i32 },
                        den,
                    ),
            decreases re_max + 1 - re,
        {
            row.push(scheme.is_stable(Complex::new(re as i32, im as i32), den));
            re = re + 1;
        }
        g.push(row);
        im = im + 1;
    }
    g
}

/// At `z = 0` both Euler schemes have `R(0) = 1`: the quotient's numerator
/// equals its denominator, and the point is on the stable side of the boundary.
pub proof fn lemma_stability_at_origin(den: u32)
    requires
        den > 0,
    ensures
        amplification_of(Scheme::ExplicitEuler, Complex { re: 0, im: 0 }, den).num
            == amplification_of(Scheme::ExplicitEuler, Complex { re: 0, im: 0 }, den).den,
        amplification_of(Scheme::ImplicitEuler, Complex { re: 0, im: 0 }, den).num
            == amplification_of(Scheme::ImplicitEuler, Complex { re: 0, im: 0 }, den).den,
        stable_at(Scheme::ExplicitEuler, Complex { re: 0, im: 0 }, den),
        stable_at(Scheme::ImplicitEuler, Complex { re: 0, im: 0 }, den),
{
}

/// Explicit Euler is unstable at every real `z < -2`.
pub proof fn lemma_explicit_euler_unstable_below_minus_two(z: Complex<i32>, den: u32)
    requires
        den > 0,
        z.im == 0,
        z.re < -2 * den,
    ensures
        !stable_at(Scheme::ExplicitEuler, z, den),
{
    let d = den as int;
    let x = d + z.re;
    assert(x * x > d * d) by (nonlinear_arith)
        requires
            d > 0,
            x < -d,
    ;
}

/// Implicit Euler is stable at every `z` with non-positive real part.
pub proof fn lemma_implicit_euler_stable_left_half_plane(z: Complex<i32>, den: u32)
    requires
        den > 0,
        z.re <= 0,
    ensures
        stable_at(Scheme::ImplicitEuler, z, den),
{
    let d = den as int;
    let x = d - z.re;
    let y = -z.im;
    assert(x * x + y * y >= d * d) by (nonlinear_arith)
        requires
            d > 0,
            x >= d,
    ;
}

} // verus!
