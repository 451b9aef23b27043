use vstd::prelude::*;

verus! {

/// `num_complex::Complex` holds its two parts in the public fields `re` and `im`;
/// Verus reads them as they are declared there.
#[verifier::external_type_specification]
#[verifier::reject_recursive_types(T)]
pub struct ExComplex<T>(num_complex::Complex<T>);

/// Relies on `num_complex::Complex::new`, which stores `re` and `im` as given.
pub assume_specification<T>[ num_complex::Complex::<T>::new ](re: T, im: T) -> (r: num_complex::Complex<T>)
    ensures
        r.re == re,
        r.im == im,
;

/// The squared modulus `re² + im²` of a Gaussian integer.
pub open spec fn norm_sqr(c: num_complex::Complex<i64>) -> int {
    c.re * c.re + c.im * c.im
}

} // verus!
