use vstd::prelude::*;
use num_complex::Complex;

verus! {

#[verifier::external_type_specification]
pub struct ExComplex<T>(Complex<T>);

/// Relies on `num_complex::Complex::new`: it builds the value from its two parts.
pub assume_specification<T>[ Complex::<T>::new ](re: T, im: T) -> (r: Complex<T>)
    ensures
        r.re == re,
        r.im == im,
;

/// A block of `n` zero samples.
pub fn zero_block(n: usize) -> (r: Vec<Complex<i16>>)
    ensures
        r@.len() == n,
        forall|i: int| 0 <= i < n ==> (#[trigger] r@[i]).re == 0 && r@[i].im == 0,
{
    let mut r: Vec<Complex<i16>> = Vec::with_capacity(n);
    let mut k: usize = 0;
    while k < n
        invariant
            k <= n,
            r@.len() == k,
            forall|i: int| 0 <= i < k ==> (#[trigger] r@[i]).re == 0 && r@[i].im == 0,
        decreases n - k,
    {
        r.push(Complex::new(0i16, 0i16));
        k = k + 1;
    }
    r
}

/// The first `n` samples of `buf`, copied out.
pub fn copy_prefix(buf: &[Complex<i16>], n: usize) -> (r: Vec<Complex<i16>>)
    requires
        n <= buf@.len(),
    ensures
        r@ == buf@.subrange(0, n as int),
{
    let mut r: Vec<Complex<i16>> = Vec::with_capacity(n);
    let mut k: usize = 0;
    while k < n
        invariant
            k <= n,
            n <= buf@.len(),
            r@ == buf@.subrange(0, k as int),
        decreases n - k,
    {
        r.push(buf[k]);
        k = k + 1;
    }
    r
}

} // verus!
