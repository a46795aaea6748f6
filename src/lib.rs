//! A path tracer's integer core: the pixel raster that a render fills row by
//! row, the plain-text PPM encoding of the finished image, the decoding of
//! texture image files into RGB triples, and the checkerboard cell rule.

use vstd::prelude::*;
use vstd::std_specs::ops::MulSpec;

pub mod pixels;

verus! {

/// The product of a value with itself, through the value's own `*`.
pub fn square<T: core::ops::Mul<Output = T> + Copy>(value: T) -> (r: T)
    requires
        value.mul_req(value),
    ensures
        T::obeys_mul_spec() ==> r == value.mul_spec(value),
{
    value * value
}

} // verus!
