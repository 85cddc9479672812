//! The exact core of a one-sphere ray tracer: fixed-point color quantization,
//! row-major frame assembly, and the plain-text (P3) pixmap encoding.
use vstd::prelude::*;

pub mod color;
pub mod ppm;

verus! {

} // verus!
