//! Verified core of a small Monte Carlo path tracer.
//!
//! The renderer's floating-point kernel (vector algebra, the quadratic
//! sphere solver, jittered sampling) lives outside this crate; here stand
//! the parts whose behaviour is exact: the order in which pixels are
//! rendered, the decision rules of the path integrator and of the
//! ray-sphere root selection, and the serialization of quantized pixels
//! into the plain pixel-map text stream.

pub mod intersect;
pub mod ppm;
pub mod schedule;
pub mod trace;
