//! Decision rules of the ray-sphere intersection test.
//!
//! The analytic solver computes the quadratic discriminant and, when it is
//! non-negative, the two candidate roots. The floating-point values are the
//! caller's; the policy of which root is reported is fixed here: a negative
//! discriminant is a miss, otherwise the smaller root is preferred whenever
//! it lies in the valid range (at least zero and below positive infinity),
//! the larger root is the fallback, and the sphere is missed when neither
//! qualifies.

use vstd::prelude::*;

verus! {

/// Which candidate root of the quadratic the intersection test reports.
#[derive(Clone, Copy, Debug, PartialEq, Eq, Structural)]
pub enum RootChoice {
    /// The smaller root, `(-half_b - sqrt(discriminant)) / a`.
    Near,
    /// The larger root, `(-half_b + sqrt(discriminant)) / a`.
    Far,
    /// No intersection is reported.
    Miss,
}

/// The root-selection policy of the sphere intersection test.
///
/// `discriminant_negative` holds when the quadratic has no real root;
/// `near_in_range` and `far_in_range` hold when the respective candidate
/// root lies in the valid range. The smaller root wins whenever it
/// qualifies; the larger is consulted only as a fallback.
pub fn select_root(discriminant_negative: bool, near_in_range: bool, far_in_range: bool) -> (choice:
    RootChoice)
    ensures
        choice is Near <==> !discriminant_negative && near_in_range,
        choice is Far <==> !discriminant_negative && !near_in_range && far_in_range,
        choice is Miss <==> discriminant_negative || (!near_in_range && !far_in_range),
{
    if discriminant_negative {
        RootChoice::Miss
    } else if near_in_range {
        RootChoice::Near
    } else if far_in_range {
        RootChoice::Far
    } else {
        RootChoice::Miss
    }
}

} // verus!
