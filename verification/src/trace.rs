//! Decision rules of the path integrator.
//!
//! The integrator assigns a radiance to a camera ray by following it through
//! the scene: at each level it first checks the remaining recursion budget,
//! and only if budget is left does it query the scene for the nearest
//! surface. A surface scatters the ray onward and halves the energy carried
//! back; a miss ends the path on the sky gradient; an exhausted budget ends
//! it as absorbed, with black radiance. The floating-point radiance values
//! themselves are computed by the caller; what is pinned down here is the
//! shape of every path: when it terminates, how it terminates, and how many
//! halvings its radiance has undergone.

use vstd::prelude::*;

verus! {

/// How a single path through the scene ended.
///
/// `Escaped { bounces }` means the ray left the scene after `bounces`
/// surface scatters: its radiance is the sky gradient of the final ray
/// direction attenuated by one half per bounce. `Absorbed` means the
/// recursion budget ran out first: the radiance is black.
#[derive(Clone, Copy, Debug, PartialEq, Eq, Structural)]
pub enum PathOutcome {
    Absorbed,
    Escaped { bounces: u32 },
}

/// The number of surface scatters a path undergoes before escaping to the
/// sky, given its recursion budget and the hit-or-miss outcome of each
/// successive nearest-surface query; `None` when the budget runs out before
/// a miss occurs. Meaningful when at least `depth` outcomes are supplied.
pub open spec fn path_scatters(depth: int, hits: Seq<bool>) -> Option<nat>
    recommends
        depth <= hits.len(),
    decreases depth,
{
    if depth <= 0 {
        None
    } else if hits.len() == 0 {
        None
    } else if !hits[0] {
        Some(0)
    } else {
        match path_scatters(depth - 1, hits.drop_first()) {
            None => None,
            Some(k) => Some(k + 1),
        }
    }
}

/// A path that misses every surface on its `m`-th query, having hit one on
/// each query before, escapes after exactly `m` scatters.
pub proof fn lemma_path_escapes(depth: int, hits: Seq<bool>, m: int)
    requires
        0 <= m < depth,
        m < hits.len(),
        !hits[m],
        forall|n: int| 0 <= n < m ==> hits[n],
    ensures
        path_scatters(depth, hits) == Some(m as nat),
    decreases m,
{
    if m > 0 {
        lemma_path_escapes(depth - 1, hits.drop_first(), m - 1);
    }
}

/// A path that hits a surface on every query within its budget is absorbed.
pub proof fn lemma_path_absorbed(depth: int, hits: Seq<bool>)
    requires
        forall|n: int| 0 <= n < depth && n < hits.len() ==> hits[n],
    ensures
        path_scatters(depth, hits) is None,
    decreases depth,
{
    if depth > 0 && hits.len() > 0 {
        lemma_path_absorbed(depth - 1, hits.drop_first());
    }
}

/// A ray given no recursion budget contributes no light: whatever the scene
/// and whatever the ray, the path is absorbed at once and its radiance is
/// black.
pub proof fn lemma_exhausted_budget_is_absorbed(depth: int, hits: Seq<bool>)
    requires
        depth <= 0,
    ensures
        path_scatters(depth, hits) is None,
{
}

/// The integrator's termination rule: a path is cut short exactly when the
/// remaining recursion budget is zero or negative.
pub fn depth_exhausted(depth: i32) -> (exhausted: bool)
    ensures
        exhausted <==> depth <= 0,
{
    depth <= 0
}

/// Resolves the outcome of one path as an explicit loop over the recorded
/// hit-or-miss outcome of each successive nearest-surface query, bounded by
/// the recursion budget `depth`. Equivalent to the recursive integrator:
/// the radiance of the path is black when `Absorbed`, and the sky gradient
/// halved `bounces` times when `Escaped`.
pub fn resolve_path(depth: i32, hits: &Vec<bool>) -> (outcome: PathOutcome)
    requires
        depth <= hits@.len(),
    ensures
        outcome is Absorbed <==> path_scatters(depth as int, hits@) is None,
        outcome matches PathOutcome::Escaped { bounces } ==> path_scatters(depth as int, hits@)
            == Some(bounces as nat),
        depth <= 0 ==> outcome is Absorbed,
{
    if depth_exhausted(depth) {
        return PathOutcome::Absorbed;
    }
    let mut k: i32 = 0;
    while k < depth
        invariant
            0 <= k <= depth,
            depth <= hits@.len(),
            forall|n: int| 0 <= n < k ==> hits@[n],
        decreases depth - k,
    {
        if !hits[k as usize] {
            proof {
                lemma_path_escapes(depth as int, hits@, k as int);
            }
            return PathOutcome::Escaped { bounces: k as u32 };
        }
        k = k + 1;
    }
    proof {
        lemma_path_absorbed(depth as int, hits@);
    }
    PathOutcome::Absorbed
}

} // verus!
