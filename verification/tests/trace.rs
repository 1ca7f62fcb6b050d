use pathtrace::trace::{depth_exhausted, resolve_path, PathOutcome};

#[test]
fn budget_rule() {
    assert!(depth_exhausted(0));
    assert!(depth_exhausted(-5));
    assert!(!depth_exhausted(1));
    assert!(!depth_exhausted(50));
}

#[test]
fn zero_budget_is_absorbed() {
    // Whatever the scene would have answered, a ray with no recursion
    // budget ends black.
    assert_eq!(resolve_path(0, &vec![]), PathOutcome::Absorbed);
    assert_eq!(resolve_path(0, &vec![true, true, true]), PathOutcome::Absorbed);
    assert_eq!(resolve_path(-1, &vec![false]), PathOutcome::Absorbed);
}

#[test]
fn immediate_miss_escapes_unattenuated() {
    assert_eq!(
        resolve_path(3, &vec![false, true, true]),
        PathOutcome::Escaped { bounces: 0 }
    );
}

#[test]
fn scatters_before_escape_are_counted() {
    assert_eq!(
        resolve_path(3, &vec![true, false, true]),
        PathOutcome::Escaped { bounces: 1 }
    );
    assert_eq!(
        resolve_path(3, &vec![true, true, false]),
        PathOutcome::Escaped { bounces: 2 }
    );
}

#[test]
fn budget_spent_on_surfaces_is_absorbed() {
    assert_eq!(resolve_path(3, &vec![true, true, true]), PathOutcome::Absorbed);
    assert_eq!(resolve_path(1, &vec![true, false]), PathOutcome::Absorbed);
}

#[test]
fn default_budget_escapes_on_first_miss() {
    let mut hits = vec![true; 50];
    hits[10] = false;
    assert_eq!(resolve_path(50, &hits), PathOutcome::Escaped { bounces: 10 });
}
