use proj_transform::lifecycle::{teardown_plan, tally_plan, Bundle, Tally, TeardownStep};

#[test]
fn plan_without_area_is_the_mandated_order() {
    let plan = teardown_plan(false);
    assert_eq!(
        plan,
        vec![
            TeardownStep::ReleaseProjection,
            TeardownStep::ReleaseContext,
            TeardownStep::GlobalCleanup,
        ]
    );
}

#[test]
fn plan_with_area_is_the_mandated_order() {
    let plan = teardown_plan(true);
    assert_eq!(
        plan,
        vec![
            TeardownStep::ReleaseArea,
            TeardownStep::ReleaseProjection,
            TeardownStep::ReleaseContext,
            TeardownStep::GlobalCleanup,
        ]
    );
}

#[test]
fn every_destructor_runs_exactly_once_without_area() {
    let t = tally_plan(&teardown_plan(false));
    assert_eq!(t, Tally { area: 0, projection: 1, context: 1, cleanup: 1 });
}

#[test]
fn every_destructor_runs_exactly_once_with_area() {
    let t = tally_plan(&teardown_plan(true));
    assert_eq!(t, Tally { area: 1, projection: 1, context: 1, cleanup: 1 });
}

#[test]
fn cleanup_is_last_and_projection_precedes_context() {
    for has_area in [false, true] {
        let plan = teardown_plan(has_area);
        assert_eq!(plan.last(), Some(&TeardownStep::GlobalCleanup));
        let proj_at = plan
            .iter()
            .position(|s| *s == TeardownStep::ReleaseProjection)
            .unwrap();
        let ctx_at = plan
            .iter()
            .position(|s| *s == TeardownStep::ReleaseContext)
            .unwrap();
        assert!(proj_at < ctx_at);
        assert_eq!(
            plan.iter()
                .filter(|s| **s == TeardownStep::GlobalCleanup)
                .count(),
            1
        );
    }
}

#[test]
fn released_bundle_hands_back_its_own_plan() {
    let bundle = Bundle::acquire(true);
    assert!(bundle.holds_area());
    let plan = bundle.release();
    assert_eq!(plan, teardown_plan(true));

    let bare = Bundle::acquire(false);
    assert!(!bare.holds_area());
    let plan = bare.release();
    assert_eq!(plan, teardown_plan(false));
}

#[test]
fn early_failure_release_is_still_balanced() {
    // A bundle torn down right after acquisition, without any transform
    // in between, still releases each held resource exactly once.
    let bundle = Bundle::acquire(false);
    let t = tally_plan(&bundle.release());
    assert_eq!(t, Tally { area: 0, projection: 1, context: 1, cleanup: 1 });
}
