//! The teardown protocol for one bundle of native resources.
//!
//! One transform acquires up to three native resources: a context, a
//! projection object built from it, and optionally an area of use. The
//! native library mandates the release order: the projection object first,
//! then the context, and only after both of those have returned, one
//! process-wide cleanup call. Violating that order is undefined behavior,
//! so the order is fixed here as a plan of steps that the unverified
//! driver executes one by one.

use vstd::prelude::*;

verus! {

/// One release action of the teardown, in the order the native library
/// mandates.
#[derive(Clone, Copy, Debug, PartialEq, Eq, Structural)]
pub enum TeardownStep {
    /// Destroy the optional area-of-use object.
    ReleaseArea,
    /// Destroy the projection object.
    ReleaseProjection,
    /// Destroy the context the projection object was built from.
    ReleaseContext,
    /// The process-wide cleanup call; only legal once the projection
    /// object and the context have both been destroyed.
    GlobalCleanup,
}

/// The mandated release sequence for a bundle that did or did not hold an
/// area-of-use object.
pub open spec fn spec_teardown_plan(has_area: bool) -> Seq<TeardownStep> {
    if has_area {
        seq![
            TeardownStep::ReleaseArea,
            TeardownStep::ReleaseProjection,
            TeardownStep::ReleaseContext,
            TeardownStep::GlobalCleanup,
        ]
    } else {
        seq![
            TeardownStep::ReleaseProjection,
            TeardownStep::ReleaseContext,
            TeardownStep::GlobalCleanup,
        ]
    }
}

/// How many times `step` occurs in `plan`.
pub open spec fn step_count(plan: Seq<TeardownStep>, step: TeardownStep) -> nat
    decreases plan.len(),
{
    if plan.len() == 0 {
        0
    } else {
        step_count(plan.drop_last(), step) + (if plan.last() == step {
            1nat
        } else {
            0nat
        })
    }
}

/// What makes a release sequence safe for a bundle that held a context, a
/// projection object, and (when `has_area` is true) an area-of-use object:
/// every held resource is released exactly once and none twice, the
/// projection object goes before the context, and the process-wide cleanup
/// call comes last of all, after both destructions.
pub open spec fn teardown_safe(plan: Seq<TeardownStep>, has_area: bool) -> bool {
    &&& step_count(plan, TeardownStep::ReleaseProjection) == 1
    &&& step_count(plan, TeardownStep::ReleaseContext) == 1
    &&& step_count(plan, TeardownStep::GlobalCleanup) == 1
    &&& step_count(plan, TeardownStep::ReleaseArea) == (if has_area {
        1nat
    } else {
        0nat
    })
    &&& forall|i: int, j: int|
        0 <= i < plan.len() && 0 <= j < plan.len() && plan[i] == TeardownStep::ReleaseProjection
            && plan[j] == TeardownStep::ReleaseContext ==> i < j
    &&& forall|i: int|
        0 <= i < plan.len() && plan[i] == TeardownStep::GlobalCleanup ==> i == plan.len() - 1
    &&& plan.len() > 0
    &&& plan.last() == TeardownStep::GlobalCleanup
}

/// Build the release sequence for one resource bundle.
pub fn teardown_plan(has_area: bool) -> (plan: Vec<TeardownStep>)
    ensures
        plan@ == spec_teardown_plan(has_area),
{
    let mut plan: Vec<TeardownStep> = Vec::new();
    if has_area {
        plan.push(TeardownStep::ReleaseArea);
    }
    plan.push(TeardownStep::ReleaseProjection);
    plan.push(TeardownStep::ReleaseContext);
    plan.push(TeardownStep::GlobalCleanup);
    proof {
        assert(plan@ =~= spec_teardown_plan(has_area));
    }
    plan
}

/// The mandated plan is safe, whether or not an area-of-use object was
/// held: no resource is destroyed twice, none is leaked, the projection
/// object is destroyed before the context, and the process-wide cleanup
/// comes last, after both destructions.
pub proof fn lemma_teardown_plan_safe(has_area: bool)
    ensures
        teardown_safe(spec_teardown_plan(has_area), has_area),
{
    reveal_with_fuel(step_count, 6);
    let plan = spec_teardown_plan(has_area);
    if has_area {
        assert(plan.drop_last() =~= seq![
            TeardownStep::ReleaseArea,
            TeardownStep::ReleaseProjection,
            TeardownStep::ReleaseContext,
        ]);
        assert(plan.drop_last().drop_last() =~= seq![
            TeardownStep::ReleaseArea,
            TeardownStep::ReleaseProjection,
        ]);
        assert(plan.drop_last().drop_last().drop_last() =~= seq![TeardownStep::ReleaseArea]);
    } else {
        assert(plan.drop_last() =~= seq![
            TeardownStep::ReleaseProjection,
            TeardownStep::ReleaseContext,
        ]);
        assert(plan.drop_last().drop_last() =~= seq![TeardownStep::ReleaseProjection]);
    }
}

/// A step occurs in a plan at most as often as the plan is long.
pub proof fn lemma_step_count_le_len(plan: Seq<TeardownStep>, step: TeardownStep)
    ensures
        step_count(plan, step) <= plan.len(),
    decreases plan.len(),
{
    if plan.len() > 0 {
        lemma_step_count_le_len(plan.drop_last(), step);
    }
}

/// How often each destructor is invoked over one release sequence: the
/// counterpart, on the plan, of counting constructor/destructor call
/// pairs in a test double.
#[derive(Clone, Copy, Debug, PartialEq, Eq, Structural)]
pub struct Tally {
    /// Invocations of the area-of-use destructor.
    pub area: usize,
    /// Invocations of the projection-object destructor.
    pub projection: usize,
    /// Invocations of the context destructor.
    pub context: usize,
    /// Invocations of the process-wide cleanup call.
    pub cleanup: usize,
}

/// Count how often each destructor appears in a release sequence.
pub fn tally_plan(plan: &Vec<TeardownStep>) -> (t: Tally)
    ensures
        t.area == step_count(plan@, TeardownStep::ReleaseArea),
        t.projection == step_count(plan@, TeardownStep::ReleaseProjection),
        t.context == step_count(plan@, TeardownStep::ReleaseContext),
        t.cleanup == step_count(plan@, TeardownStep::GlobalCleanup),
{
    let mut t = Tally { area: 0, projection: 0, context: 0, cleanup: 0 };
    let mut i: usize = 0;
    proof {
        assert(plan@.take(0) =~= Seq::<TeardownStep>::empty());
    }
    while i < plan.len()
        invariant
            i <= plan@.len(),
            t.area == step_count(plan@.take(i as int), TeardownStep::ReleaseArea),
            t.projection == step_count(plan@.take(i as int), TeardownStep::ReleaseProjection),
            t.context == step_count(plan@.take(i as int), TeardownStep::ReleaseContext),
            t.cleanup == step_count(plan@.take(i as int), TeardownStep::GlobalCleanup),
        decreases plan@.len() - i,
    {
        proof {
            assert(plan@.take(i + 1).drop_last() =~= plan@.take(i as int));
            assert(plan@.take(i + 1).last() == plan@[i as int]);
            lemma_step_count_le_len(plan@.take(i as int), TeardownStep::ReleaseArea);
            lemma_step_count_le_len(plan@.take(i as int), TeardownStep::ReleaseProjection);
            lemma_step_count_le_len(plan@.take(i as int), TeardownStep::ReleaseContext);
            lemma_step_count_le_len(plan@.take(i as int), TeardownStep::GlobalCleanup);
        }
        match plan[i] {
            TeardownStep::ReleaseArea => {
                t.area = t.area + 1;
            },
            TeardownStep::ReleaseProjection => {
                t.projection = t.projection + 1;
            },
            TeardownStep::ReleaseContext => {
                t.context = t.context + 1;
            },
            TeardownStep::GlobalCleanup => {
                t.cleanup = t.cleanup + 1;
            },
        }
        i = i + 1;
    }
    proof {
        assert(plan@.take(plan@.len() as int) =~= plan@);
    }
    t
}

/// The model of one resource bundle: a context, a projection object built
/// from it, and optionally an area-of-use object, acquired together for a
/// single transform and released together. Taking the bundle by value in
/// `release` makes the lifecycle strictly acquire-once/release-once: a
/// released bundle cannot be released again or used further.
pub struct Bundle {
    has_area: bool,
}

impl Bundle {
    /// Whether this bundle holds an area-of-use object.
    pub closed spec fn spec_has_area(self) -> bool {
        self.has_area
    }

    /// Record the acquisition of one bundle of live native resources.
    pub fn acquire(has_area: bool) -> (b: Bundle)
        ensures
            b.spec_has_area() == has_area,
    {
        Bundle { has_area }
    }

    /// Whether this bundle holds an area-of-use object.
    pub fn holds_area(&self) -> (r: bool)
        ensures
            r == self.spec_has_area(),
    {
        self.has_area
    }

    /// Give up the bundle and hand back the release sequence its owner
    /// must now execute, step by step, in order. The sequence is safe:
    /// every resource the bundle held is released exactly once, the
    /// projection object before the context, and the process-wide cleanup
    /// last of all.
    pub fn release(self) -> (plan: Vec<TeardownStep>)
        ensures
            plan@ == spec_teardown_plan(self.spec_has_area()),
            teardown_safe(plan@, self.spec_has_area()),
    {
        proof {
            lemma_teardown_plan_safe(self.has_area);
        }
        teardown_plan(self.has_area)
    }
}

} // verus!
