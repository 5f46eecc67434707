//! The front-end bundle pipeline: templated HTML and the asset bucket, with
//! the node dependencies beside them unless they are skipped, then CSS and
//! JavaScript.
use vstd::prelude::*;
use vstd::string::*;

use crate::failure::SauceError;
use crate::saucer::{lemma_group_succeeds, ParallelSaucer, Saucer};

verus! {

/// The prefix that every group of the pipeline carries.
pub open spec fn stage_prefix() -> Seq<char> {
    "🛸 stage "@
}

/// The number of sequential stages of the pipeline.
pub const TOTAL_STAGES: usize = 2;

/// The whole bundle, in two stages: first `html ∥ bucket`, with `deps` beside
/// them unless node dependencies are skipped; then `css ∥ js`. The second
/// stage starts only after the first succeeded.
pub struct AllCommands<H: Saucer, B: Saucer, D: Saucer, C: Saucer, J: Saucer> {
    skip_node_deps: bool,
    setup: ParallelSaucer<ParallelSaucer<H, B>, D>,
    finish: ParallelSaucer<C, J>,
}

/// `group` runs `first` and `second` under the pipeline's prefix, at position
/// `stage_num` of `total_stages`, and holds their prefixes and descriptions.
pub open spec fn is_group<F: Saucer, S: Saucer>(
    group: ParallelSaucer<F, S>,
    first: F,
    second: S,
    stage_num: nat,
    total_stages: nat,
) -> bool {
    &&& group.first() == first
    &&& group.second() == second
    &&& group.own_prefix() == stage_prefix()
    &&& group.stage_num() == stage_num
    &&& group.total_stages() == total_stages
    &&& group.wf()
}

impl<H: Saucer, B: Saucer, D: Saucer, C: Saucer, J: Saucer> AllCommands<H, B, D, C, J> {
    /// Whether node dependencies are skipped.
    pub closed spec fn skips_node_deps(&self) -> bool {
        self.skip_node_deps
    }

    /// The first stage with the dependency install beside it.
    pub closed spec fn setup(&self) -> ParallelSaucer<ParallelSaucer<H, B>, D> {
        self.setup
    }

    /// The last stage.
    pub closed spec fn finish(&self) -> ParallelSaucer<C, J> {
        self.finish
    }

    /// The outcomes of the first stage: `html ∥ bucket` alone when node
    /// dependencies are skipped, else with `deps` beside them.
    pub open spec fn first_stage_outcome(&self, r: Result<(), SauceError>) -> bool {
        if self.skips_node_deps() {
            self.setup().first().outcome_is(r)
        } else {
            self.setup().outcome_is(r)
        }
    }

    /// The outcomes of the whole pipeline: a failure of the first stage,
    /// unchanged; else the outcome of the last stage.
    pub open spec fn pipeline_outcome(&self, r: Result<(), SauceError>) -> bool {
        exists|a: Result<(), SauceError>|
            self.first_stage_outcome(a) && if a is Err {
                r == a
            } else {
                self.finish().outcome_is(r)
            }
    }

    /// The pipeline over the given tasks: stage 1 of 2 for the first groups,
    /// stage 2 of 2 for the last.
    pub fn new(skip_node_deps: bool, html: H, bucket: B, deps: D, css: C, js: J) -> (r: Self)
        ensures
            r.skips_node_deps() == skip_node_deps,
            is_group(r.setup().first(), html, bucket, 1, TOTAL_STAGES as nat),
            is_group(r.setup(), r.setup().first(), deps, 1, TOTAL_STAGES as nat),
            is_group(r.finish(), css, js, 2, TOTAL_STAGES as nat),
    {
        AllCommands {
            skip_node_deps,
            setup: Self::deps_and_html_and_bucket(html, bucket, deps, 1, TOTAL_STAGES),
            finish: Self::css_and_js(css, js, 2, TOTAL_STAGES),
        }
    }

    /// `html ∥ bucket`, beside `deps`, all at `current_stage`.
    pub fn deps_and_html_and_bucket(
        html: H,
        bucket: B,
        deps: D,
        current_stage: usize,
        total_stages: usize,
    ) -> (r: ParallelSaucer<ParallelSaucer<H, B>, D>)
        ensures
            is_group(r.first(), html, bucket, current_stage as nat, total_stages as nat),
            is_group(r, r.first(), deps, current_stage as nat, total_stages as nat),
    {
        ParallelSaucer::new(
            Self::html_and_bucket(html, bucket, current_stage, total_stages),
            deps,
            "🛸 stage ",
            current_stage,
            total_stages,
        )
    }

    /// `html ∥ bucket` at `current_stage`.
    pub fn html_and_bucket(html: H, bucket: B, current_stage: usize, total_stages: usize) -> (r:
        ParallelSaucer<H, B>)
        ensures
            is_group(r, html, bucket, current_stage as nat, total_stages as nat),
    {
        ParallelSaucer::new(html, bucket, "🛸 stage ", current_stage, total_stages)
    }

    /// `css ∥ js` at `current_stage`.
    pub fn css_and_js(css: C, js: J, current_stage: usize, total_stages: usize) -> (r:
        ParallelSaucer<C, J>)
        ensures
            is_group(r, css, js, current_stage as nat, total_stages as nat),
    {
        ParallelSaucer::new(css, js, "🛸 stage ", current_stage, total_stages)
    }

    /// The description of the group that runs first: `html ∥ bucket` alone
    /// when node dependencies are skipped, else with `deps` beside them.
    pub fn first_stage_description(&self) -> (r: String)
        ensures
            r@ == if self.skips_node_deps() {
                self.setup().first().description_view()
            } else {
                self.setup().description_view()
            },
    {
        if self.skip_node_deps {
            self.setup.first_child().description()
        } else {
            self.setup.description()
        }
    }

    /// The description of the group that runs last.
    pub fn last_stage_description(&self) -> (r: String)
        ensures
            r@ == self.finish().description_view(),
    {
        self.finish.description()
    }
}

impl<H: Saucer, B: Saucer, D: Saucer, C: Saucer, J: Saucer> Saucer for AllCommands<H, B, D, C, J> {
    open spec fn prefix_is(&self, s: Seq<char>) -> bool {
        s == stage_prefix()
    }

    open spec fn description_is(&self, s: Seq<char>) -> bool {
        s == "cargo xtask web bundle all"@
    }

    open spec fn outcome_is(&self, r: Result<(), SauceError>) -> bool {
        self.pipeline_outcome(r)
    }

    /// Runs the first stage; only when it succeeded, the last one. The first
    /// failure is returned unchanged.
    fn beam(&self) -> (r: Result<(), SauceError>) {
        let first = if self.skip_node_deps {
            self.setup.first_child().beam()
        } else {
            self.setup.beam()
        };
        assert(self.first_stage_outcome(first));
        if first.is_err() {
            return first;
        }
        let r = self.finish.beam();
        assert(self.first_stage_outcome(first));
        r
    }

    fn prefix(&self) -> (r: String) {
        String::from_str("🛸 stage ")
    }

    fn description(&self) -> (r: String) {
        String::from_str("cargo xtask web bundle all")
    }
}

/// When every task of the pipeline can only succeed, so can the pipeline.
pub proof fn lemma_pipeline_succeeds<H: Saucer, B: Saucer, D: Saucer, C: Saucer, J: Saucer>(
    all: AllCommands<H, B, D, C, J>,
    r: Result<(), SauceError>,
)
    requires
        forall|x: Result<(), SauceError>| #[trigger] all.setup().first().first().outcome_is(x) ==> x is Ok,
        forall|x: Result<(), SauceError>| #[trigger] all.setup().first().second().outcome_is(x) ==> x is Ok,
        forall|x: Result<(), SauceError>| #[trigger] all.setup().second().outcome_is(x) ==> x is Ok,
        forall|x: Result<(), SauceError>| #[trigger] all.finish().first().outcome_is(x) ==> x is Ok,
        forall|x: Result<(), SauceError>| #[trigger] all.finish().second().outcome_is(x) ==> x is Ok,
        all.pipeline_outcome(r),
    ensures
        r is Ok,
{
    let a = choose|a: Result<(), SauceError>|
        all.first_stage_outcome(a) && if a is Err {
            r == a
        } else {
            all.finish().outcome_is(r)
        };
    assert forall|x: Result<(), SauceError>| #[trigger] all.setup().first().outcome_is(x) implies x is Ok by {
        lemma_group_succeeds(all.setup().first(), x);
    }
    if all.skips_node_deps() {
        assert(a is Ok);
    } else {
        lemma_group_succeeds(all.setup(), a);
    }
    lemma_group_succeeds(all.finish(), r);
}

/// Runs `next` only when the stage before it succeeded: a failure of that
/// stage is the outcome, unchanged, and `next` does not run.
pub fn after_stage<S: Saucer>(previous: Result<(), SauceError>, next: &S) -> (r: Result<
    (),
    SauceError,
>)
    ensures
        previous is Err ==> r == previous,
        previous is Ok ==> next.outcome_is(r),
{
    match previous {
        Err(e) => Err(e),
        Ok(()) => next.beam(),
    }
}

/// The line that reports a finished build that took `elapsed`.
pub open spec fn success_line(elapsed: Seq<char>) -> Seq<char> {
    "🎉 Success in "@ + elapsed + "!"@
}

/// The line that reports a finished build, as `success_line` states.
pub fn success_message(elapsed: &str) -> (r: String)
    ensures
        r@ == success_line(elapsed@),
{
    String::from_str("🎉 Success in ").concat(elapsed).concat("!")
}

} // verus!
