//! Tasks tagged with an emoji, and numbered stages that run two of them in
//! parallel.
use std::marker::PhantomData;
use vstd::prelude::*;
use vstd::string::*;

use crate::failure::{group_note, group_note_text, joined, join_outcome, SauceError};
use crate::logger::Logger;
use crate::saucer::join_both;
use crate::text::{decimal, decimal_string};
use crate::timer::{elapsed_text, Timer};

verus! {

/// A task that runs in a stage: it describes itself, carries an emoji for
/// its log lines, and can be run.
///
/// What each method returns is described by a relation. A task that says
/// nothing more (as tasks written outside this library do) allows any
/// string and any outcome; the stages of this library state theirs exactly.
pub trait Saucer: Sized + Sync {
    /// Whether `s` may be what `emoji` returns.
    closed spec fn emoji_is(&self, s: Seq<char>) -> bool {
        true
    }

    /// Whether `s` may be what `description` returns.
    closed spec fn description_is(&self, s: Seq<char>) -> bool {
        true
    }

    /// Whether `r` may be the outcome of `run`.
    closed spec fn outcome_is(&self, r: Result<(), SauceError>) -> bool {
        true
    }

    /// Runs the task once. A failure says what went wrong.
    fn run(&self) -> (r: Result<(), SauceError>)
        ensures
            self.outcome_is(r),
    ;

    /// The emoji for the task's log lines.
    fn emoji(&self) -> (r: String)
        ensures
            self.emoji_is(r@),
    ;

    /// The description of the task.
    fn description(&self) -> (r: String)
        ensures
            self.description_is(r@),
    ;
}

/// The outcomes of running `first` and `second` in parallel under `emoji` and
/// `description`: their own outcomes, merged as `joined` states. A failed
/// task is named by its emoji and description, followed by `description` in
/// parentheses; a failure of both is named by `emoji` and `description`.
pub open spec fn pair_outcome<F: Saucer, S: Saucer>(
    first: F,
    second: S,
    emoji: Seq<char>,
    description: Seq<char>,
    r: Result<(), SauceError>,
) -> bool {
    exists|
        a: Result<(), SauceError>,
        b: Result<(), SauceError>,
        m: nat,
        fe: Seq<char>,
        fd: Seq<char>,
        se: Seq<char>,
        sd: Seq<char>,
    |
        {
            &&& first.emoji_is(fe) && first.description_is(fd) && first.outcome_is(a)
            &&& second.emoji_is(se) && second.description_is(sd) && second.outcome_is(b)
            &&& joined(
                fe + " "@,
                fd,
                se + " "@,
                sd,
                emoji + " "@,
                group_note(description),
                description,
                elapsed_text(m),
                a,
                b,
                r,
            )
        }
}

/// Runs two tasks in parallel and merges their outcomes.
pub struct ParallelSaucers<F: Saucer, S: Saucer> {
    phantom_first: PhantomData<F>,
    phantom_second: PhantomData<S>,
}

impl<F: Saucer, S: Saucer> ParallelSaucers<F, S> {
    /// Runs `first` and `second`, possibly in parallel, waits for both, and
    /// merges their outcomes as `pair_outcome` states.
    pub fn run(emoji: &str, description: &str, first: &F, second: &S) -> (r: Result<
        (),
        SauceError,
    >)
        ensures
            pair_outcome(*first, *second, emoji@, description@, r),
    {
        let timer = Timer::start();
        let run_first = || -> (r: Result<(), SauceError>)
            ensures
                first.outcome_is(r),
            {
                first.run()
            };
        let run_second = || -> (r: Result<(), SauceError>)
            ensures
                second.outcome_is(r),
            {
                second.run()
            };
        let (a, b) = join_both(run_first, run_second);
        let elapsed = timer.stop();
        let first_emoji = first.emoji();
        let second_emoji = second.emoji();
        let first_description = first.description();
        let second_description = second.description();
        let first_label = first_emoji.clone().concat(" ");
        let second_label = second_emoji.clone().concat(" ");
        let both_label = String::from_str(emoji).concat(" ");
        let note = group_note_text(description);
        let r = join_outcome(
            first_label.as_str(),
            first_description.as_str(),
            second_label.as_str(),
            second_description.as_str(),
            both_label.as_str(),
            note.as_str(),
            description,
            elapsed.as_str(),
            a,
            b,
        );
        assert(first.emoji_is(first_emoji@) && first.description_is(first_description@)
            && first.outcome_is(a) && second.emoji_is(second_emoji@) && second.description_is(
            second_description@,
        ) && second.outcome_is(b));
        r
    }
}

/// The emoji of a stage.
pub open spec fn stage_emoji() -> Seq<char> {
    "🪩 "@
}

/// A stage's description: `stage [n/total]`.
pub open spec fn stage_description(stage_num: nat, total_stages: nat) -> Seq<char> {
    "stage ["@ + decimal(stage_num) + "/"@ + decimal(total_stages) + "]"@
}

/// A numbered stage of a pipeline that runs two tasks in parallel.
pub struct SauceStage<F: Saucer, S: Saucer> {
    stage_num: usize,
    total_stages: usize,
    first: Box<F>,
    second: Box<S>,
}

impl<F: Saucer, S: Saucer> SauceStage<F, S> {
    /// The stage's position.
    pub closed spec fn stage_num(&self) -> nat {
        self.stage_num as nat
    }

    /// The number of stages of the pipeline.
    pub closed spec fn total_stages(&self) -> nat {
        self.total_stages as nat
    }

    /// The first task.
    pub closed spec fn first(&self) -> F {
        *self.first
    }

    /// The second task.
    pub closed spec fn second(&self) -> S {
        *self.second
    }

    /// A stage's position lies within the pipeline.
    pub open spec fn wf(&self) -> bool {
        1 <= self.stage_num() <= self.total_stages()
    }

    /// Stage `stage_num` of `total_stages`, running `first` and `second`.
    pub fn new(stage_num: usize, total_stages: usize, first: F, second: S) -> (r: SauceStage<F, S>)
        requires
            1 <= stage_num <= total_stages,
        ensures
            r.wf(),
            r.stage_num() == stage_num,
            r.total_stages() == total_stages,
            r.first() == first,
            r.second() == second,
    {
        SauceStage { stage_num, total_stages, first: Box::new(first), second: Box::new(second) }
    }

    /// The stage's description, as `stage_description` states.
    fn description_text(&self) -> (r: String)
        ensures
            r@ == stage_description(self.stage_num(), self.total_stages()),
    {
        String::from_str("stage [").concat(decimal_string(self.stage_num as u128).as_str()).concat(
            "/",
        ).concat(decimal_string(self.total_stages as u128).as_str()).concat("]")
    }
}

impl<F: Saucer, S: Saucer> Saucer for SauceStage<F, S> {
    open spec fn emoji_is(&self, s: Seq<char>) -> bool {
        s == stage_emoji()
    }

    open spec fn description_is(&self, s: Seq<char>) -> bool {
        s == stage_description(self.stage_num(), self.total_stages())
    }

    /// Both tasks' outcomes merged under the stage's emoji and description.
    open spec fn outcome_is(&self, r: Result<(), SauceError>) -> bool {
        pair_outcome(
            self.first(),
            self.second(),
            stage_emoji(),
            stage_description(self.stage_num(), self.total_stages()),
            r,
        )
    }

    /// Runs both tasks as `ParallelSaucers::run` does, under the stage's
    /// emoji and description, and logs how long the stage took when it
    /// succeeded. A failure passes through unchanged.
    fn run(&self) -> (r: Result<(), SauceError>) {
        let timer = Timer::start();
        let emoji = String::from_str("🪩 ");
        let description = self.description_text();
        let r = ParallelSaucers::<F, S>::run(
            emoji.as_str(),
            description.as_str(),
            &*self.first,
            &*self.second,
        );
        if r.is_err() {
            return r;
        }
        let elapsed = timer.stop();
        let line = description.concat(" completed in ").concat(elapsed.as_str());
        Logger::info(line.as_str());
        r
    }

    fn emoji(&self) -> (r: String) {
        String::from_str("🪩 ")
    }

    fn description(&self) -> (r: String) {
        self.description_text()
    }
}

} // verus!
