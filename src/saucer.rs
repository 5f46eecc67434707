//! Tasks that describe themselves and run, and the group that runs two of
//! them in parallel.
use vstd::prelude::*;
use vstd::string::*;

use crate::failure::{joined, join_outcome, SauceError};
use crate::logger::Logger;
use crate::text::{contains, contains_str, decimal, decimal_string, lemma_contains_within};
use crate::timer::{elapsed_text, Timer};

verus! {

/// A task: something that describes itself and can be run.
///
/// `prefix` is a short tag put in front of the task's log lines, and
/// `description` a stable label. Neither depends on whether the task has run.
///
/// What each method returns is described by a relation. A task that says
/// nothing more (as tasks written outside this library do) allows any
/// string and any outcome; the tasks of this library state theirs exactly.
pub trait Saucer: Sized + Sync {
    /// Whether `s` may be what `prefix` returns.
    closed spec fn prefix_is(&self, s: Seq<char>) -> bool {
        true
    }

    /// Whether `s` may be what `description` returns.
    closed spec fn description_is(&self, s: Seq<char>) -> bool {
        true
    }

    /// Whether `r` may be the outcome of `beam`.
    closed spec fn outcome_is(&self, r: Result<(), SauceError>) -> bool {
        true
    }

    /// Runs the task once. A failure says what went wrong.
    fn beam(&self) -> (r: Result<(), SauceError>)
        ensures
            self.outcome_is(r),
    ;

    /// The prefix for the task's log lines.
    fn prefix(&self) -> (r: String)
        ensures
            self.prefix_is(r@),
    ;

    /// The description of the task.
    fn description(&self) -> (r: String)
        ensures
            self.description_is(r@),
    ;
}

/// A task that does nothing and succeeds. It has an empty prefix and an
/// empty description, so a group leaves it out of its own description.
pub struct EmptySaucer {}

impl EmptySaucer {
    /// A task that does nothing.
    pub fn new() -> (r: EmptySaucer) {
        EmptySaucer {  }
    }
}

impl Saucer for EmptySaucer {
    open spec fn prefix_is(&self, s: Seq<char>) -> bool {
        s.len() == 0
    }

    open spec fn description_is(&self, s: Seq<char>) -> bool {
        s.len() == 0
    }

    open spec fn outcome_is(&self, r: Result<(), SauceError>) -> bool {
        r is Ok
    }

    fn beam(&self) -> (r: Result<(), SauceError>) {
        Ok(())
    }

    fn prefix(&self) -> (r: String) {
        String::new()
    }

    fn description(&self) -> (r: String) {
        String::new()
    }
}

/// The position label of a group: `[n/total] `.
pub open spec fn position_label(stage_num: nat, total_stages: nat) -> Seq<char> {
    "["@ + decimal(stage_num) + "/"@ + decimal(total_stages) + "] "@
}

/// What a child contributes to a group's description: nothing when its
/// rendering already holds the group's own prefix, else its rendering.
pub open spec fn contribution(child: Seq<char>, own_prefix: Seq<char>) -> Seq<char> {
    if contains(child, own_prefix) {
        Seq::empty()
    } else {
        child
    }
}

/// A group's description from its children's contributions: both, joined by
/// ` & `; the one that is not empty; or, when both are empty, the group's
/// full prefix.
pub open spec fn composed(first: Seq<char>, second: Seq<char>, full_prefix: Seq<char>) -> Seq<
    char,
> {
    if first.len() == 0 && second.len() == 0 {
        full_prefix
    } else if first.len() == 0 {
        second
    } else if second.len() == 0 {
        first
    } else {
        first + " & "@ + second
    }
}

/// Two tasks that run in parallel. Running the group always waits for both,
/// and a failure keeps what each failed branch reported.
///
/// The children's prefixes and descriptions are read once, when the group
/// is made: they do not change while a task exists.
pub struct ParallelSaucer<F: Saucer, S: Saucer> {
    stage_num: usize,
    total_stages: usize,
    prefix: String,
    first: Box<F>,
    second: Box<S>,
    first_prefix: String,
    first_description: String,
    second_prefix: String,
    second_description: String,
}

impl<F: Saucer, S: Saucer> ParallelSaucer<F, S> {
    /// The stage number that the group was made with.
    pub closed spec fn stage_num(&self) -> nat {
        self.stage_num as nat
    }

    /// The number of stages that the group was made with.
    pub closed spec fn total_stages(&self) -> nat {
        self.total_stages as nat
    }

    /// The prefix that the group was made with, before its position label.
    pub closed spec fn own_prefix(&self) -> Seq<char> {
        self.prefix@
    }

    /// The first child.
    pub closed spec fn first(&self) -> F {
        *self.first
    }

    /// The second child.
    pub closed spec fn second(&self) -> S {
        *self.second
    }

    /// The first child's prefix, read when the group was made.
    pub closed spec fn first_prefix_view(&self) -> Seq<char> {
        self.first_prefix@
    }

    /// The first child's description, read when the group was made.
    pub closed spec fn first_description_view(&self) -> Seq<char> {
        self.first_description@
    }

    /// The second child's prefix, read when the group was made.
    pub closed spec fn second_prefix_view(&self) -> Seq<char> {
        self.second_prefix@
    }

    /// The second child's description, read when the group was made.
    pub closed spec fn second_description_view(&self) -> Seq<char> {
        self.second_description@
    }

    /// The strings read from the children are what they return.
    pub open spec fn wf(&self) -> bool {
        &&& self.first().prefix_is(self.first_prefix_view())
        &&& self.first().description_is(self.first_description_view())
        &&& self.second().prefix_is(self.second_prefix_view())
        &&& self.second().description_is(self.second_description_view())
    }

    /// How the first child shows itself in the group's description.
    pub open spec fn first_rendering(&self) -> Seq<char> {
        self.first_prefix_view() + self.first_description_view()
    }

    /// How the second child shows itself in the group's description.
    pub open spec fn second_rendering(&self) -> Seq<char> {
        self.second_prefix_view() + self.second_description_view()
    }

    /// The group's prefix followed by its position label.
    pub open spec fn prefix_view(&self) -> Seq<char> {
        self.own_prefix() + position_label(self.stage_num(), self.total_stages())
    }

    /// The children's contributions composed as `composed` states.
    pub open spec fn description_view(&self) -> Seq<char> {
        composed(
            contribution(self.first_rendering(), self.own_prefix()),
            contribution(self.second_rendering(), self.own_prefix()),
            self.prefix_view(),
        )
    }

    /// The outcomes of a run of the group: the children's own outcomes,
    /// merged as `joined` states. A failed child is named after the group's
    /// prefix and position, by its own prefix and description; a failure of
    /// both names the group by its description.
    pub open spec fn joined_outcome(&self, r: Result<(), SauceError>) -> bool {
        exists|a: Result<(), SauceError>, b: Result<(), SauceError>, m: nat|
            self.first().outcome_is(a) && self.second().outcome_is(b) && joined(
                self.prefix_view() + self.first_prefix_view(),
                self.first_description_view(),
                self.prefix_view() + self.second_prefix_view(),
                self.second_description_view(),
                self.prefix_view() + self.first_prefix_view() + self.second_prefix_view(),
                Seq::empty(),
                self.description_view(),
                elapsed_text(m),
                a,
                b,
                r,
            )
    }

    /// The first child, to run on its own.
    pub fn first_child(&self) -> (r: &F)
        ensures
            *r == self.first(),
    {
        &*self.first
    }

    /// The second child, to run on its own.
    pub fn second_child(&self) -> (r: &S)
        ensures
            *r == self.second(),
    {
        &*self.second
    }

    /// A group of `first` and `second`, labelled with `prefix` and its
    /// position `stage_num` of `total_stages`.
    pub fn new(first: F, second: S, prefix: &str, stage_num: usize, total_stages: usize) -> (r:
        ParallelSaucer<F, S>)
        ensures
            r.first() == first,
            r.second() == second,
            r.own_prefix() == prefix@,
            r.stage_num() == stage_num,
            r.total_stages() == total_stages,
            r.wf(),
    {
        let first_prefix = first.prefix();
        let first_description = first.description();
        let second_prefix = second.prefix();
        let second_description = second.description();
        ParallelSaucer {
            stage_num,
            total_stages,
            prefix: String::from_str(prefix),
            first: Box::new(first),
            second: Box::new(second),
            first_prefix,
            first_description,
            second_prefix,
            second_description,
        }
    }

    /// Runs both children, in parallel, waits for both, and merges their
    /// outcomes as `joined_outcome` states; the elapsed time is that of the
    /// join.
    pub fn join(&self) -> (r: Result<(), SauceError>)
        ensures
            self.joined_outcome(r),
    {
        let timer = Timer::start();
        let first = &*self.first;
        let second = &*self.second;
        let run_first = || -> (r: Result<(), SauceError>)
            ensures
                first.outcome_is(r),
            {
                first.beam()
            };
        let run_second = || -> (r: Result<(), SauceError>)
            ensures
                second.outcome_is(r),
            {
                second.beam()
            };
        let (a, b) = join_both(run_first, run_second);
        let elapsed = timer.stop();
        let own = self.prefix_text();
        let first_label = own.clone().concat(self.first_prefix.as_str());
        let second_label = own.clone().concat(self.second_prefix.as_str());
        let both_label = own.concat(self.first_prefix.as_str()).concat(self.second_prefix.as_str());
        let group = self.description_text();
        proof {
            reveal_strlit("");
        }
        let r = join_outcome(
            first_label.as_str(),
            self.first_description.as_str(),
            second_label.as_str(),
            self.second_description.as_str(),
            both_label.as_str(),
            "",
            group.as_str(),
            elapsed.as_str(),
            a,
            b,
        );
        assert(self.first().outcome_is(a) && self.second().outcome_is(b));
        assert(""@ =~= Seq::<char>::empty());
        r
    }

    /// The group's prefix, as `prefix_view` states.
    fn prefix_text(&self) -> (r: String)
        ensures
            r@ == self.prefix_view(),
    {
        String::from_str(self.prefix.as_str()).concat("[").concat(
            decimal_string(self.stage_num as u128).as_str(),
        ).concat("/").concat(decimal_string(self.total_stages as u128).as_str()).concat("] ")
    }

    /// The group's description, as `description_view` states.
    fn description_text(&self) -> (r: String)
        ensures
            r@ == self.description_view(),
    {
        let first = self.first_prefix.clone().concat(self.first_description.as_str());
        let second = self.second_prefix.clone().concat(self.second_description.as_str());
        let first = if contains_str(first.as_str(), self.prefix.as_str()) {
            String::new()
        } else {
            first
        };
        let second = if contains_str(second.as_str(), self.prefix.as_str()) {
            String::new()
        } else {
            second
        };
        if first.as_str().is_empty() && second.as_str().is_empty() {
            self.prefix_text()
        } else if first.as_str().is_empty() {
            second
        } else if second.as_str().is_empty() {
            first
        } else {
            first.concat(" & ").concat(second.as_str())
        }
    }
}

/// Relies on `rayon::join`: calls both closures, possibly in parallel, waits
/// until both have returned, and hands back both results in order.
#[verifier::external_body]
pub(crate) fn join_both<A, B>(a: A, b: B) -> (r: (Result<(), SauceError>, Result<(), SauceError>))
    where
        A: FnOnce() -> Result<(), SauceError> + Send,
        B: FnOnce() -> Result<(), SauceError> + Send,
    requires
        a.requires(()),
        b.requires(()),
    ensures
        a.ensures((), r.0),
        b.ensures((), r.1),
{
    rayon::join(a, b)
}

impl<F: Saucer, S: Saucer> Saucer for ParallelSaucer<F, S> {
    open spec fn prefix_is(&self, s: Seq<char>) -> bool {
        s == self.prefix_view()
    }

    open spec fn description_is(&self, s: Seq<char>) -> bool {
        s == self.description_view()
    }

    open spec fn outcome_is(&self, r: Result<(), SauceError>) -> bool {
        self.joined_outcome(r)
    }

    /// Runs the group as `join` does, and logs how long it took when it
    /// succeeded. A failure passes through unchanged.
    fn beam(&self) -> (r: Result<(), SauceError>) {
        let timer = Timer::start();
        let r = self.join();
        if r.is_err() {
            return r;
        }
        let elapsed = timer.stop();
        let line = self.prefix_text().concat(self.description_text().as_str()).concat(
            " completed in ",
        ).concat(elapsed.as_str());
        Logger::info(line.as_str());
        r
    }

    fn prefix(&self) -> (r: String) {
        self.prefix_text()
    }

    fn description(&self) -> (r: String) {
        self.description_text()
    }
}

/// When each child of a group can only succeed, so can the group.
pub proof fn lemma_group_succeeds<F: Saucer, S: Saucer>(
    group: ParallelSaucer<F, S>,
    r: Result<(), SauceError>,
)
    requires
        forall|a: Result<(), SauceError>| #[trigger] group.first().outcome_is(a) ==> a is Ok,
        forall|b: Result<(), SauceError>| #[trigger] group.second().outcome_is(b) ==> b is Ok,
        group.joined_outcome(r),
    ensures
        r is Ok,
{
    let (a, b, m) = choose|a: Result<(), SauceError>, b: Result<(), SauceError>, m: nat|
        group.first().outcome_is(a) && group.second().outcome_is(b) && joined(
            group.prefix_view() + group.first_prefix_view(),
            group.first_description_view(),
            group.prefix_view() + group.second_prefix_view(),
            group.second_description_view(),
            group.prefix_view() + group.first_prefix_view() + group.second_prefix_view(),
            Seq::empty(),
            group.description_view(),
            elapsed_text(m),
            a,
            b,
            r,
        );
    assert(a is Ok && b is Ok);
}

/// A group nested as the first child of a group with the same prefix is left
/// out of the outer description, so that prefix is not shown twice: the outer
/// description is the second child's rendering alone, and it does not hold the
/// shared prefix.
pub proof fn lemma_nested_prefix_once<A: Saucer, B: Saucer, C: Saucer>(
    outer: ParallelSaucer<ParallelSaucer<A, B>, C>,
)
    requires
        outer.wf(),
        outer.first().own_prefix() == outer.own_prefix(),
        outer.second_rendering().len() > 0,
        !contains(outer.second_rendering(), outer.own_prefix()),
    ensures
        outer.description_view() == outer.second_rendering(),
        !contains(outer.description_view(), outer.own_prefix()),
{
    let inner = outer.first();
    let p = outer.own_prefix();
    let rest = position_label(inner.stage_num(), inner.total_stages())
        + outer.first_description_view();
    assert(outer.first_rendering() == Seq::<char>::empty() + p + rest);
    lemma_contains_within(Seq::<char>::empty(), p, rest);
}

} // verus!
