//! Failures of tasks and of their compositions, and how the outcomes of two
//! parallel branches merge into one.
use vstd::prelude::*;
use vstd::string::*;

use crate::text::{contains, lemma_contains_within, occurs_at};

verus! {

/// Why a task, or a composition of tasks, failed.
///
/// A failure is a chain of human-readable lines: the outermost context first,
/// the innermost cause last. A failure of both branches of a parallel group
/// keeps both chains.
#[derive(Debug)]
pub enum SauceError {
    /// A failure reported by a task itself.
    Message { text: String },
    /// A failure wrapped with a line that says where it happened.
    Context { context: String, source: Box<SauceError> },
    /// One branch of a parallel group failed; `description` names that branch.
    OneFailed { context: String, description: String, cause: Box<SauceError> },
    /// Both branches of a parallel group failed.
    BothFailed {
        context: String,
        first_description: String,
        first: Box<SauceError>,
        second_description: String,
        second: Box<SauceError>,
    },
}

/// The line that separates the entries of a failure's text.
pub open spec fn newline() -> Seq<char> {
    seq!['\n']
}

impl SauceError {
    /// The full text of the failure: every line of its chain, joined by newlines.
    pub open spec fn text(self) -> Seq<char>
        decreases self,
    {
        match self {
            SauceError::Message { text } => text@,
            SauceError::Context { context, source } => context@ + newline() + source.text(),
            SauceError::OneFailed { context, description, cause } => context@ + newline()
                + cause.text(),
            SauceError::BothFailed {
                context,
                first_description,
                first,
                second_description,
                second,
            } => context@ + newline() + first_description@ + ": "@ + first.text() + newline()
                + second_description@ + ": "@ + second.text(),
        }
    }

    /// The failed branches that a failure names: one entry for each, with the
    /// branch's description and its own failure. A failure that does not come
    /// from a parallel group names none.
    pub open spec fn causes(self) -> Seq<(Seq<char>, SauceError)> {
        match self {
            SauceError::OneFailed { description, cause, .. } => seq![(description@, *cause)],
            SauceError::BothFailed { first_description, first, second_description, second, .. } =>
                seq![(first_description@, *first), (second_description@, *second)],
            _ => seq![],
        }
    }

    /// A failure that a task reports with one line of text.
    pub fn message(text: &str) -> (r: SauceError)
        ensures
            r matches SauceError::Message { text: t } && t@ == text@,
            r.text() == text@,
    {
        SauceError::Message { text: String::from_str(text) }
    }

    /// Wraps this failure with one more line of context.
    pub fn context(self, context: &str) -> (r: SauceError)
        ensures
            r.text() == context@ + newline() + self.text(),
            r.causes().len() == 0,
    {
        SauceError::Context { context: String::from_str(context), source: Box::new(self) }
    }

    /// The full text of the failure, as `text` gives it.
    pub fn render(&self) -> (r: String)
        ensures
            r@ == self.text(),
        decreases self,
    {
        proof {
            reveal_strlit("\n");
        }
        match self {
            SauceError::Message { text } => text.clone(),
            SauceError::Context { context, source } => {
                let inner = source.render();
                context.clone().concat("\n").concat(inner.as_str())
            },
            SauceError::OneFailed { context, cause, .. } => {
                let inner = cause.render();
                context.clone().concat("\n").concat(inner.as_str())
            },
            SauceError::BothFailed {
                context,
                first_description,
                first,
                second_description,
                second,
            } => {
                let a = first.render();
                let b = second.render();
                context.clone().concat("\n").concat(first_description.as_str()).concat(": ").concat(
                    a.as_str(),
                ).concat("\n").concat(second_description.as_str()).concat(": ").concat(b.as_str())
            },
        }
    }
}

/// The line that reports a group in which one branch, described by
/// `description`, failed; `note` follows the description (it may name the
/// group, or be empty when `label` already does).
pub open spec fn one_failed_line(
    label: Seq<char>,
    description: Seq<char>,
    note: Seq<char>,
    elapsed: Seq<char>,
) -> Seq<char> {
    label + "❌ "@ + description + note + " failed with "@ + "1 error"@ + " in "@ + elapsed
}

/// The note that names a group in parentheses.
pub open spec fn group_note(group: Seq<char>) -> Seq<char> {
    " ("@ + group + ")"@
}

/// The line that reports a group in which both branches failed.
pub open spec fn both_failed_line(label: Seq<char>, group: Seq<char>, elapsed: Seq<char>) -> Seq<
    char,
> {
    label + "❌ '"@ + group + "' failed with "@ + "2 errors"@ + " in "@ + elapsed
}

/// What a parallel group reports, given the outcomes of its two branches.
///
/// Both succeed: success. One fails: a failure that names that branch once,
/// keeps its failure whole, and says which group failed and how long it took.
/// Both fail: a failure that keeps both branches' failures and says that
/// there were two errors.
pub open spec fn joined(
    first_label: Seq<char>,
    first_description: Seq<char>,
    second_label: Seq<char>,
    second_description: Seq<char>,
    both_label: Seq<char>,
    note: Seq<char>,
    group: Seq<char>,
    elapsed: Seq<char>,
    first: Result<(), SauceError>,
    second: Result<(), SauceError>,
    r: Result<(), SauceError>,
) -> bool {
    match (first, second) {
        (Ok(()), Ok(())) => r is Ok,
        (Err(e), Ok(())) => match r {
            Err(SauceError::OneFailed { context, description, cause }) => context@
                == one_failed_line(first_label, first_description, note, elapsed) && description@
                == first_description && *cause == e,
            _ => false,
        },
        (Ok(()), Err(e)) => match r {
            Err(SauceError::OneFailed { context, description, cause }) => context@
                == one_failed_line(second_label, second_description, note, elapsed)
                && description@ == second_description && *cause == e,
            _ => false,
        },
        (Err(e1), Err(e2)) => match r {
            Err(
                SauceError::BothFailed {
                    context,
                    first_description: d1,
                    first: f,
                    second_description: d2,
                    second: s,
                },
            ) => context@ == both_failed_line(both_label, group, elapsed) && d1@
                == first_description && *f == e1 && d2@ == second_description && *s == e2,
            _ => false,
        },
    }
}

/// Merges the outcomes of the two branches of a parallel group, as `joined`
/// states.
pub fn join_outcome(
    first_label: &str,
    first_description: &str,
    second_label: &str,
    second_description: &str,
    both_label: &str,
    note: &str,
    group: &str,
    elapsed: &str,
    first: Result<(), SauceError>,
    second: Result<(), SauceError>,
) -> (r: Result<(), SauceError>)
    ensures
        joined(
            first_label@,
            first_description@,
            second_label@,
            second_description@,
            both_label@,
            note@,
            group@,
            elapsed@,
            first,
            second,
            r,
        ),
{
    match (first, second) {
        (Ok(()), Ok(())) => Ok(()),
        (Err(e), Ok(())) => Err(
            SauceError::OneFailed {
                context: one_failed_message(first_label, first_description, note, elapsed),
                description: String::from_str(first_description),
                cause: Box::new(e),
            },
        ),
        (Ok(()), Err(e)) => Err(
            SauceError::OneFailed {
                context: one_failed_message(second_label, second_description, note, elapsed),
                description: String::from_str(second_description),
                cause: Box::new(e),
            },
        ),
        (Err(e1), Err(e2)) => Err(
            SauceError::BothFailed {
                context: both_failed_message(both_label, group, elapsed),
                first_description: String::from_str(first_description),
                first: Box::new(e1),
                second_description: String::from_str(second_description),
                second: Box::new(e2),
            },
        ),
    }
}

fn one_failed_message(label: &str, description: &str, note: &str, elapsed: &str) -> (r: String)
    ensures
        r@ == one_failed_line(label@, description@, note@, elapsed@),
{
    String::from_str(label).concat("❌ ").concat(description).concat(note).concat(
        " failed with ",
    ).concat("1 error").concat(" in ").concat(elapsed)
}

/// The note that names `group` in parentheses, as `group_note` states.
pub fn group_note_text(group: &str) -> (r: String)
    ensures
        r@ == group_note(group@),
{
    String::from_str(" (").concat(group).concat(")")
}

fn both_failed_message(label: &str, group: &str, elapsed: &str) -> (r: String)
    ensures
        r@ == both_failed_line(label@, group@, elapsed@),
{
    String::from_str(label).concat("❌ '").concat(group).concat("' failed with ").concat(
        "2 errors",
    ).concat(" in ").concat(elapsed)
}

/// When both branches of a parallel group succeed, the group succeeds.
pub proof fn lemma_join_both_succeed(
    first_label: Seq<char>,
    first_description: Seq<char>,
    second_label: Seq<char>,
    second_description: Seq<char>,
    both_label: Seq<char>,
    note: Seq<char>,
    group: Seq<char>,
    elapsed: Seq<char>,
    r: Result<(), SauceError>,
)
    requires
        joined(
            first_label,
            first_description,
            second_label,
            second_description,
            both_label,
            note,
            group,
            elapsed,
            Ok(()),
            Ok(()),
            r,
        ),
    ensures
        r is Ok,
{
}

/// When exactly one branch of a parallel group fails, the group fails with a
/// single cause: that branch, under its description, with its own failure.
/// The failure's text names the branch and holds the branch's own text.
pub proof fn lemma_join_one_fails(
    first_label: Seq<char>,
    first_description: Seq<char>,
    second_label: Seq<char>,
    second_description: Seq<char>,
    both_label: Seq<char>,
    note: Seq<char>,
    group: Seq<char>,
    elapsed: Seq<char>,
    first: Result<(), SauceError>,
    second: Result<(), SauceError>,
    r: Result<(), SauceError>,
)
    requires
        first is Err != second is Err,
        joined(
            first_label,
            first_description,
            second_label,
            second_description,
            both_label,
            note,
            group,
            elapsed,
            first,
            second,
            r,
        ),
    ensures
        r is Err,
        first is Err ==> r->Err_0.causes() == seq![(first_description, first->Err_0)],
        second is Err ==> r->Err_0.causes() == seq![(second_description, second->Err_0)],
        first is Err ==> contains(r->Err_0.text(), first_description),
        first is Err ==> contains(r->Err_0.text(), first->Err_0.text()),
        second is Err ==> contains(r->Err_0.text(), second_description),
        second is Err ==> contains(r->Err_0.text(), second->Err_0.text()),
        contains(r->Err_0.text(), "1 error"@),
        first is Err ==> r->Err_0.text() == one_failed_line(first_label, first_description, note, elapsed)
            + newline() + first->Err_0.text(),
        second is Err ==> r->Err_0.text() == one_failed_line(
            second_label,
            second_description,
            note,
            elapsed,
        ) + newline() + second->Err_0.text(),
{
    let e = r->Err_0;
    let (label, d, cause) = if first is Err {
        (first_label, first_description, first->Err_0)
    } else {
        (second_label, second_description, second->Err_0)
    };
    let rest = note + " failed with "@ + "1 error"@ + " in "@ + elapsed;
    assert(e.text() == (label + "❌ "@) + d + (rest + newline() + cause.text()));
    lemma_contains_within(label + "❌ "@, d, rest + newline() + cause.text());
    let before = label + "❌ "@ + d + note + " failed with "@;
    assert(e.text() == before + "1 error"@ + (" in "@ + elapsed + newline() + cause.text()));
    lemma_contains_within(before, "1 error"@, " in "@ + elapsed + newline() + cause.text());
    assert(e.text() == (one_failed_line(label, d, note, elapsed) + newline()) + cause.text()
        + Seq::<char>::empty());
    lemma_contains_within(
        one_failed_line(label, d, note, elapsed) + newline(),
        cause.text(),
        Seq::<char>::empty(),
    );
}

/// When both branches of a parallel group fail, the group fails with two
/// causes, one for each branch in order; its text names both branches, holds
/// both branches' own texts, and says that there were two errors.
pub proof fn lemma_join_both_fail(
    first_label: Seq<char>,
    first_description: Seq<char>,
    second_label: Seq<char>,
    second_description: Seq<char>,
    both_label: Seq<char>,
    note: Seq<char>,
    group: Seq<char>,
    elapsed: Seq<char>,
    e1: SauceError,
    e2: SauceError,
    r: Result<(), SauceError>,
)
    requires
        joined(
            first_label,
            first_description,
            second_label,
            second_description,
            both_label,
            note,
            group,
            elapsed,
            Err(e1),
            Err(e2),
            r,
        ),
    ensures
        r is Err,
        r->Err_0.causes() == seq![(first_description, e1), (second_description, e2)],
        contains(r->Err_0.text(), first_description),
        contains(r->Err_0.text(), second_description),
        contains(r->Err_0.text(), e1.text()),
        contains(r->Err_0.text(), e2.text()),
        contains(r->Err_0.text(), "2 errors"@),
{
    let t = r->Err_0.text();
    let line = both_failed_line(both_label, group, elapsed);
    let head = line + newline();
    let tail2 = newline() + second_description + ": "@ + e2.text();
    assert(t == head + first_description + (": "@ + e1.text() + tail2));
    lemma_contains_within(head, first_description, ": "@ + e1.text() + tail2);
    assert(t == (head + first_description + ": "@) + e1.text() + tail2);
    lemma_contains_within(head + first_description + ": "@, e1.text(), tail2);
    let mid = head + first_description + ": "@ + e1.text() + newline();
    assert(t == mid + second_description + (": "@ + e2.text()));
    lemma_contains_within(mid, second_description, ": "@ + e2.text());
    assert(t == (mid + second_description + ": "@) + e2.text() + Seq::<char>::empty());
    lemma_contains_within(mid + second_description + ": "@, e2.text(), Seq::<char>::empty());
    let before = both_label + "❌ '"@ + group + "' failed with "@;
    let after = " in "@ + elapsed + newline() + first_description + ": "@ + e1.text() + tail2;
    assert(t == before + "2 errors"@ + after);
    lemma_contains_within(before, "2 errors"@, after);
}

/// The text of a group in which one branch failed names that branch exactly
/// once: at its place after the label, and nowhere else. This holds unless
/// the description also occurs across the label and its start, or across its
/// end and the rest of the text (then it occurs more than once).
pub proof fn lemma_one_failure_names_branch_once(
    label: Seq<char>,
    description: Seq<char>,
    note: Seq<char>,
    elapsed: Seq<char>,
    cause: SauceError,
)
    requires
        description.len() > 0,
        !contains(label + "❌ "@ + description.drop_last(), description),
        !contains(
            description.subrange(1, description.len() as int) + (note + " failed with "@
                + "1 error"@ + " in "@ + elapsed + newline() + cause.text()),
            description,
        ),
    ensures
        ({
            let t = one_failed_line(label, description, note, elapsed) + newline() + cause.text();
            &&& occurs_at(t, description, (label + "❌ "@).len() as int)
            &&& forall|i: int| occurs_at(t, description, i) ==> i == (label + "❌ "@).len()
        }),
{
    let d = description;
    let h = label + "❌ "@;
    let rest = note + " failed with "@ + "1 error"@ + " in "@ + elapsed + newline() + cause.text();
    let t = one_failed_line(label, d, note, elapsed) + newline() + cause.text();
    assert(t =~= h + d + rest);
    let k = h.len() as int;
    assert(t.subrange(k, k + d.len()) =~= d);
    let left = h + d.drop_last();
    let right = d.subrange(1, d.len() as int) + rest;
    assert forall|i: int| occurs_at(t, d, i) implies i == k by {
        if i < k {
            assert(t.subrange(i, i + d.len()) =~= left.subrange(i, i + d.len()));
            assert(occurs_at(left, d, i));
        } else if i > k {
            let j = i - k - 1;
            assert(t.subrange(i, i + d.len()) =~= right.subrange(j, j + d.len()));
            assert(occurs_at(right, d, j));
        }
    }
}

} // verus!
