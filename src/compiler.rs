//! Validation of a GraphQL document under a set of rules, and its summary.
use vstd::prelude::*;
use vstd::string::*;

use crate::diagnostic::AwcDiagnostic;
use crate::failure::newline;
use crate::rules::{passes, AwcDiagnosticSeverity, AwcRules};
use crate::text::{decimal, decimal_string};
use crate::timer::{elapsed_text, Timer};

verus! {

#[verifier::external_type_specification]
#[verifier::external_body]
pub struct ExApolloCompiler(apollo_compiler::ApolloCompiler);

/// Relies on `ApolloCompiler::new`: a compiler over the given document.
pub assume_specification[ apollo_compiler::ApolloCompiler::new ](
    input: &str,
) -> apollo_compiler::ApolloCompiler;

/// Relies on `ApolloCompiler::validate`: the diagnostics of the document.
pub assume_specification[ apollo_compiler::ApolloCompiler::validate ](
    c: &apollo_compiler::ApolloCompiler,
) -> Vec<apollo_compiler::ApolloDiagnostic>;

/// The severity under which a diagnostic is counted: an unknown one counts
/// as an error.
pub open spec fn counted_as(k: AwcDiagnosticSeverity) -> AwcDiagnosticSeverity {
    if k == AwcDiagnosticSeverity::Other {
        AwcDiagnosticSeverity::Error
    } else {
        k
    }
}

/// How many of the diagnostics of severities `s` are shown under `rules`
/// and counted as `k`.
pub open spec fn tally(rules: AwcRules, s: Seq<AwcDiagnosticSeverity>, k: AwcDiagnosticSeverity) -> nat
    decreases s.len(),
{
    if s.len() == 0 {
        0
    } else {
        tally(rules, s.drop_last(), k) + if !rules.ignores(s.last()) && counted_as(s.last()) == k {
            1nat
        } else {
            0nat
        }
    }
}

/// The severities of the diagnostics that are shown under `rules`, in order.
pub open spec fn shown(rules: AwcRules, s: Seq<AwcDiagnosticSeverity>) -> Seq<AwcDiagnosticSeverity>
    decreases s.len(),
{
    if s.len() == 0 {
        Seq::empty()
    } else if rules.ignores(s.last()) {
        shown(rules, s.drop_last())
    } else {
        shown(rules, s.drop_last()).push(s.last())
    }
}

/// Whether every diagnostic, shown or not, passes under `rules`.
pub open spec fn all_pass(rules: AwcRules, s: Seq<AwcDiagnosticSeverity>) -> bool {
    forall|i: int| 0 <= i < s.len() ==> passes(#[trigger] s[i], rules.fail_level())
}

/// The line that counts what a validation found in `elapsed`.
pub open spec fn findings_line(errors: nat, warnings: nat, advice: nat, elapsed: Seq<char>) -> Seq<
    char,
> {
    if errors > 0 && warnings > 0 && advice > 0 {
        "❌ Found "@ + decimal(errors) + " errors, "@ + decimal(warnings) + " warnings, and "@
            + decimal(advice) + " advice in "@ + elapsed + "."@
    } else if errors > 0 && warnings > 0 {
        "❌ Found "@ + decimal(errors) + " errors and "@ + decimal(warnings) + " warnings in "@
            + elapsed + "."@
    } else if errors > 0 && advice > 0 {
        "❌ Found "@ + decimal(errors) + " errors and "@ + decimal(advice) + " advice in "@ + elapsed
            + "."@
    } else if errors > 0 {
        "❌ Found "@ + decimal(errors) + " errors in "@ + elapsed + "."@
    } else if warnings > 0 && advice > 0 {
        "⚠️ Found "@ + decimal(warnings) + " warnings and "@ + decimal(advice) + " advice in "@
            + elapsed + "."@
    } else if warnings > 0 {
        "⚠️ Found "@ + decimal(warnings) + " warnings in "@ + elapsed + "."@
    } else if advice > 0 {
        "💡 Found "@ + decimal(advice) + " advice in "@ + elapsed + "."@
    } else {
        "Found no problems in "@ + elapsed + "."@
    }
}

/// The summary of a validation: a word of praise when it succeeded, then
/// the line of findings.
pub open spec fn summary_line(
    success: bool,
    errors: nat,
    warnings: nat,
    advice: nat,
    elapsed: Seq<char>,
) -> Seq<char> {
    if success {
        "🎉 Your GraphQL is looking great! "@ + findings_line(errors, warnings, advice, elapsed)
    } else {
        findings_line(errors, warnings, advice, elapsed)
    }
}

/// Writes the summary of a validation, as `summary_line` states.
pub fn summary_message(
    success: bool,
    errors: usize,
    warnings: usize,
    advice: usize,
    elapsed: &str,
) -> (r: String)
    ensures
        r@ == summary_line(success, errors as nat, warnings as nat, advice as nat, elapsed@),
{
    let e = decimal_string(errors as u128);
    let w = decimal_string(warnings as u128);
    let a = decimal_string(advice as u128);
    let findings = if errors > 0 && warnings > 0 && advice > 0 {
        String::from_str("❌ Found ").concat(e.as_str()).concat(" errors, ").concat(w.as_str()).concat(
            " warnings, and ",
        ).concat(a.as_str()).concat(" advice in ").concat(elapsed).concat(".")
    } else if errors > 0 && warnings > 0 {
        String::from_str("❌ Found ").concat(e.as_str()).concat(" errors and ").concat(
            w.as_str(),
        ).concat(" warnings in ").concat(elapsed).concat(".")
    } else if errors > 0 && advice > 0 {
        String::from_str("❌ Found ").concat(e.as_str()).concat(" errors and ").concat(
            a.as_str(),
        ).concat(" advice in ").concat(elapsed).concat(".")
    } else if errors > 0 {
        String::from_str("❌ Found ").concat(e.as_str()).concat(" errors in ").concat(elapsed).concat(
            ".",
        )
    } else if warnings > 0 && advice > 0 {
        String::from_str("⚠️ Found ").concat(w.as_str()).concat(" warnings and ").concat(
            a.as_str(),
        ).concat(" advice in ").concat(elapsed).concat(".")
    } else if warnings > 0 {
        String::from_str("⚠️ Found ").concat(w.as_str()).concat(" warnings in ").concat(
            elapsed,
        ).concat(".")
    } else if advice > 0 {
        String::from_str("💡 Found ").concat(a.as_str()).concat(" advice in ").concat(elapsed).concat(
            ".",
        )
    } else {
        String::from_str("Found no problems in ").concat(elapsed).concat(".")
    };
    if success {
        String::from_str("🎉 Your GraphQL is looking great! ").concat(findings.as_str())
    } else {
        findings
    }
}

/// What a validation produced.
pub struct AwcResult {
    success: bool,
    message: String,
    diagnostics: Vec<AwcDiagnostic>,
    pretty: String,
    error_count: usize,
    warn_count: usize,
    advice_count: usize,
    elapsed: Option<String>,
}

impl AwcResult {
    /// Whether the validation succeeded.
    pub closed spec fn success_view(&self) -> bool {
        self.success
    }

    /// The summary message.
    pub closed spec fn message_view(&self) -> Seq<char> {
        self.message@
    }

    /// The diagnostics that are shown, in order.
    pub closed spec fn diagnostics_view(&self) -> Seq<AwcDiagnostic> {
        self.diagnostics@
    }

    /// The whole report: every diagnostic's text, then the summary.
    pub closed spec fn pretty_view(&self) -> Seq<char> {
        self.pretty@
    }

    /// The number of errors shown.
    pub closed spec fn error_count_view(&self) -> nat {
        self.error_count as nat
    }

    /// The number of warnings shown.
    pub closed spec fn warn_count_view(&self) -> nat {
        self.warn_count as nat
    }

    /// The number of pieces of advice shown.
    pub closed spec fn advice_count_view(&self) -> nat {
        self.advice_count as nat
    }

    /// How long the validation took, when it was timed.
    pub closed spec fn elapsed_view(&self) -> Option<Seq<char>> {
        match self.elapsed {
            Some(e) => Some(e@),
            None => None,
        }
    }

    /// The result of a validation under `rules` whose diagnostics have the
    /// severities `s`, in order, and which took `elapsed`.
    pub open spec fn summarizes(
        &self,
        rules: AwcRules,
        s: Seq<AwcDiagnosticSeverity>,
        elapsed: Seq<char>,
    ) -> bool {
        &&& self.error_count_view() == tally(rules, s, AwcDiagnosticSeverity::Error)
        &&& self.warn_count_view() == tally(rules, s, AwcDiagnosticSeverity::Warning)
        &&& self.advice_count_view() == tally(rules, s, AwcDiagnosticSeverity::Advice)
        &&& self.success_view() == all_pass(rules, s)
        &&& self.diagnostics_view().map_values(|d: AwcDiagnostic| d.severity_view()) == shown(
            rules,
            s,
        )
        &&& self.message_view() == summary_line(
            self.success_view(),
            self.error_count_view(),
            self.warn_count_view(),
            self.advice_count_view(),
            elapsed,
        )
        &&& self.elapsed_view() == Some(elapsed)
        &&& exists|t: Seq<char>|
            self.pretty_view() == (if t.len() == 0 {
                t
            } else {
                t + newline()
            }) + self.message_view()
    }

    /// The whole report, with terminal colours.
    pub fn pretty(&self) -> (r: String)
        ensures
            r@ == self.pretty_view(),
    {
        self.pretty.clone()
    }

    /// Whether the validation succeeded.
    pub fn success(&self) -> (r: bool)
        ensures
            r == self.success_view(),
    {
        self.success
    }

    /// The summary message.
    pub fn message(&self) -> (r: &String)
        ensures
            r@ == self.message_view(),
    {
        &self.message
    }

    /// The diagnostics that are shown, in order.
    pub fn diagnostics(&self) -> (r: &Vec<AwcDiagnostic>)
        ensures
            r@ == self.diagnostics_view(),
    {
        &self.diagnostics
    }

    /// The number of errors shown.
    pub fn error_count(&self) -> (r: usize)
        ensures
            r == self.error_count_view(),
    {
        self.error_count
    }

    /// The number of warnings shown.
    pub fn warn_count(&self) -> (r: usize)
        ensures
            r == self.warn_count_view(),
    {
        self.warn_count
    }

    /// The number of pieces of advice shown.
    pub fn advice_count(&self) -> (r: usize)
        ensures
            r == self.advice_count_view(),
    {
        self.advice_count
    }

    /// How long the validation took, when it was timed.
    pub fn elapsed(&self) -> (r: &Option<String>)
        ensures
            match *r {
                Some(e) => self.elapsed_view() == Some(e@),
                None => self.elapsed_view() is None,
            },
    {
        &self.elapsed
    }
}

/// Validates GraphQL documents under a set of rules.
pub struct AwcCompiler {
    compiler: apollo_compiler::ApolloCompiler,
    rules: AwcRules,
}

impl AwcCompiler {
    /// The rules of the validation.
    pub closed spec fn rules(&self) -> AwcRules {
        self.rules
    }

    /// A compiler for the document `input`, with the given rules.
    pub fn new(
        input: String,
        ignore_warnings: bool,
        ignore_advice: bool,
        fail_level: AwcDiagnosticSeverity,
    ) -> (r: AwcCompiler)
        ensures
            r.rules().ignores_warnings() == ignore_warnings,
            r.rules().ignores_advice() == ignore_advice,
            r.rules().fail_level() == fail_level,
    {
        AwcCompiler {
            compiler: apollo_compiler::ApolloCompiler::new(input.as_str()),
            rules: AwcRules::new(ignore_warnings, ignore_advice, fail_level),
        }
    }

    /// Validates the document: the result counts and keeps the diagnostics
    /// that the rules show, fails when any diagnostic does not pass, and
    /// says so in its summary, as `summarizes` states for the severities
    /// of the compiler's diagnostics.
    pub fn validate(&self) -> (r: AwcResult)
        ensures
            exists|s: Seq<AwcDiagnosticSeverity>, m: nat|
                r.summarizes(self.rules(), s, elapsed_text(m)),
    {
        let timer = Timer::start();
        let raw = self.compiler.validate();
        let elapsed = timer.stop();
        let mut error_count: usize = 0;
        let mut warn_count: usize = 0;
        let mut advice_count: usize = 0;
        let mut diagnostics: Vec<AwcDiagnostic> = Vec::new();
        let mut pretty = String::new();
        let mut success = true;
        let ghost mut seen: Seq<AwcDiagnosticSeverity> = Seq::empty();
        let mut i: usize = 0;
        while i < raw.len()
            invariant
                i <= raw@.len(),
                seen.len() == i,
                error_count == tally(self.rules, seen, AwcDiagnosticSeverity::Error),
                warn_count == tally(self.rules, seen, AwcDiagnosticSeverity::Warning),
                advice_count == tally(self.rules, seen, AwcDiagnosticSeverity::Advice),
                error_count <= i,
                warn_count <= i,
                advice_count <= i,
                success == all_pass(self.rules, seen),
                diagnostics@.map_values(|d: AwcDiagnostic| d.severity_view()) == shown(
                    self.rules,
                    seen,
                ),
            decreases raw@.len() - i,
        {
            let text = raw[i].to_string();
            pretty.append(text.as_str());
            let diagnostic = AwcDiagnostic::from_apollo(&raw[i]);
            let severity = diagnostic.severity();
            let ghost before = seen;
            let ghost old_diagnostics = diagnostics@;
            if !self.rules.is_ok(&severity) {
                success = false;
            }
            if !self.rules.should_ignore(&severity) {
                match severity {
                    AwcDiagnosticSeverity::Advice => {
                        advice_count = advice_count + 1;
                    },
                    AwcDiagnosticSeverity::Error => {
                        error_count = error_count + 1;
                    },
                    AwcDiagnosticSeverity::Warning => {
                        warn_count = warn_count + 1;
                    },
                    _ => {
                        error_count = error_count + 1;
                    },
                }
                diagnostics.push(diagnostic);
                assert(diagnostics@.map_values(|d: AwcDiagnostic| d.severity_view())
                    =~= old_diagnostics.map_values(|d: AwcDiagnostic| d.severity_view()).push(
                    severity,
                ));
            }
            proof {
                seen = seen.push(severity);
                assert(seen.drop_last() =~= before);
                assert(seen.last() == severity);
                if success {
                    assert forall|j: int| 0 <= j < seen.len() implies passes(
                        #[trigger] seen[j],
                        self.rules.fail_level(),
                    ) by {
                        if j < before.len() {
                            assert(seen[j] == before[j]);
                        }
                    }
                } else if all_pass(self.rules, before) {
                    assert(!passes(seen[seen.len() - 1], self.rules.fail_level()));
                } else {
                    let j = choose|j: int|
                        0 <= j < before.len() && !passes(#[trigger] before[j], self.rules.fail_level());
                    assert(seen[j] == before[j]);
                }
            }
            i = i + 1;
        }
        let ghost listed = pretty@;
        if !pretty.as_str().is_empty() {
            pretty.append("\n");
        }
        let message = summary_message(
            success,
            error_count,
            warn_count,
            advice_count,
            elapsed.as_str(),
        );
        pretty.append(message.as_str());
        proof {
            reveal_strlit("\n");
        }
        let ghost took = elapsed@;
        let r = AwcResult {
            success,
            message,
            diagnostics,
            pretty,
            error_count,
            warn_count,
            advice_count,
            elapsed: Some(elapsed),
        };
        assert(r.pretty_view() == (if listed.len() == 0 {
            listed
        } else {
            listed + newline()
        }) + r.message_view());
        proof {
            let m = choose|m: nat| took == elapsed_text(m);
            assert(r.summarizes(self.rules(), seen, elapsed_text(m)));
        }
        r
    }
}

} // verus!
