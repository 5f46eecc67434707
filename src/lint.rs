//! The lint command: where the schema comes from, how it is linted, and how
//! a watched schema file's events are answered.
use vstd::prelude::*;
use vstd::string::*;

use crate::compiler::{AwcCompiler, AwcResult};
use crate::failure::SauceError;
use crate::rules::{AwcDiagnosticSeverity, AwcRules};
use crate::timer::elapsed_text;

verus! {

/// The severity at which linting fails.
#[derive(PartialEq, Eq, Structural, Clone, Copy, Debug)]
pub enum FailLevel {
    /// Fail on errors only.
    Error,
    /// Fail on warnings and errors.
    Warning,
    /// Fail on advice, warnings and errors.
    Advice,
}

impl FailLevel {
    /// The severity that the level stands for.
    pub open spec fn severity_view(self) -> AwcDiagnosticSeverity {
        match self {
            FailLevel::Error => AwcDiagnosticSeverity::Error,
            FailLevel::Warning => AwcDiagnosticSeverity::Warning,
            FailLevel::Advice => AwcDiagnosticSeverity::Advice,
        }
    }

    /// The severity that the level stands for.
    pub fn severity(&self) -> (r: AwcDiagnosticSeverity)
        ensures
            r == self.severity_view(),
    {
        match self {
            FailLevel::Advice => AwcDiagnosticSeverity::Advice,
            FailLevel::Error => AwcDiagnosticSeverity::Error,
            FailLevel::Warning => AwcDiagnosticSeverity::Warning,
        }
    }
}

/// Where the schema to lint is read from.
#[derive(PartialEq, Eq, Debug)]
pub enum SchemaSource {
    /// Standard input.
    Stdin,
    /// The file at this path.
    File(String),
}

/// The message of an empty schema argument.
pub open spec fn empty_input_message() -> Seq<char> {
    "input was an empty string"@
}

/// The message of watching standard input.
pub open spec fn watch_stdin_message() -> Seq<char> {
    "You cannot combine the `--watch` flag with the `--schema -` argument."@
}

/// Lints a GraphQL schema.
pub struct LintCommand {
    /// The schema file to read; `-` reads standard input.
    pub schema: String,
    /// Whether to print machine-readable output.
    pub json: bool,
    /// Whether to lint again each time the schema file changes.
    pub watch: bool,
    /// The severity at which linting fails.
    pub fail_on: FailLevel,
    /// Whether to leave warnings out.
    pub skip_warnings: bool,
    /// Whether to leave advice out.
    pub skip_advice: bool,
}

impl LintCommand {
    /// The rules that linting follows.
    pub open spec fn rules_view(&self) -> (bool, bool, AwcDiagnosticSeverity) {
        (self.skip_warnings, self.skip_advice, self.fail_on.severity_view())
    }

    /// Where the schema comes from: an empty argument is refused, `-` is
    /// standard input, anything else a file path.
    pub fn schema_source(&self) -> (r: Result<SchemaSource, SauceError>)
        ensures
            self.schema@.len() == 0 ==> r is Err && r->Err_0.text() == empty_input_message(),
            self.schema@ == "-"@ ==> r == Ok::<SchemaSource, SauceError>(SchemaSource::Stdin),
            self.schema@.len() != 0 && self.schema@ != "-"@ ==> (r matches Ok(
                SchemaSource::File(p),
            ) && p@ == self.schema@),
    {
        proof {
            reveal_strlit("-");
        }
        if self.schema.as_str().is_empty() {
            Err(SauceError::message("input was an empty string"))
        } else if self.schema == String::from_str("-") {
            Ok(SchemaSource::Stdin)
        } else {
            Ok(SchemaSource::File(self.schema.clone()))
        }
    }

    /// The file to watch: standard input cannot be watched.
    pub fn watch_path(source: &SchemaSource) -> (r: Result<String, SauceError>)
        ensures
            match source {
                SchemaSource::Stdin => r is Err && r->Err_0.text() == watch_stdin_message(),
                SchemaSource::File(p) => r matches Ok(q) && q@ == p@,
            },
    {
        match source {
            SchemaSource::Stdin => Err(
                SauceError::message(
                    "You cannot combine the `--watch` flag with the `--schema -` argument.",
                ),
            ),
            SchemaSource::File(p) => Ok(p.clone()),
        }
    }

    /// Lints `proposed_schema` under the command's rules, as
    /// `AwcCompiler::validate` does.
    pub fn lint(&self, proposed_schema: &str) -> (r: AwcResult)
        ensures
            exists|rules: AwcRules, s: Seq<AwcDiagnosticSeverity>, m: nat|
                (rules.ignores_warnings(), rules.ignores_advice(), rules.fail_level())
                    == self.rules_view() && r.summarizes(rules, s, elapsed_text(m)),
    {
        let compiler = AwcCompiler::new(
            String::from_str(proposed_schema),
            self.skip_warnings,
            self.skip_advice,
            self.fail_on.severity(),
        );
        compiler.validate()
    }
}

/// What the file watcher reported.
#[derive(PartialEq, Eq, Debug)]
pub enum WatchEvent {
    /// A write to the file has begun.
    NoticeWrite,
    /// The file was written.
    Write,
    /// Watching failed; the text says why.
    Error(String),
    /// Anything else.
    Other,
}

/// What to do about a watcher event.
#[derive(PartialEq, Eq, Debug)]
pub enum WatchAction {
    /// Log this line.
    Log(String),
    /// Read the file again and lint it.
    Relint,
    /// Log this error, with the watcher's text under it.
    LogError { message: String, detail: String },
    /// Nothing.
    Nothing,
}

/// The line that announces a change of `path`.
pub open spec fn change_line(path: Seq<char>) -> Seq<char> {
    "🔃 Change detected in "@ + path
}

/// The line of a failure to watch `path`.
pub open spec fn watch_error_line(path: Seq<char>) -> Seq<char> {
    "unknown error while watching "@ + path
}

/// The answer to a watcher event about `path`: announce a beginning write,
/// lint again after a write, log a failure, and ignore anything else.
pub fn on_watch_event(path: &str, event: WatchEvent) -> (r: WatchAction)
    ensures
        match event {
            WatchEvent::NoticeWrite => r matches WatchAction::Log(l) && l@ == change_line(path@),
            WatchEvent::Write => r == WatchAction::Relint,
            WatchEvent::Error(d) => r matches WatchAction::LogError { message, detail } && message@
                == watch_error_line(path@) && detail@ == d@,
            WatchEvent::Other => r == WatchAction::Nothing,
        },
{
    match event {
        WatchEvent::NoticeWrite => WatchAction::Log(
            String::from_str("🔃 Change detected in ").concat(path),
        ),
        WatchEvent::Write => WatchAction::Relint,
        WatchEvent::Error(detail) => WatchAction::LogError {
            message: String::from_str("unknown error while watching ").concat(path),
            detail,
        },
        WatchEvent::Other => WatchAction::Nothing,
    }
}

/// The line that announces that `path` is watched.
pub fn watching_message(path: &str) -> (r: String)
    ensures
        r@ == "👀 Watching "@ + path@ + " for changes"@,
{
    String::from_str("👀 Watching ").concat(path).concat(" for changes")
}

/// The line of a failure to read the watched `path` again.
pub fn unreadable_message(path: &str) -> (r: String)
    ensures
        r@ == "Could not read "@ + path@ + " from disk"@,
{
    String::from_str("Could not read ").concat(path).concat(" from disk")
}

} // verus!
