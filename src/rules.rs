//! Severities of GraphQL diagnostics, and the rules that decide which of
//! them are shown and which of them fail a validation.
use vstd::prelude::*;
use vstd::string::*;

verus! {

/// How serious a diagnostic is; also the level at which a validation fails.
#[derive(PartialEq, Eq, Structural, Clone, Copy, Debug)]
pub enum AwcDiagnosticSeverity {
    /// Something went wrong.
    Error,
    /// Something you might want to know.
    Warning,
    /// A helpful tip.
    Advice,
    /// A diagnostic of no known severity.
    Other,
}

/// The name under which a severity is shown.
pub open spec fn severity_name(s: AwcDiagnosticSeverity) -> Seq<char> {
    match s {
        AwcDiagnosticSeverity::Error => "error"@,
        AwcDiagnosticSeverity::Warning => "warn"@,
        AwcDiagnosticSeverity::Advice => "advice"@,
        AwcDiagnosticSeverity::Other => "other"@,
    }
}

/// The severity that a name stands for: `error`, `warning` or `warn`, and
/// `advice`; no other name stands for one.
pub open spec fn severity_named(name: Seq<char>) -> Option<AwcDiagnosticSeverity> {
    if name == "error"@ {
        Some(AwcDiagnosticSeverity::Error)
    } else if name == "warning"@ || name == "warn"@ {
        Some(AwcDiagnosticSeverity::Warning)
    } else if name == "advice"@ {
        Some(AwcDiagnosticSeverity::Advice)
    } else {
        None
    }
}

/// The message of a name that stands for no severity.
pub open spec fn invalid_severity_message() -> Seq<char> {
    "valid inputs are 'error', 'warn', and 'advice'"@
}

impl AwcDiagnosticSeverity {
    /// Every severity, most serious first.
    pub fn possible_values() -> (r: Vec<AwcDiagnosticSeverity>)
        ensures
            r@ == seq![
                AwcDiagnosticSeverity::Error,
                AwcDiagnosticSeverity::Warning,
                AwcDiagnosticSeverity::Advice,
                AwcDiagnosticSeverity::Other,
            ],
    {
        let r = vec![
            AwcDiagnosticSeverity::Error,
            AwcDiagnosticSeverity::Warning,
            AwcDiagnosticSeverity::Advice,
            AwcDiagnosticSeverity::Other,
        ];
        assert(r@ =~= seq![
            AwcDiagnosticSeverity::Error,
            AwcDiagnosticSeverity::Warning,
            AwcDiagnosticSeverity::Advice,
            AwcDiagnosticSeverity::Other,
        ]);
        r
    }

    /// The name under which the severity is shown.
    pub fn to_string(&self) -> (r: String)
        ensures
            r@ == severity_name(*self),
    {
        match self {
            AwcDiagnosticSeverity::Error => String::from_str("error"),
            AwcDiagnosticSeverity::Warning => String::from_str("warn"),
            AwcDiagnosticSeverity::Advice => String::from_str("advice"),
            AwcDiagnosticSeverity::Other => String::from_str("other"),
        }
    }

    /// The severity that `s` names, as `severity_named` states; any other
    /// name is refused with `invalid_severity_message`.
    pub fn parse(s: &str) -> (r: Result<AwcDiagnosticSeverity, String>)
        ensures
            severity_named(s@) is Some ==> r == Ok::<AwcDiagnosticSeverity, String>(
                severity_named(s@)->Some_0,
            ),
            severity_named(s@) is None ==> r is Err && r->Err_0@ == invalid_severity_message(),
    {
        let name = String::from_str(s);
        if name == String::from_str("error") {
            Ok(AwcDiagnosticSeverity::Error)
        } else if name == String::from_str("warning") || name == String::from_str("warn") {
            Ok(AwcDiagnosticSeverity::Warning)
        } else if name == String::from_str("advice") {
            Ok(AwcDiagnosticSeverity::Advice)
        } else {
            Err(String::from_str("valid inputs are 'error', 'warn', and 'advice'"))
        }
    }
}

/// Whether a diagnostic of severity `kind` passes when validations fail at
/// `fail_level`: errors and unknown diagnostics never pass; warnings fail at
/// the error and warning levels; advice fails at the advice level.
pub open spec fn passes(kind: AwcDiagnosticSeverity, fail_level: AwcDiagnosticSeverity) -> bool {
    match kind {
        AwcDiagnosticSeverity::Error | AwcDiagnosticSeverity::Other => false,
        AwcDiagnosticSeverity::Warning => fail_level != AwcDiagnosticSeverity::Error
            && fail_level != AwcDiagnosticSeverity::Warning,
        AwcDiagnosticSeverity::Advice => fail_level != AwcDiagnosticSeverity::Advice,
    }
}

/// Configures which diagnostics a validation shows and at which severity it
/// fails.
#[derive(PartialEq, Eq, Structural, Clone, Copy, Debug)]
pub struct AwcRules {
    ignore_warnings: bool,
    ignore_advice: bool,
    fail_level: AwcDiagnosticSeverity,
}

impl AwcRules {
    /// Whether warnings are left out.
    pub closed spec fn ignores_warnings(&self) -> bool {
        self.ignore_warnings
    }

    /// Whether advice is left out.
    pub closed spec fn ignores_advice(&self) -> bool {
        self.ignore_advice
    }

    /// The severity at which a validation fails.
    pub closed spec fn fail_level(&self) -> AwcDiagnosticSeverity {
        self.fail_level
    }

    /// Whether a diagnostic of severity `kind` is left out under these rules.
    pub open spec fn ignores(&self, kind: AwcDiagnosticSeverity) -> bool {
        match kind {
            AwcDiagnosticSeverity::Advice => self.ignores_advice(),
            AwcDiagnosticSeverity::Warning => self.ignores_warnings(),
            _ => false,
        }
    }

    /// Rules with the given settings.
    pub fn new(ignore_warnings: bool, ignore_advice: bool, fail_level: AwcDiagnosticSeverity) -> (r:
        AwcRules)
        ensures
            r.ignores_warnings() == ignore_warnings,
            r.ignores_advice() == ignore_advice,
            r.fail_level() == fail_level,
    {
        AwcRules { ignore_warnings, ignore_advice, fail_level }
    }

    /// Whether a diagnostic of severity `diagnostic_kind` passes, as `passes`
    /// states for these rules' fail level.
    pub fn is_ok(&self, diagnostic_kind: &AwcDiagnosticSeverity) -> (r: bool)
        ensures
            r == passes(*diagnostic_kind, self.fail_level()),
    {
        match (diagnostic_kind, &self.fail_level) {
            (AwcDiagnosticSeverity::Error, _) | (AwcDiagnosticSeverity::Other, _) => false,
            (AwcDiagnosticSeverity::Warning, AwcDiagnosticSeverity::Error) | (
                AwcDiagnosticSeverity::Warning,
                AwcDiagnosticSeverity::Warning,
            ) => false,
            (AwcDiagnosticSeverity::Advice, AwcDiagnosticSeverity::Advice) => false,
            _ => true,
        }
    }

    /// Whether a diagnostic of severity `diagnostic_kind` is left out.
    pub fn should_ignore(&self, diagnostic_kind: &AwcDiagnosticSeverity) -> (r: bool)
        ensures
            r == self.ignores(*diagnostic_kind),
    {
        match diagnostic_kind {
            AwcDiagnosticSeverity::Advice => self.ignore_advice,
            AwcDiagnosticSeverity::Warning => self.ignore_warnings,
            _ => false,
        }
    }
}

} // verus!
