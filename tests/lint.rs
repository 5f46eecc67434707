use saucer::compiler::{summary_message, AwcCompiler};
use saucer::diagnostic::{AwcDiagnostic, AwcLabel, AwcSpan};
use saucer::rules::{AwcDiagnosticSeverity, AwcRules};

use AwcDiagnosticSeverity::{Advice, Error, Other, Warning};

#[test]
fn severities_are_listed_most_serious_first() {
    assert_eq!(AwcDiagnosticSeverity::possible_values(), vec![Error, Warning, Advice, Other]);
}

#[test]
fn severity_names() {
    assert_eq!(Error.to_string(), "error");
    assert_eq!(Warning.to_string(), "warn");
    assert_eq!(Advice.to_string(), "advice");
    assert_eq!(Other.to_string(), "other");
}

#[test]
fn severity_parsing() {
    assert_eq!(AwcDiagnosticSeverity::parse("error"), Ok(Error));
    assert_eq!(AwcDiagnosticSeverity::parse("warning"), Ok(Warning));
    assert_eq!(AwcDiagnosticSeverity::parse("warn"), Ok(Warning));
    assert_eq!(AwcDiagnosticSeverity::parse("advice"), Ok(Advice));
    assert_eq!(
        AwcDiagnosticSeverity::parse("other"),
        Err("valid inputs are 'error', 'warn', and 'advice'".to_string())
    );
    assert!(AwcDiagnosticSeverity::parse("").is_err());
}

#[test]
fn failing_levels() {
    let at_error = AwcRules::new(false, false, Error);
    let at_warning = AwcRules::new(false, false, Warning);
    let at_advice = AwcRules::new(false, false, Advice);
    for rules in [at_error, at_warning, at_advice] {
        assert!(!rules.is_ok(&Error));
        assert!(!rules.is_ok(&Other));
    }
    assert!(!at_error.is_ok(&Warning));
    assert!(!at_warning.is_ok(&Warning));
    assert!(at_advice.is_ok(&Warning));
    assert!(at_error.is_ok(&Advice));
    assert!(at_warning.is_ok(&Advice));
    assert!(!at_advice.is_ok(&Advice));
    assert!(AwcRules::new(false, false, Other).is_ok(&Warning));
}

#[test]
fn ignored_severities() {
    let rules = AwcRules::new(true, false, Error);
    assert!(rules.should_ignore(&Warning));
    assert!(!rules.should_ignore(&Advice));
    assert!(!rules.should_ignore(&Error));
    assert!(!rules.should_ignore(&Other));
    let rules = AwcRules::new(false, true, Error);
    assert!(!rules.should_ignore(&Warning));
    assert!(rules.should_ignore(&Advice));
    assert_eq!(rules, AwcRules::new(false, true, Error));
}

#[test]
fn summary_messages() {
    assert_eq!(summary_message(true, 0, 0, 0, "3 ms"), "🎉 Your GraphQL is looking great! Found no problems in 3 ms.");
    assert_eq!(summary_message(false, 2, 3, 4, "3 ms"), "❌ Found 2 errors, 3 warnings, and 4 advice in 3 ms.");
    assert_eq!(summary_message(false, 2, 3, 0, "3 ms"), "❌ Found 2 errors and 3 warnings in 3 ms.");
    assert_eq!(summary_message(false, 2, 0, 4, "3 ms"), "❌ Found 2 errors and 4 advice in 3 ms.");
    assert_eq!(summary_message(false, 1, 0, 0, "3 ms"), "❌ Found 1 errors in 3 ms.");
    assert_eq!(summary_message(true, 0, 3, 4, "3 ms"), "🎉 Your GraphQL is looking great! ⚠️ Found 3 warnings and 4 advice in 3 ms.");
    assert_eq!(summary_message(false, 0, 3, 0, "3 ms"), "⚠️ Found 3 warnings in 3 ms.");
    assert_eq!(summary_message(true, 0, 0, 12, "1 seconds, 2 ms"), "🎉 Your GraphQL is looking great! 💡 Found 12 advice in 1 seconds, 2 ms.");
}

#[test]
fn spans_and_labels() {
    assert!(AwcSpan::new(None, None).is_none());
    let span = AwcSpan::new(Some(4), None).unwrap();
    assert_eq!(span.length(), Some(4));
    assert_eq!(span.offset(), None);
    assert!(AwcLabel::new(None, None, None).is_none());
    let label = AwcLabel::new(Some("here".to_string()), None, None).unwrap();
    assert_eq!(label.label(), &Some("here".to_string()));
    assert!(label.span().is_none());
    let label = AwcLabel::new(None, Some(1), Some(2)).unwrap();
    assert!(label.label().is_none());
    assert_eq!(label.span().as_ref().unwrap().offset(), Some(2));
}

#[test]
fn diagnostics_from_report_parts() {
    let d = AwcDiagnostic::from_parts(
        Some("code".to_string()),
        Some(vec![None, Some("a".to_string()), None, Some("b".to_string())]),
        None,
        None,
        Some("https://example.com".to_string()),
    );
    assert_eq!(d.severity(), Other);
    assert_eq!(d.code(), &Some("code".to_string()));
    assert!(d.help().is_none());
    let labels = d.labels().as_ref().unwrap();
    assert_eq!(labels.len(), 2);
    assert_eq!(labels[0].label(), &Some("a".to_string()));
    assert_eq!(labels[1].label(), &Some("b".to_string()));
    assert!(labels[1].span().is_none());
    let none = AwcDiagnostic::from_parts(None, Some(vec![None]), None, Some(Warning), None);
    assert!(none.labels().is_none());
    assert_eq!(none.severity(), Warning);
}

#[test]
fn valid_schema_passes() {
    let schema = "type Query {\n  name: String\n}\n";
    let result = AwcCompiler::new(schema.to_string(), false, false, Error).validate();
    assert!(result.success());
    assert_eq!(result.error_count(), 0);
    assert!(result.message().starts_with("🎉 Your GraphQL is looking great! Found no problems in "));
    assert!(result.pretty().ends_with(result.message().as_str()));
    assert!(result.elapsed().is_some());
}

#[test]
fn undefined_type_fails() {
    let schema = "type Query {\n  website: URL,\n  amount: Int\n}\n";
    let result = AwcCompiler::new(schema.to_string(), false, false, Error).validate();
    assert!(!result.success());
    assert_eq!(result.error_count(), 1);
    assert_eq!(result.diagnostics().len(), 1);
    assert_eq!(result.diagnostics()[0].severity(), Other);
    assert!(result.diagnostics()[0].code().is_some());
    assert!(result.message().starts_with("❌ Found 1 errors in "));
    assert!(result.pretty().len() > result.message().len());
}
