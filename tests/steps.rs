use saucer::failure::SauceError;
use saucer::html::{default_config_path, template_data, template_outcome, templatize};
use saucer::lint::{
    on_watch_event, unreadable_message, watching_message, FailLevel, LintCommand, SchemaSource,
    WatchAction, WatchEvent,
};
use saucer::log::{split_lines, Log};
use saucer::process::Process;
use saucer::rules::AwcDiagnosticSeverity;

fn command(schema: &str, watch: bool) -> LintCommand {
    LintCommand {
        schema: schema.to_string(),
        json: false,
        watch,
        fail_on: FailLevel::Error,
        skip_warnings: false,
        skip_advice: false,
    }
}

#[test]
fn schema_sources() {
    let empty = command("", false).schema_source().unwrap_err();
    assert_eq!(empty.render(), "input was an empty string");
    assert_eq!(command("-", false).schema_source().unwrap(), SchemaSource::Stdin);
    assert_eq!(
        command("schema.graphql", false).schema_source().unwrap(),
        SchemaSource::File("schema.graphql".to_string())
    );
}

#[test]
fn stdin_cannot_be_watched() {
    let err = LintCommand::watch_path(&SchemaSource::Stdin).unwrap_err();
    assert_eq!(err.render(), "You cannot combine the `--watch` flag with the `--schema -` argument.");
    assert_eq!(
        LintCommand::watch_path(&SchemaSource::File("a.graphql".to_string())).unwrap(),
        "a.graphql"
    );
}

#[test]
fn fail_levels_map_to_severities() {
    assert_eq!(FailLevel::Error.severity(), AwcDiagnosticSeverity::Error);
    assert_eq!(FailLevel::Warning.severity(), AwcDiagnosticSeverity::Warning);
    assert_eq!(FailLevel::Advice.severity(), AwcDiagnosticSeverity::Advice);
}

#[test]
fn lint_uses_the_command_rules() {
    let cmd = command("schema.graphql", false);
    let ok = cmd.lint("type Query {\n  name: String\n}\n");
    assert!(ok.success());
    let bad = cmd.lint("type Query {\n  website: URL\n}\n");
    assert!(!bad.success());
    assert_eq!(bad.error_count(), 1);
}

#[test]
fn watcher_events() {
    assert_eq!(
        on_watch_event("s.graphql", WatchEvent::NoticeWrite),
        WatchAction::Log("🔃 Change detected in s.graphql".to_string())
    );
    assert_eq!(on_watch_event("s.graphql", WatchEvent::Write), WatchAction::Relint);
    assert_eq!(
        on_watch_event("s.graphql", WatchEvent::Error("gone".to_string())),
        WatchAction::LogError {
            message: "unknown error while watching s.graphql".to_string(),
            detail: "gone".to_string()
        }
    );
    assert_eq!(on_watch_event("s.graphql", WatchEvent::Other), WatchAction::Nothing);
    assert_eq!(watching_message("s.graphql"), "👀 Watching s.graphql for changes");
    assert_eq!(unreadable_message("s.graphql"), "Could not read s.graphql from disk");
}

#[test]
fn process_command_line() {
    let p = Process::new("sh", Some(vec!["-c".to_string(), "true".to_string()])).unwrap();
    assert_eq!(p.description(), "$ sh -c true");
    assert_eq!(p.bin(), "sh");
    assert_eq!(p.args(), &vec!["-c".to_string(), "true".to_string()]);
    assert_eq!(p.start_line("💅 "), "💅 $ sh -c true");
    assert_eq!(
        p.failure("💅 ", "exit status: 1").render(),
        "💅 $ sh -c true failed with status exit status: 1"
    );
    let bare = Process::new("sh", None).unwrap();
    assert_eq!(bare.description(), "$ sh");
}

#[test]
fn missing_program_is_reported() {
    let err = Process::new("no-such-program-for-saucer-tests", None).err().unwrap();
    assert!(err
        .render()
        .starts_with("Could not find no-such-program-for-saucer-tests\n"));
}

#[test]
fn long_messages_are_framed() {
    let one = Log::frame(vec!["only".to_string()]);
    assert_eq!(one, vec!["only".to_string()]);
    assert!(Log::frame(vec![]).is_empty());
    let two = Log::frame(vec!["a".to_string(), "b".to_string()]);
    assert_eq!(two.len(), 4);
    assert_eq!(two[0], format!("{}\n", "~".repeat(51)));
    assert_eq!(two[1], "a");
    assert_eq!(two[2], "b");
    assert_eq!(two[3], "~".repeat(52));
    assert_eq!(
        Log::framed_lines("first line\nsecond line\n"),
        vec![format!("{}\n", "~".repeat(51)), "first line".to_string(), "second line".to_string(), "~".repeat(52)]
    );
    assert_eq!(Log::framed_lines("one line"), vec!["one line".to_string()]);
    Log::info("first line\nsecond line");
    Log::error("logged", Some(SauceError::message("cause")));
}

#[test]
fn page_template_is_rendered() {
    let page = templatize(
        "<a href=\"{{BASE_URL}}\">{{{PLACEHOLDER_SCHEMA}}}</a>",
        "example.dev",
        "type Query { a: Int }",
    )
    .unwrap();
    assert_eq!(page, "<a href=\"example.dev\">type Query { a: Int }</a>");
    let escaped = templatize("{{PLACEHOLDER_SCHEMA}}", "x", "a < b").unwrap();
    assert_eq!(escaped, "a &lt; b");
    assert!(templatize("{{#if BASE_URL}}", "x", "y").is_err());
}

#[test]
fn page_data_and_outcomes() {
    assert_eq!(
        template_data("u", "s"),
        vec![
            ("BASE_URL".to_string(), "u".to_string()),
            ("PLACEHOLDER_SCHEMA".to_string(), "s".to_string())
        ]
    );
    assert_eq!(template_outcome(Ok("page".to_string())).unwrap(), "page");
    assert_eq!(template_outcome(Err("bad".to_string())).unwrap_err().render(), "bad");
}

#[test]
fn config_paths() {
    assert_eq!(default_config_path(Some("production")), "./awc-web/awc.prod.json");
    assert_eq!(default_config_path(Some("development")), "./awc-web/awc.dev.json");
    assert_eq!(default_config_path(None), "./awc-web/awc.dev.json");
}

#[test]
fn lines_split_like_str_lines() {
    for text in ["", "\n", "a", "a\n", "a\r\nb", "a\n\nb\n", "a\rb", "\r\n", "x\r", "é\nü\r\n"] {
        let expected: Vec<String> = text.lines().map(|l| l.to_string()).collect();
        assert_eq!(split_lines(text), expected, "{:?}", text);
    }
    assert_eq!(split_lines("a\r\nb"), vec!["a".to_string(), "b".to_string()]);
}

