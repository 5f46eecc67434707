use std::sync::atomic::{AtomicUsize, Ordering};
use std::sync::Arc;
use std::time::{Duration, Instant};

use saucer::bundle::{after_stage, success_message, AllCommands};
use saucer::command::{ParallelSaucers, SauceStage, Saucer as StageSaucer};
use saucer::framework::{Command as StageCommand, ParallelCommands, Stage};
use saucer::failure::{join_outcome, SauceError};
use saucer::logger::Logger;
use saucer::saucer::{EmptySaucer, ParallelSaucer, Saucer};
use saucer::text::{contains_str, decimal_string};
use saucer::timer::{format_elapsed, Timer};

fn busy_wait(ms: u64) {
    let start = Instant::now();
    while start.elapsed() < Duration::from_millis(ms) {
        std::hint::spin_loop();
    }
}

/// A task that takes a while, may fail, and counts how often it ran.
struct Spy {
    prefix: String,
    description: String,
    millis: u64,
    failure: Option<String>,
    runs: Arc<AtomicUsize>,
}

impl Spy {
    fn new(prefix: &str, description: &str, millis: u64, failure: Option<&str>) -> Spy {
        Spy {
            prefix: prefix.to_string(),
            description: description.to_string(),
            millis,
            failure: failure.map(|f| f.to_string()),
            runs: Arc::new(AtomicUsize::new(0)),
        }
    }

    fn counter(&self) -> Arc<AtomicUsize> {
        self.runs.clone()
    }
}

impl Saucer for Spy {
    fn beam(&self) -> Result<(), SauceError> {
        self.runs.fetch_add(1, Ordering::SeqCst);
        busy_wait(self.millis);
        match &self.failure {
            Some(f) => Err(SauceError::message(f)),
            None => Ok(()),
        }
    }

    fn prefix(&self) -> String {
        self.prefix.clone()
    }

    fn description(&self) -> String {
        self.description.clone()
    }
}

impl StageSaucer for Spy {
    fn run(&self) -> Result<(), SauceError> {
        Saucer::beam(self)
    }

    fn emoji(&self) -> String {
        self.prefix.clone()
    }

    fn description(&self) -> String {
        self.description.clone()
    }
}

impl StageCommand for Spy {
    fn run(&self) -> Result<(), SauceError> {
        Saucer::beam(self)
    }

    fn emoji(&self) -> String {
        self.prefix.clone()
    }

    fn description(&self) -> String {
        self.description.clone()
    }
}

fn count(haystack: &str, needle: &str) -> usize {
    haystack.matches(needle).count()
}

#[test]
fn both_branches_succeed_in_about_the_longer_time() {
    let group = ParallelSaucer::new(
        Spy::new("a ", "first", 150, None),
        Spy::new("b ", "second", 150, None),
        "p ",
        1,
        1,
    );
    let start = Instant::now();
    assert!(Saucer::beam(&group).is_ok());
    let took = start.elapsed();
    assert!(took >= Duration::from_millis(150));
    assert!(took < Duration::from_millis(290), "took {:?}", took);
}

#[test]
fn one_failed_branch_is_named_once_as_the_cause() {
    let a = Spy::new("", "compile sass", 10, Some("exit status 2"));
    let b = Spy::new("", "copy files", 10, None);
    let (ra, rb) = (a.counter(), b.counter());
    let group = ParallelSaucer::new(a, b, "🛸 stage ", 1, 2);
    let err = Saucer::beam(&group).unwrap_err();
    assert_eq!(ra.load(Ordering::SeqCst), 1);
    assert_eq!(rb.load(Ordering::SeqCst), 1);
    match &err {
        SauceError::OneFailed { description, cause, .. } => {
            assert_eq!(description, "compile sass");
            assert_eq!(cause.render(), "exit status 2");
        }
        _ => panic!("expected a single cause"),
    }
    let text = err.render();
    assert_eq!(count(&text, "compile sass"), 1);
    assert!(text.contains("exit status 2"));
    assert!(text.starts_with("🛸 stage [1/2] ❌ compile sass failed with 1 error in "));
    assert!(text.ends_with(" ms\nexit status 2"));
}

#[test]
fn both_failed_branches_are_kept_with_two_errors() {
    let group = ParallelSaucer::new(
        Spy::new("", "install", 5, Some("npm missing")),
        Spy::new("", "render", 5, Some("bad template")),
        "x ",
        1,
        1,
    );
    let err = group.join().unwrap_err();
    let text = err.render();
    assert!(text.contains("install"));
    assert!(text.contains("render"));
    assert!(text.contains("npm missing"));
    assert!(text.contains("bad template"));
    assert!(text.contains("2 errors"));
    match err {
        SauceError::BothFailed { first_description, second_description, .. } => {
            assert_eq!(first_description, "install");
            assert_eq!(second_description, "render");
        }
        _ => panic!("expected two causes"),
    }
}

#[test]
fn stage_description_names_its_position() {
    let stage = Stage::new(2, 3, Spy::new("", "a", 0, None), Spy::new("", "b", 0, None));
    assert_eq!(StageCommand::description(&stage), "stage [2/3]");
    let last = Stage::new(3, 3, Spy::new("", "a", 0, None), Spy::new("", "b", 0, None));
    assert_eq!(StageCommand::description(&last), "stage [3/3]");
}

#[test]
fn stage_failure_passes_through_with_stage_label() {
    let stage = Stage::new(1, 2, Spy::new("💅", "css", 1, Some("exit status 1")), Spy::new("🧳", "js", 1, None));
    let text = StageCommand::run(&stage).unwrap_err().render();
    assert!(text.starts_with("💅 ❌ css (stage [1/2]) failed with 1 error in "));
    assert!(text.ends_with(" ms\nexit status 1"));
}

#[test]
fn sauce_stage_runs_both_and_labels_itself() {
    let stage = SauceStage::new(1, 2, Spy::new("a", "one", 1, None), Spy::new("b", "two", 1, Some("bad")));
    assert_eq!(StageSaucer::description(&stage), "stage [1/2]");
    assert_eq!(StageSaucer::emoji(&stage), "🪩 ");
    let text = StageSaucer::run(&stage).unwrap_err().render();
    assert!(text.starts_with("b ❌ two (stage [1/2]) failed with 1 error in "));
    assert_eq!(count(&text, "two"), 1);
    assert!(text.ends_with("\nbad"));
    let ok = SauceStage::new(2, 2, Spy::new("a", "one", 1, None), Spy::new("b", "two", 1, None));
    assert!(StageSaucer::run(&ok).is_ok());
    let both = ParallelSaucers::run("e", "d", &Spy::new("a", "one", 0, Some("x")), &Spy::new("b", "two", 0, Some("y")));
    assert!(both.unwrap_err().render().starts_with("e ❌ 'd' failed with 2 errors in "));
}

#[test]
fn parallel_commands_merge_two_failures() {
    let a = Spy::new("a", "one", 0, Some("e1"));
    let b = Spy::new("b", "two", 0, Some("e2"));
    let err = ParallelCommands::run("🪩 ", "stage [1/1]", &a, &b).unwrap_err();
    let text = err.render();
    assert!(text.starts_with("🪩  ❌ 'stage [1/1]' failed with 2 errors in "));
    assert!(text.ends_with("\none: e1\ntwo: e2"));
}

#[test]
fn failed_first_stage_stops_the_pipeline() {
    let html = Spy::new("🛵 ", "rust::handlebars", 5, Some("template error"));
    let bucket = Spy::new("🪣  ", "bucket copy", 5, None);
    let deps = Spy::new("⬇️  ", "installing npm dependencies", 5, None);
    let css = Spy::new("💅 ", "tailwindcss", 5, None);
    let js = Spy::new("🧳 ", "webpack/swc", 5, None);
    let (rh, rb, rd, rc, rj) = (html.counter(), bucket.counter(), deps.counter(), css.counter(), js.counter());
    let all = AllCommands::new(false, html, bucket, deps, css, js);
    let err = Saucer::beam(&all).unwrap_err();
    assert!(err.render().contains("template error"));
    assert_eq!(rh.load(Ordering::SeqCst), 1);
    assert_eq!(rb.load(Ordering::SeqCst), 1);
    assert_eq!(rd.load(Ordering::SeqCst), 1);
    assert_eq!(rc.load(Ordering::SeqCst), 0);
    assert_eq!(rj.load(Ordering::SeqCst), 0);
}

#[test]
fn nested_group_does_not_repeat_the_stage_prefix() {
    let inner = ParallelSaucer::new(
        Spy::new("🛵 ", "rust::handlebars", 0, None),
        Spy::new("🪣  ", "bucket copy", 0, None),
        "🛸 stage ",
        1,
        2,
    );
    assert_eq!(Saucer::prefix(&inner), "🛸 stage [1/2] ");
    assert_eq!(Saucer::description(&inner), "🛵 rust::handlebars & 🪣  bucket copy");
    let outer = ParallelSaucer::new(inner, Spy::new("⬇️  ", "installing npm dependencies", 0, None), "🛸 stage ", 1, 2);
    assert_eq!(Saucer::description(&outer), "⬇️  installing npm dependencies");
    let line = format!("{}{}", Saucer::prefix(&outer), Saucer::description(&outer));
    assert_eq!(count(&line, "🛸 stage "), 1);
}

#[test]
fn empty_children_fall_back_to_the_group_prefix() {
    let group = ParallelSaucer::new(EmptySaucer::new(), EmptySaucer::new(), "🛸 stage ", 2, 2);
    assert_eq!(Saucer::description(&group), "🛸 stage [2/2] ");
    assert!(Saucer::beam(&group).is_ok());
    let one = ParallelSaucer::new(EmptySaucer::new(), Spy::new("", "js", 0, None), "p", 1, 1);
    assert_eq!(Saucer::description(&one), "js");
}

#[test]
fn pipeline_of_successes_takes_the_slowest_branch_of_each_stage() {
    let html = Spy::new("🛵 ", "render", 50, None);
    let bucket = Spy::new("🪣  ", "copyBucket", 30, None);
    let deps = Spy::new("⬇️  ", "install", 100, None);
    let css = Spy::new("💅 ", "css", 200, None);
    let js = Spy::new("🧳 ", "js", 150, None);
    let all = AllCommands::new(false, html, bucket, deps, css, js);
    let start = Instant::now();
    assert!(Saucer::beam(&all).is_ok());
    let took = start.elapsed();
    assert!(took >= Duration::from_millis(300), "took {:?}", took);
    assert!(took < Duration::from_millis(500), "took {:?}", took);
    assert_eq!(all.first_stage_description(), "⬇️  install");
    assert_eq!(Saucer::prefix(&all), "🛸 stage ");
    assert_eq!(all.last_stage_description(), "💅 css & 🧳 js");
}

#[test]
fn failing_css_fails_the_last_stage() {
    let html = Spy::new("🛵 ", "render", 1, None);
    let bucket = Spy::new("🪣  ", "copyBucket", 1, None);
    let deps = Spy::new("⬇️  ", "install", 1, None);
    let css = Spy::new("💅 ", "css", 1, Some("exit status 1"));
    let js = Spy::new("🧳 ", "js", 1, None);
    let rj = js.counter();
    let all = AllCommands::new(true, html, bucket, deps, css, js);
    assert_eq!(all.first_stage_description(), "🛵 render & 🪣  copyBucket");
    let err = Saucer::beam(&all).unwrap_err();
    let text = err.render();
    assert!(text.contains("css"));
    assert!(text.contains("exit status 1"));
    assert!(text.starts_with("🛸 stage [2/2] 💅 ❌ css failed with 1 error in "));
    assert_eq!(count(&text, "css"), 1);
    assert_eq!(rj.load(Ordering::SeqCst), 1);
}

#[test]
fn skipped_deps_never_run() {
    let deps = Spy::new("⬇️  ", "install", 1, None);
    let rd = deps.counter();
    let all = AllCommands::new(
        true,
        Spy::new("", "html", 1, None),
        Spy::new("", "bucket", 1, None),
        deps,
        Spy::new("", "css", 1, None),
        Spy::new("", "js", 1, None),
    );
    assert!(Saucer::beam(&all).is_ok());
    assert_eq!(rd.load(Ordering::SeqCst), 0);
    assert_eq!(Saucer::prefix(&all), "🛸 stage ");
    assert_eq!(Saucer::description(&all), "cargo xtask web bundle all");
}

#[test]
fn join_outcome_texts() {
    assert!(join_outcome("a", "A", "b", "B", "ab", "", "G", "5 ms", Ok(()), Ok(())).is_ok());
    let one = join_outcome("a", "A", "b", "B", "ab", " (G)", "G", "5 ms", Ok(()), Err(SauceError::message("boom"))).unwrap_err();
    assert_eq!(one.render(), "b❌ B (G) failed with 1 error in 5 ms\nboom");
    let bare = join_outcome("a", "A", "b", "B", "ab", "", "G", "5 ms", Err(SauceError::message("boom")), Ok(())).unwrap_err();
    assert_eq!(bare.render(), "a❌ A failed with 1 error in 5 ms\nboom");
    let two = join_outcome(
        "a",
        "A",
        "b",
        "B",
        "ab",
        " (G)",
        "G",
        "7 ms",
        Err(SauceError::message("x")),
        Err(SauceError::message("y")),
    )
    .unwrap_err();
    assert_eq!(two.render(), "ab❌ 'G' failed with 2 errors in 7 ms\nA: x\nB: y");
}

#[test]
fn context_chains_render_outermost_first() {
    let e = SauceError::message("disk full").context("could not write index.html");
    assert_eq!(e.render(), "could not write index.html\ndisk full");
}

#[test]
fn elapsed_time_formats() {
    assert_eq!(format_elapsed(0), "0 ms");
    assert_eq!(format_elapsed(999), "999 ms");
    assert_eq!(format_elapsed(1000), "1000 ms");
    assert_eq!(format_elapsed(1001), "1 seconds, 1 ms");
    assert_eq!(format_elapsed(62345), "62 seconds, 345 ms");
    let t = Timer::start();
    assert!(t.stop().ends_with(" ms"));
}

#[test]
fn decimal_and_search() {
    assert_eq!(decimal_string(0), "0");
    assert_eq!(decimal_string(10), "10");
    assert_eq!(decimal_string(340282366920938463463374607431768211455), "340282366920938463463374607431768211455");
    assert!(contains_str("🛸 stage [1/3] ", "🛸 stage "));
    assert!(contains_str("abc", ""));
    assert!(!contains_str("", "a"));
    assert!(!contains_str("ab", "abc"));
    assert!(contains_str("xxabc", "abc"));
    assert!(!contains_str("xxabd", "abc"));
}

#[test]
fn logged_error_texts() {
    assert_eq!(Logger::error_text("could not read", None), "❌ could not read");
    assert_eq!(
        Logger::error_text("could not read", Some(SauceError::message("no such file"))),
        "❌ no such file\ncould not read"
    );
    Logger::error("an error line", None);
    Logger::info("an info line");
}

#[test]
fn success_line() {
    assert_eq!(success_message("12 ms"), "🎉 Success in 12 ms!");
}

#[test]
fn next_stage_runs_only_after_success() {
    let next = Spy::new("", "next", 0, Some("later failure"));
    let runs = next.counter();
    let kept = after_stage(Err(SauceError::message("first failure")), &next).unwrap_err();
    assert_eq!(kept.render(), "first failure");
    assert_eq!(runs.load(Ordering::SeqCst), 0);
    let ran = after_stage(Ok(()), &next).unwrap_err();
    assert_eq!(ran.render(), "later failure");
    assert_eq!(runs.load(Ordering::SeqCst), 1);
}
