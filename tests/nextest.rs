use nextest_lines::analysis::{DiagnosticKind, LineAnalysis, LineKind};
use nextest_lines::nextest::{
    analyze_line, analyze_tool_line, as_test_result, extract_key_after_crate_name, is_canceling,
    is_error_test_run_failed, is_running_banner_text, title_key,
};
use nextest_lines::styled::{StyledLine, StyledRun};
use nextest_lines::text::{str_equals, trimmed_equals};

fn line(runs: &[(&str, &str)]) -> StyledLine {
    StyledLine::new(runs.iter().map(|(s, t)| StyledRun::new(s, t)).collect())
}

fn delegated(_: &StyledLine) -> LineAnalysis {
    LineAnalysis::of_kind(LineKind::Delegated(DiagnosticKind::Warning))
}

#[test]
fn test_title_key() {
    let content = line(&[
        ("\u{1b}[35;1m", "--- "),
        ("\u{1b}[35;1m", "STDOUT:              "),
        ("\u{1b}[35;1m", "bacon-test"),
        ("", " "),
        ("\u{1b}[36m", "tests"),
        ("\u{1b}[36m", "::"),
        ("\u{1b}[34;1m", "failing_test3"),
        ("\u{1b}[35;1m", " ---"),
    ]);
    assert_eq!(title_key(&content), Some("tests::failing_test3".to_string()));
    let content = line(&[
        ("\u{1b}[31;1m", "--- "),
        ("\u{1b}[31;1m", "STDERR:              "),
        ("\u{1b}[35;1m", "bacon"),
        ("", " "),
        ("\u{1b}[36m", "analysis::nextest_analyzer"),
        ("\u{1b}[36m", "::"),
        ("\u{1b}[34;1m", "test_as_test_result"),
        ("\u{1b}[31;1m", " ---"),
    ]);
    assert_eq!(
        title_key(&content),
        Some("analysis::nextest_analyzer::test_as_test_result".to_string())
    );
}

#[test]
fn test_canceling() {
    let content = line(&[
        ("\u{1b}[31;1m", "   Canceling"),
        ("", " due to "),
        ("\u{1b}[31;1m", "test failure"),
        ("", ": "),
        ("\u{1b}[1m", "1"),
        ("", " test still running"),
    ]);
    assert_eq!(is_canceling(&content), true);
}

#[test]
fn test_as_test_result() {
    let content = line(&[
        ("\u{1b}[32;1m", "        PASS"),
        ("", " [   0.003s] "),
        ("\u{1b}[35;1m", "bacon"),
        ("", " "),
        ("\u{1b}[36m", "analysis::nextest_analyzer"),
        ("\u{1b}[36m", "::"),
        ("\u{1b}[34;1m", "test_canceling"),
    ]);
    assert_eq!(
        as_test_result(&content),
        Some(("analysis::nextest_analyzer::test_canceling".to_string(), true))
    );
}

#[test]
fn test_recognize_test_run_failed() {
    let content = line(&[("\u{1b}[31;1m", "error"), ("", ": test run failed")]);
    assert!(is_error_test_run_failed(&content));
}

#[test]
fn title_scenario_gives_failure_title() {
    let content = line(&[
        ("\u{1b}[35;1m", "--- "),
        ("\u{1b}[35;1m", "STDOUT:  "),
        ("\u{1b}[35;1m", "pkgname"),
        ("", "  "),
        ("\u{1b}[36m", "mod"),
        ("\u{1b}[36m", "::"),
        ("\u{1b}[34;1m", "leaf"),
        ("\u{1b}[35;1m", " ---"),
    ]);
    let a = analyze_line(&content, delegated);
    assert_eq!(a.kind, LineKind::FailureTitle);
    assert_eq!(a.key, Some("mod::leaf".to_string()));
    assert_eq!(a.outcome, None);
}

#[test]
fn pass_scenario_gives_test_result() {
    let content = line(&[
        ("\u{1b}[32;1m", "   PASS"),
        ("", "[0.003s] "),
        ("\u{1b}[35;1m", "pkgname"),
        ("", ""),
        ("\u{1b}[36m", "t::c"),
    ]);
    let a = analyze_line(&content, delegated);
    assert_eq!(a, LineAnalysis::test_result("t::c".to_string(), true));
}

#[test]
fn fail_line_gives_false_outcome() {
    let content = line(&[
        ("\u{1b}[31;1m", "        FAIL"),
        ("", " [   1.250s] "),
        ("\u{1b}[35;1m", "bacon"),
        ("", " "),
        ("\u{1b}[36m", "conf::"),
        ("\u{1b}[34;1m", "reads"),
    ]);
    let a = analyze_line(&content, delegated);
    assert_eq!(a, LineAnalysis::test_result("conf::reads".to_string(), false));
}

#[test]
fn plain_banner_is_garbage() {
    let a = analyze_line(&line(&[("", "running 12 tests")]), delegated);
    assert_eq!(a, LineAnalysis::of_kind(LineKind::Garbage));
    let a = analyze_line(&line(&[("", "running 1 test")]), delegated);
    assert_eq!(a, LineAnalysis::of_kind(LineKind::Garbage));
}

#[test]
fn plain_divider_ends_section() {
    let a = analyze_line(&line(&[("", "------------")]), delegated);
    assert_eq!(a, LineAnalysis::of_kind(LineKind::SectionEnd));
}

#[test]
fn banner_shapes() {
    assert!(is_running_banner_text("running 0 tests"));
    assert!(is_running_banner_text("running 120 test"));
    assert!(!is_running_banner_text("running  tests"));
    assert!(!is_running_banner_text("running 12 testss"));
    assert!(!is_running_banner_text("running 1a tests"));
    assert!(!is_running_banner_text(" running 3 tests"));
    assert!(!is_running_banner_text("running"));
}

#[test]
fn styled_banner_goes_to_fallback() {
    let a = analyze_line(&line(&[("\u{1b}[1m", "running 12 tests")]), delegated);
    assert_eq!(a.kind, LineKind::Delegated(DiagnosticKind::Warning));
}

#[test]
fn unmatched_lines_go_to_fallback_once() {
    let mut calls = 0;
    let content = line(&[("\u{1b}[33m", "warning"), ("", ": unused variable")]);
    let a = analyze_line(&content, |_| {
        calls += 1;
        LineAnalysis::of_kind(LineKind::Delegated(DiagnosticKind::Error))
    });
    assert_eq!(calls, 1);
    assert_eq!(a.kind, LineKind::Delegated(DiagnosticKind::Error));
    let empty = line(&[]);
    assert_eq!(analyze_tool_line(&empty), None);
    assert_eq!(analyze_line(&empty, |_| LineAnalysis::normal()).kind, LineKind::Normal);
}

#[test]
fn matched_lines_do_not_call_fallback() {
    let content = line(&[("\u{1b}[31;1m", "   Canceling"), ("", " due to test failure")]);
    let a = analyze_line(&content, |_| panic!("fallback called"));
    assert_eq!(a, LineAnalysis::of_kind(LineKind::SectionEnd));
}

#[test]
fn canceling_needs_error_style() {
    let content = line(&[("\u{1b}[32;1m", "Canceling")]);
    assert!(!is_canceling(&content));
    assert_eq!(analyze_line(&content, delegated).kind, LineKind::Delegated(DiagnosticKind::Warning));
}

#[test]
fn test_run_failed_is_garbage_with_two_runs_only() {
    let content = line(&[("\u{1b}[31;1m", " error "), ("", " : test run failed ")]);
    assert_eq!(analyze_line(&content, delegated), LineAnalysis::of_kind(LineKind::Garbage));
    let three = line(&[("\u{1b}[31;1m", "error"), ("", ": test run failed"), ("", "")]);
    assert!(!is_error_test_run_failed(&three));
}

#[test]
fn key_with_trailing_runs_is_refused() {
    let content = line(&[
        ("\u{1b}[35;1m", "--- "),
        ("\u{1b}[35;1m", "STDOUT:"),
        ("\u{1b}[35;1m", "bacon"),
        ("", " "),
        ("\u{1b}[36m", "t"),
        ("\u{1b}[35;1m", " ---"),
        ("", "more"),
    ]);
    assert_eq!(title_key(&content), None);
}

#[test]
fn empty_key_is_refused() {
    let content = line(&[
        ("\u{1b}[35;1m", "--- "),
        ("\u{1b}[35;1m", "STDERR:"),
        ("\u{1b}[35;1m", "bacon"),
        ("", " "),
        ("", "ignored"),
        ("\u{1b}[35;1m", " ---"),
    ]);
    assert_eq!(title_key(&content), None);
    assert_eq!(extract_key_after_crate_name(&content.runs, 2), None);
}

#[test]
fn key_skips_unstyled_runs() {
    let runs = line(&[
        ("\u{1b}[35;1m", "pkg"),
        ("", " "),
        ("\u{1b}[36m", "a"),
        ("", "x"),
        ("\u{1b}[36m", "::b"),
    ]);
    assert_eq!(extract_key_after_crate_name(&runs.runs, 0), Some("a::b".to_string()));
}

#[test]
fn title_needs_std_marker() {
    let content = line(&[
        ("\u{1b}[35;1m", "--- "),
        ("\u{1b}[35;1m", "STDIN: "),
        ("\u{1b}[35;1m", "bacon"),
        ("", " "),
        ("\u{1b}[36m", "t"),
    ]);
    assert_eq!(title_key(&content), None);
}

#[test]
fn result_needs_unstyled_duration() {
    let content = line(&[
        ("\u{1b}[32;1m", "PASS"),
        ("\u{1b}[1m", "[0.1s]"),
        ("\u{1b}[35;1m", "bacon"),
        ("", " "),
        ("\u{1b}[36m", "t"),
    ]);
    assert_eq!(as_test_result(&content), None);
}

#[test]
fn classifying_twice_gives_equal_results() {
    let content = line(&[
        ("\u{1b}[32;1m", "PASS"),
        ("", " [0.1s] "),
        ("\u{1b}[35;1m", "bacon"),
        ("", " "),
        ("\u{1b}[36m", "t"),
    ]);
    assert_eq!(analyze_tool_line(&content), analyze_tool_line(&content.clone()));
}

#[test]
fn text_comparisons() {
    assert!(trimmed_equals(" \t PASS\u{a0}\n", "PASS"));
    assert!(trimmed_equals("   ", ""));
    assert!(!trimmed_equals("PA SS", "PASS"));
    assert!(str_equals("--- ", "--- "));
    assert!(!str_equals("---", "--- "));
}
