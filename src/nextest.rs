use vstd::prelude::*;
use vstd::string::StringExecFns;
use crate::analysis::{AnalysisView, LineAnalysis, LineKind, key_view};
use crate::styled::{StyledRun, StyledLine, plain_text};
use crate::text::{trim, range_equals, str_equals, trimmed_equals};

verus! {

/// Style of section titles and of package names.
pub const TITLE_STYLE: &'static str = "\u{1b}[35;1m";

/// Style of the `PASS` marker.
pub const PASS_STYLE: &'static str = "\u{1b}[32;1m";

/// Style of the `FAIL`, `Canceling` and `error` markers.
pub const ERROR_STYLE: &'static str = "\u{1b}[31;1m";

/// A styled run that closes a key: the ` ---` suffix, or a title-styled run.
pub open spec fn is_key_end(run: StyledRun) -> bool {
    run.text@ == " ---"@ || run.style@ == TITLE_STYLE@
}

/// The key text found in `rest`: the text of its styled runs up to the
/// closing run, or `None` when runs follow that closing run.
pub open spec fn key_from(rest: Seq<StyledRun>) -> Option<Seq<char>>
    decreases rest.len(),
{
    if rest.len() == 0 {
        Some(Seq::empty())
    } else if rest[0].is_unstyled() {
        key_from(rest.drop_first())
    } else if is_key_end(rest[0]) {
        if rest.len() == 1 {
            Some(Seq::empty())
        } else {
            None
        }
    } else {
        match key_from(rest.drop_first()) {
            Some(k) => Some(rest[0].text@ + k),
            None => None,
        }
    }
}

/// The key that follows a package name run and a separator run, starting at
/// `start`; never empty.
pub open spec fn key_after_package(runs: Seq<StyledRun>, start: int) -> Option<Seq<char>> {
    let from = if start + 2 <= runs.len() {
        start + 2
    } else {
        runs.len() as int
    };
    match key_from(runs.subrange(from, runs.len() as int)) {
        Some(k) => if k.len() > 0 {
            Some(k)
        } else {
            None
        },
        None => None,
    }
}

/// The key of a `--- STDOUT: <package> <key> ---` line (or `STDERR`).
pub open spec fn title_key_of(runs: Seq<StyledRun>) -> Option<Seq<char>> {
    if runs.len() >= 2 && runs[0].text@ == "--- "@ && (trim(runs[1].text@) == "STDOUT:"@
        || trim(runs[1].text@) == "STDERR:"@) {
        key_after_package(runs, 2)
    } else {
        None
    }
}

/// Whether the first run is the `PASS` marker.
pub open spec fn is_pass_marker(run: StyledRun) -> bool {
    run.style@ == PASS_STYLE@ && trim(run.text@) == "PASS"@
}

/// Whether the first run is the `FAIL` marker.
pub open spec fn is_fail_marker(run: StyledRun) -> bool {
    run.style@ == ERROR_STYLE@ && trim(run.text@) == "FAIL"@
}

/// The key and the outcome of a `PASS [duration] <package> <key>` line (or `FAIL`).
pub open spec fn test_result_of(runs: Seq<StyledRun>) -> Option<(Seq<char>, bool)> {
    if runs.len() >= 2 && (is_pass_marker(runs[0]) || is_fail_marker(runs[0]))
        && runs[1].is_unstyled() {
        match key_after_package(runs, 2) {
            Some(k) => Some((k, is_pass_marker(runs[0]))),
            None => None,
        }
    } else {
        None
    }
}

/// Whether the line announces that the remaining tests are canceled.
pub open spec fn is_canceling_line(runs: Seq<StyledRun>) -> bool {
    runs.len() >= 1 && runs[0].style@ == ERROR_STYLE@ && trim(runs[0].text@) == "Canceling"@
}

/// Whether the line is the redundant `error: test run failed`.
pub open spec fn is_test_run_failed_line(runs: Seq<StyledRun>) -> bool {
    &&& runs.len() == 2
    &&& runs[0].style@ == ERROR_STYLE@
    &&& trim(runs[0].text@) == "error"@
    &&& trim(runs[1].text@) == ": test run failed"@
}

pub open spec fn is_ascii_digit(c: char) -> bool {
    '0' <= c && c <= '9'
}

/// Whether `s` is `running ` then `n` then `suffix`, with `n` one or more digits.
pub open spec fn is_count_line(s: Seq<char>, suffix: Seq<char>) -> bool {
    &&& s.len() >= 9 + suffix.len()
    &&& s.subrange(0, 8) == "running "@
    &&& s.subrange(s.len() - suffix.len(), s.len() as int) == suffix
    &&& forall|i: int| 8 <= i < s.len() - suffix.len() ==> is_ascii_digit(#[trigger] s[i])
}

/// The banner printed before the tests run: `running 12 tests`, `running 1 test`.
pub open spec fn is_running_banner(s: Seq<char>) -> bool {
    is_count_line(s, " tests"@) || is_count_line(s, " test"@)
}

/// The classification given by the shapes of the test tool's own lines, in
/// order of priority, or `None` when no shape matches.
pub open spec fn tool_analysis(runs: Seq<StyledRun>) -> Option<AnalysisView> {
    if let Some(k) = title_key_of(runs) {
        Some((LineKind::FailureTitle, Some(k), None))
    } else if let Some((k, pass)) = test_result_of(runs) {
        Some((LineKind::TestResult, Some(k), Some(pass)))
    } else if is_canceling_line(runs) {
        Some((LineKind::SectionEnd, None, None))
    } else if is_test_run_failed_line(runs) {
        Some((LineKind::Garbage, None, None))
    } else if let Some(t) = plain_text(runs) {
        if is_running_banner(t) {
            Some((LineKind::Garbage, None, None))
        } else if t == "------------"@ {
            Some((LineKind::SectionEnd, None, None))
        } else {
            None
        }
    } else {
        None
    }
}

proof fn lemma_key_from_step(runs: Seq<StyledRun>, i: int)
    requires
        0 <= i < runs.len(),
    ensures
        runs.subrange(i, runs.len() as int).drop_first() == runs.subrange(i + 1, runs.len() as int),
        runs.subrange(i, runs.len() as int)[0] == runs[i],
{
    assert(runs.subrange(i, runs.len() as int).drop_first() =~= runs.subrange(i + 1, runs.len() as int));
}

/// Extracts the key that follows the package name run and the separator run
/// starting at `start`.
pub fn extract_key_after_crate_name(runs: &Vec<StyledRun>, start: usize) -> (r: Option<String>)
    requires
        start <= runs@.len(),
    ensures
        key_view(r) == key_after_package(runs@, start as int),
{
    let n = runs.len();
    let mut i: usize = if n - start >= 2 {
        start + 2
    } else {
        n
    };
    let ghost from = i as int;
    let mut key = String::new();
    let mut closed = false;
    while i < n && !closed
        invariant
            n == runs@.len(),
            from <= i <= n,
            !closed ==> key_from(runs@.subrange(from, n as int)) == match key_from(
                runs@.subrange(i as int, n as int),
            ) {
                Some(k) => Some(key@ + k),
                None => None::<Seq<char>>,
            },
            closed ==> key_from(runs@.subrange(from, n as int)) == if i == n {
                Some(key@)
            } else {
                None::<Seq<char>>
            },
        decreases n - i,
    {
        let run = &runs[i];
        proof {
            lemma_key_from_step(runs@, i as int);
        }
        if run.style.as_str().is_empty() {
            i += 1;
        } else if str_equals(run.text.as_str(), " ---") || str_equals(run.style.as_str(), TITLE_STYLE) {
            proof {
                assert(key@ + Seq::<char>::empty() =~= key@);
            }
            i += 1;
            closed = true;
        } else {
            proof {
                match key_from(runs@.subrange(i as int + 1, n as int)) {
                    Some(k) => assert(key@ + (run.text@ + k) == (key@ + run.text@) + k),
                    None => {},
                }
            }
            key.append(run.text.as_str());
            i += 1;
        }
    }
    if closed && i < n {
        return None;
    }
    proof {
        if !closed {
            assert(runs@.subrange(i as int, n as int) =~= Seq::<StyledRun>::empty());
        }
        assert(key@ + Seq::<char>::empty() =~= key@);
    }
    if key.as_str().is_empty() {
        None
    } else {
        Some(key)
    }
}



/// Returns the key when the line is like `--- STDOUT: <package> <key> ---`
/// (or `STDERR`).
pub fn title_key(line: &StyledLine) -> (r: Option<String>)
    ensures
        key_view(r) == title_key_of(line@),
{
    let runs = &line.runs;
    if runs.len() < 2 {
        return None;
    }
    if !str_equals(runs[0].text.as_str(), "--- ") {
        return None;
    }
    let second = runs[1].text.as_str();
    if !trimmed_equals(second, "STDOUT:") && !trimmed_equals(second, "STDERR:") {
        return None;
    }
    extract_key_after_crate_name(runs, 2)
}

/// Returns the key and whether the test passed, when the line is a test
/// result like `PASS [   0.003s] <package> <key>`. The duration is not read.
pub fn as_test_result(line: &StyledLine) -> (r: Option<(String, bool)>)
    ensures
        match r {
            Some((k, pass)) => test_result_of(line@) == Some((k@, pass)),
            None => test_result_of(line@) is None,
        },
{
    let runs = &line.runs;
    if runs.len() < 2 {
        return None;
    }
    let first = &runs[0];
    let pass = str_equals(first.style.as_str(), PASS_STYLE) && trimmed_equals(
        first.text.as_str(),
        "PASS",
    );
    let fail = str_equals(first.style.as_str(), ERROR_STYLE) && trimmed_equals(
        first.text.as_str(),
        "FAIL",
    );
    if !pass && !fail {
        return None;
    }
    if !runs[1].style.as_str().is_empty() {
        return None;
    }
    match extract_key_after_crate_name(runs, 2) {
        Some(key) => Some((key, pass)),
        None => None,
    }
}

/// Whether the line announces that the remaining tests are canceled.
pub fn is_canceling(line: &StyledLine) -> (r: bool)
    ensures
        r == is_canceling_line(line@),
{
    if line.runs.len() < 1 {
        return false;
    }
    let first = &line.runs[0];
    str_equals(first.style.as_str(), ERROR_STYLE) && trimmed_equals(
        first.text.as_str(),
        "Canceling",
    )
}

/// Whether the line is the redundant `error: test run failed`.
pub fn is_error_test_run_failed(line: &StyledLine) -> (r: bool)
    ensures
        r == is_test_run_failed_line(line@),
{
    if line.runs.len() != 2 {
        return false;
    }
    let first = &line.runs[0];
    let second = &line.runs[1];
    str_equals(first.style.as_str(), ERROR_STYLE) && trimmed_equals(first.text.as_str(), "error")
        && trimmed_equals(second.text.as_str(), ": test run failed")
}

fn is_ascii_digit_char(c: char) -> (r: bool)
    ensures
        r == is_ascii_digit(c),
{
    '0' <= c && c <= '9'
}

fn is_count_line_text(s: &str, suffix: &str) -> (r: bool)
    ensures
        r == is_count_line(s@, suffix@),
{
    let n = s.unicode_len();
    let m = suffix.unicode_len();
    if n < 9 || n - 9 < m {
        return false;
    }
    if !range_equals(s, 0, 8, "running ") {
        return false;
    }
    if !range_equals(s, n - m, n, suffix) {
        return false;
    }
    let mut i: usize = 8;
    while i < n - m
        invariant
            n == s@.len(),
            m == suffix@.len(),
            8 <= i <= n - m,
            forall|j: int| 8 <= j < i ==> is_ascii_digit(#[trigger] s@[j]),
        decreases n - m - i,
    {
        if !is_ascii_digit_char(s.get_char(i)) {
            return false;
        }
        i += 1;
    }
    true
}

/// Whether `s` is the banner printed before the tests run, like `running 12 tests`.
pub fn is_running_banner_text(s: &str) -> (r: bool)
    ensures
        r == is_running_banner(s@),
{
    is_count_line_text(s, " tests") || is_count_line_text(s, " test")
}

/// Classifies the line by the shapes of the test tool's own lines, or returns
/// `None` when no shape matches.
pub fn analyze_tool_line(line: &StyledLine) -> (r: Option<LineAnalysis>)
    ensures
        match r {
            Some(a) => tool_analysis(line@) == Some(a@),
            None => tool_analysis(line@) is None,
        },
{
    if let Some(key) = title_key(line) {
        return Some(LineAnalysis::failure_title(key));
    }
    if let Some((key, pass)) = as_test_result(line) {
        return Some(LineAnalysis::test_result(key, pass));
    }
    if is_canceling(line) {
        return Some(LineAnalysis::of_kind(LineKind::SectionEnd));
    }
    if is_error_test_run_failed(line) {
        return Some(LineAnalysis::of_kind(LineKind::Garbage));
    }
    if let Some(text) = line.if_unstyled() {
        if is_running_banner_text(text.as_str()) {
            return Some(LineAnalysis::of_kind(LineKind::Garbage));
        }
        if str_equals(text.as_str(), "------------") {
            return Some(LineAnalysis::of_kind(LineKind::SectionEnd));
        }
    }
    None
}

/// Classifies one line of the test tool's output. A line that matches none
/// of the tool's shapes goes to `fallback`, called once, whose answer is
/// returned as it is.
pub fn analyze_line<F: FnOnce(&StyledLine) -> LineAnalysis>(line: &StyledLine, fallback: F) -> (r:
    LineAnalysis)
    requires
        call_requires(fallback, (line,)),
    ensures
        match tool_analysis(line@) {
            Some(a) => r@ == a,
            None => call_ensures(fallback, (line,), r),
        },
{
    match analyze_tool_line(line) {
        Some(a) => a,
        None => fallback(line),
    }
}

} // verus!
