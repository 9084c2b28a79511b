use vstd::prelude::*;
use crate::analysis::{LineKind, analysis_wf};
use crate::nextest::{
    ERROR_STYLE, PASS_STYLE, is_canceling_line, is_fail_marker, is_key_end, is_pass_marker,
    key_after_package, key_from, test_result_of, title_key_of, tool_analysis,
};
use crate::styled::{StyledRun, plain_text};
use crate::text::{trim, trim_start, trim_end};

verus! {

/// The text of the styled runs of `runs`, in order; unstyled runs add nothing.
pub open spec fn styled_text(runs: Seq<StyledRun>) -> Seq<char>
    decreases runs.len(),
{
    if runs.len() == 0 {
        Seq::empty()
    } else if runs[0].is_unstyled() {
        styled_text(runs.drop_first())
    } else {
        runs[0].text@ + styled_text(runs.drop_first())
    }
}

/// Runs that may stand inside a key: none of them is a styled closing run.
pub open spec fn is_key_body(runs: Seq<StyledRun>) -> bool {
    forall|i: int| 0 <= i < runs.len() ==> #[trigger] runs[i].is_unstyled() || !is_key_end(runs[i])
}

/// A run that closes a key.
pub open spec fn is_key_close(run: StyledRun) -> bool {
    !run.is_unstyled() && is_key_end(run)
}

proof fn lemma_key_from_body(body: Seq<StyledRun>, tail: Seq<StyledRun>)
    requires
        is_key_body(body),
    ensures
        key_from(body + tail) == match key_from(tail) {
            Some(k) => Some(styled_text(body) + k),
            None => None::<Seq<char>>,
        },
    decreases body.len(),
{
    if body.len() == 0 {
        assert(body + tail =~= tail);
        if let Some(k) = key_from(tail) {
            assert(Seq::<char>::empty() + k =~= k);
        }
    } else {
        let rest = body.drop_first();
        assert((body + tail).drop_first() =~= rest + tail);
        assert((body + tail)[0] == body[0]);
        assert(is_key_body(rest)) by {
            assert forall|i: int| 0 <= i < rest.len() implies #[trigger] rest[i].is_unstyled()
                || !is_key_end(rest[i]) by {
                assert(rest[i] == body[i + 1]);
            }
        }
        lemma_key_from_body(rest, tail);
        if !body[0].is_unstyled() {
            if let Some(k) = key_from(tail) {
                assert(body[0].text@ + (styled_text(rest) + k) =~= (body[0].text@ + styled_text(
                    rest,
                )) + k);
            }
        }
    }
}

proof fn lemma_key_from_tail(body: Seq<StyledRun>, tail: Seq<StyledRun>)
    requires
        is_key_body(body),
        tail.len() == 0 || (tail.len() == 1 && is_key_close(tail[0])),
    ensures
        key_from(body + tail) == Some(styled_text(body)),
{
    lemma_key_from_body(body, tail);
    assert(styled_text(body) + Seq::<char>::empty() =~= styled_text(body));
}

proof fn lemma_key_after_head(
    head: Seq<StyledRun>,
    body: Seq<StyledRun>,
    tail: Seq<StyledRun>,
)
    requires
        head.len() == 4,
        is_key_body(body),
        tail.len() == 0 || (tail.len() == 1 && is_key_close(tail[0])),
        styled_text(body).len() > 0,
    ensures
        key_after_package(head + body + tail, 2) == Some(styled_text(body)),
{
    let runs = head + body + tail;
    assert(runs.subrange(4, runs.len() as int) =~= body + tail);
    lemma_key_from_tail(body, tail);
}

proof fn lemma_trim_title_marker()
    ensures
        trim("--- "@).len() == 3,
{
    reveal_strlit("--- ");
    let s = "--- "@;
    assert(trim_start(s) == s);
    assert(s.last() == ' ');
    assert(s.drop_last().last() == '-');
    assert(trim_end(s.drop_last()) == s.drop_last());
}

proof fn lemma_marker_texts()
    ensures
        "PASS"@.len() == 4,
        "FAIL"@.len() == 4,
        "Canceling"@.len() == 9,
        "error"@.len() == 5,
        PASS_STYLE@ != ERROR_STYLE@,
{
    reveal_strlit("PASS");
    reveal_strlit("FAIL");
    reveal_strlit("Canceling");
    reveal_strlit("error");
    reveal_strlit("\u{1b}[32;1m");
    reveal_strlit("\u{1b}[31;1m");
    assert(PASS_STYLE@[3] != ERROR_STYLE@[3]);
}

/// A title line `--- STDOUT: <package> <key> ---` (or `STDERR`) is the title
/// of a failure, keyed by the text of the key's styled runs, whatever
/// unstyled runs stand between them.
pub proof fn title_line_gives_its_key(
    first: StyledRun,
    second: StyledRun,
    package: StyledRun,
    separator: StyledRun,
    body: Seq<StyledRun>,
    close: StyledRun,
)
    requires
        first.text@ == "--- "@,
        trim(second.text@) == "STDOUT:"@ || trim(second.text@) == "STDERR:"@,
        is_key_body(body),
        styled_text(body).len() > 0,
        is_key_close(close),
    ensures
        tool_analysis(seq![first, second, package, separator] + body + seq![close]) == Some(
            (LineKind::FailureTitle, Some(styled_text(body)), None::<bool>),
        ),
{
    let head = seq![first, second, package, separator];
    lemma_key_after_head(head, body, seq![close]);
    let runs = head + body + seq![close];
    assert(runs[0] == first && runs[1] == second);
}

/// A result line `PASS [<duration>] <package> <key>` has the outcome `true`,
/// one with `FAIL` the outcome `false`; its key is the text of the key's
/// styled runs.
pub proof fn result_line_gives_its_outcome(
    marker: StyledRun,
    duration: StyledRun,
    package: StyledRun,
    separator: StyledRun,
    body: Seq<StyledRun>,
    tail: Seq<StyledRun>,
)
    requires
        is_pass_marker(marker) || is_fail_marker(marker),
        duration.is_unstyled(),
        is_key_body(body),
        styled_text(body).len() > 0,
        tail.len() == 0 || (tail.len() == 1 && is_key_close(tail[0])),
    ensures
        tool_analysis(seq![marker, duration, package, separator] + body + tail) == Some(
            (LineKind::TestResult, Some(styled_text(body)), Some(is_pass_marker(marker))),
        ),
        is_pass_marker(marker) ==> !is_fail_marker(marker),
{
    let head = seq![marker, duration, package, separator];
    lemma_key_after_head(head, body, tail);
    let runs = head + body + tail;
    assert(runs[0] == marker && runs[1] == duration);
    lemma_trim_title_marker();
    lemma_marker_texts();
    assert(title_key_of(runs) is None);
}

/// Only a test result carries an outcome, only a title or a result carries
/// a key, and a key is never empty.
pub proof fn tool_analysis_is_well_formed(runs: Seq<StyledRun>)
    ensures
        tool_analysis(runs) matches Some(a) ==> analysis_wf(a),
{
}

/// A line whose first run is `Canceling` in the error style ends a section,
/// whatever follows it.
pub proof fn canceling_line_ends_section(runs: Seq<StyledRun>)
    requires
        runs.len() >= 1,
        runs[0].style@ == ERROR_STYLE@,
        trim(runs[0].text@) == "Canceling"@,
    ensures
        tool_analysis(runs) == Some((LineKind::SectionEnd, None::<Seq<char>>, None::<bool>)),
{
    lemma_trim_title_marker();
    lemma_marker_texts();
    assert(title_key_of(runs) is None);
    assert(test_result_of(runs) is None);
}

/// The two-run line `error: test run failed`, with `error` in the error
/// style, is noise.
pub proof fn test_run_failed_line_is_garbage(runs: Seq<StyledRun>)
    requires
        runs.len() == 2,
        runs[0].style@ == ERROR_STYLE@,
        trim(runs[0].text@) == "error"@,
        trim(runs[1].text@) == ": test run failed"@,
    ensures
        tool_analysis(runs) == Some((LineKind::Garbage, None::<Seq<char>>, None::<bool>)),
{
    lemma_trim_title_marker();
    lemma_marker_texts();
    assert(title_key_of(runs) is None);
    assert(test_result_of(runs) is None);
    assert(!is_canceling_line(runs));
}


/// Two sequences of runs with the same styles and texts, run by run.
pub open spec fn same_runs(a: Seq<StyledRun>, b: Seq<StyledRun>) -> bool {
    &&& a.len() == b.len()
    &&& forall|i: int|
        0 <= i < a.len() ==> (#[trigger] a[i]).style@ == b[i].style@ && a[i].text@ == b[i].text@
}

proof fn lemma_same_runs_key_from(a: Seq<StyledRun>, b: Seq<StyledRun>)
    requires
        same_runs(a, b),
    ensures
        key_from(a) == key_from(b),
    decreases a.len(),
{
    if a.len() > 0 {
        assert(same_runs(a.drop_first(), b.drop_first())) by {
            assert forall|i: int| 0 <= i < a.len() - 1 implies (#[trigger] a.drop_first()[i]).style@
                == b.drop_first()[i].style@ && a.drop_first()[i].text@ == b.drop_first()[i].text@ by {
                assert(a.drop_first()[i] == a[i + 1]);
            }
        }
        assert(a[0].style@ == b[0].style@);
        lemma_same_runs_key_from(a.drop_first(), b.drop_first());
    }
}

proof fn lemma_same_runs_plain_text(a: Seq<StyledRun>, b: Seq<StyledRun>)
    requires
        same_runs(a, b),
    ensures
        plain_text(a) == plain_text(b),
    decreases a.len(),
{
    if a.len() > 0 {
        assert(same_runs(a.drop_last(), b.drop_last())) by {
            assert forall|i: int| 0 <= i < a.len() - 1 implies (#[trigger] a.drop_last()[i]).style@
                == b.drop_last()[i].style@ && a.drop_last()[i].text@ == b.drop_last()[i].text@ by {
                assert(a.drop_last()[i] == a[i]);
            }
        }
        assert(a.last().style@ == b.last().style@);
        lemma_same_runs_plain_text(a.drop_last(), b.drop_last());
    }
}

/// Classifying the same line twice gives the same result: the classification
/// depends on nothing but the styles and texts of the line's runs.
pub proof fn analysis_depends_on_runs_alone(a: Seq<StyledRun>, b: Seq<StyledRun>)
    requires
        same_runs(a, b),
    ensures
        tool_analysis(a) == tool_analysis(b),
{
    if a.len() >= 2 {
        assert(a[0].text@ == b[0].text@ && a[1].text@ == b[1].text@);
        assert(a[0].style@ == b[0].style@ && a[1].style@ == b[1].style@);
    }
    if a.len() >= 1 {
        assert(a[0].text@ == b[0].text@ && a[0].style@ == b[0].style@);
    }
    let from = if 4 <= a.len() {
        4
    } else {
        a.len() as int
    };
    let sa = a.subrange(from, a.len() as int);
    let sb = b.subrange(from, b.len() as int);
    assert(same_runs(sa, sb)) by {
        assert forall|i: int| 0 <= i < sa.len() implies (#[trigger] sa[i]).style@ == sb[i].style@
            && sa[i].text@ == sb[i].text@ by {
            assert(sa[i] == a[from + i]);
        }
    }
    lemma_same_runs_key_from(sa, sb);
    lemma_same_runs_plain_text(a, b);
}

} // verus!
