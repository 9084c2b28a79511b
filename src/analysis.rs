use vstd::prelude::*;

verus! {

/// What the generic diagnostic classifier reports of a line.
#[derive(Debug, Clone, Copy, PartialEq, Eq, Structural)]
pub enum DiagnosticKind {
    Warning,
    Error,
    Location,
}

/// The meaning given to one line of output.
#[derive(Debug, Clone, Copy, PartialEq, Eq, Structural)]
pub enum LineKind {
    Normal,
    FailureTitle,
    TestResult,
    SectionEnd,
    Garbage,
    Delegated(DiagnosticKind),
}

/// The classification of one line: its kind, the test key of a title or a
/// result line, and the outcome of a result line.
#[derive(Debug, Clone, PartialEq, Eq)]
pub struct LineAnalysis {
    pub kind: LineKind,
    pub key: Option<String>,
    pub outcome: Option<bool>,
}

/// The mathematical value of a classification.
pub type AnalysisView = (LineKind, Option<Seq<char>>, Option<bool>);

pub open spec fn key_view(key: Option<String>) -> Option<Seq<char>> {
    match key {
        Some(k) => Some(k@),
        None => None,
    }
}

impl View for LineAnalysis {
    type V = AnalysisView;

    open spec fn view(&self) -> AnalysisView {
        (self.kind, key_view(self.key), self.outcome)
    }
}

/// A key comes with title and result lines only, and is never empty; an
/// outcome comes with result lines only.
pub open spec fn analysis_wf(a: AnalysisView) -> bool {
    &&& (a.1 is Some <==> (a.0 == LineKind::FailureTitle || a.0 == LineKind::TestResult))
    &&& (a.1 is Some ==> a.1->0.len() > 0)
    &&& (a.2 is Some <==> a.0 == LineKind::TestResult)
}

impl LineAnalysis {
    pub open spec fn wf(&self) -> bool {
        analysis_wf(self@)
    }

    /// A classification that carries neither key nor outcome.
    pub fn of_kind(kind: LineKind) -> (r: LineAnalysis)
        ensures
            r@ == (kind, None::<Seq<char>>, None::<bool>),
    {
        LineAnalysis { kind, key: None, outcome: None }
    }

    pub fn normal() -> (r: LineAnalysis)
        ensures
            r@ == (LineKind::Normal, None::<Seq<char>>, None::<bool>),
            r.wf(),
    {
        LineAnalysis::of_kind(LineKind::Normal)
    }

    /// The title of the captured output of a failed test.
    pub fn failure_title(key: String) -> (r: LineAnalysis)
        ensures
            r@ == (LineKind::FailureTitle, Some(key@), None::<bool>),
    {
        LineAnalysis { kind: LineKind::FailureTitle, key: Some(key), outcome: None }
    }

    /// The result of one test.
    pub fn test_result(key: String, pass: bool) -> (r: LineAnalysis)
        ensures
            r@ == (LineKind::TestResult, Some(key@), Some(pass)),
    {
        LineAnalysis { kind: LineKind::TestResult, key: Some(key), outcome: Some(pass) }
    }
}

} // verus!
