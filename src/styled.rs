use vstd::prelude::*;

verus! {

/// A fragment of one output line that shares one terminal style.
///
/// `style` is the style tag (an empty tag means no explicit style), `text`
/// the raw content, white space included.
#[derive(Debug, Clone)]
pub struct StyledRun {
    pub style: String,
    pub text: String,
}

impl StyledRun {
    pub fn new(style: &str, text: &str) -> (r: StyledRun)
        ensures
            r.style@ == style@,
            r.text@ == text@,
    {
        StyledRun { style: style.to_owned(), text: text.to_owned() }
    }

    pub open spec fn is_unstyled(&self) -> bool {
        self.style@.len() == 0
    }
}

/// One line of output: its runs, from left to right.
#[derive(Debug, Clone)]
pub struct StyledLine {
    pub runs: Vec<StyledRun>,
}

impl View for StyledLine {
    type V = Seq<StyledRun>;

    open spec fn view(&self) -> Seq<StyledRun> {
        self.runs@
    }
}

/// What the line reads as plain text, when none of its runs is styled.
pub open spec fn plain_text(runs: Seq<StyledRun>) -> Option<Seq<char>>
    decreases runs.len(),
{
    if runs.len() == 0 {
        Some(Seq::empty())
    } else if !runs.last().is_unstyled() {
        None
    } else {
        match plain_text(runs.drop_last()) {
            Some(t) => Some(t + runs.last().text@),
            None => None,
        }
    }
}

impl StyledLine {
    pub fn new(runs: Vec<StyledRun>) -> (r: StyledLine)
        ensures
            r@ == runs@,
    {
        StyledLine { runs }
    }

    /// The text of the line when it carries no style at all.
    pub fn if_unstyled(&self) -> (r: Option<String>)
        ensures
            match r {
                Some(t) => plain_text(self@) == Some(t@),
                None => plain_text(self@) is None,
            },
    {
        let mut text = String::new();
        let mut i: usize = 0;
        while i < self.runs.len()
            invariant
                i <= self@.len(),
                plain_text(self@.subrange(0, i as int)) == Some(text@),
            decreases self@.len() - i,
        {
            let run = &self.runs[i];
            let ghost prefix = self@.subrange(0, i as int + 1);
            assert(prefix.drop_last() =~= self@.subrange(0, i as int));
            assert(prefix.last() == self@[i as int]);
            if !run.style.as_str().is_empty() {
                proof {
                    lemma_plain_text_styled_run(self@, i as int);
                }
                return None;
            }
            text.append(run.text.as_str());
            i += 1;
        }
        assert(self@.subrange(0, i as int) =~= self@);
        Some(text)
    }
}

proof fn lemma_plain_text_styled_run(runs: Seq<StyledRun>, i: int)
    requires
        0 <= i < runs.len(),
        !runs[i].is_unstyled(),
    ensures
        plain_text(runs) is None,
    decreases runs.len(),
{
    if i < runs.len() - 1 {
        lemma_plain_text_styled_run(runs.drop_last(), i);
    }
}

} // verus!
