//! The diff gate: what stands between a proposed file content and the disk.
//!
//! A proposed content is compared with the existing one line by line. Where
//! no line differs the write needs no confirmation. Otherwise the lines are
//! shown and the user answers yes, no or all.

use vstd::prelude::*;
use vstd::string::*;
use crate::text::{
    ascii_lowered, is_ascii_text, lemma_trimmed_keeps_ascii, lowercase_text, lowercased, text_eq,
    trim_text, trimmed,
};

verus! {

/// The user's answer to a proposed change.
#[derive(Debug, Clone, Copy, PartialEq, Eq)]
pub enum ConfirmAction {
    /// Accept this change.
    Yes,
    /// Reject this change.
    No,
    /// Accept this change and every later one of the same plan.
    All,
}

/// How a line of a diff relates the old text to the new one.
#[derive(Debug, Clone, Copy, PartialEq, Eq)]
pub enum ChangeTag {
    /// The line stands in both texts.
    Equal,
    /// The line stands in the old text only.
    Delete,
    /// The line stands in the new text only.
    Insert,
}

/// One line of a diff. The text keeps its line ending.
#[derive(Debug, Clone, PartialEq, Eq)]
pub struct DiffLine {
    pub tag: ChangeTag,
    pub text: String,
}

/// The mathematical value of a [`DiffLine`].
pub struct DiffLineView {
    pub tag: ChangeTag,
    pub text: Seq<char>,
}

impl View for DiffLine {
    type V = DiffLineView;

    open spec fn view(&self) -> DiffLineView {
        DiffLineView { tag: self.tag, text: self.text@ }
    }
}

impl DeepView for DiffLine {
    type V = DiffLineView;

    open spec fn deep_view(&self) -> DiffLineView {
        self.view()
    }
}

/// The line diff that the `similar` crate computes from `old` to `new`
/// with its default algorithm: all lines of both texts, each with its tag,
/// in the order in which `TextDiff::iter_all_changes` hands them out.
pub uninterp spec fn line_changes(old: Seq<char>, new: Seq<char>) -> Seq<DiffLineView>;

/// Some line of the diff is no `Equal` line.
pub open spec fn has_changes(lines: Seq<DiffLineView>) -> bool {
    exists|i: int| 0 <= i < lines.len() && lines[i].tag != ChangeTag::Equal
}

/// What an answer means, once it is trimmed and in lower case.
pub open spec fn answer_meaning(normalized: Seq<char>) -> Option<ConfirmAction> {
    if normalized == "y"@ || normalized == "yes"@ {
        Some(ConfirmAction::Yes)
    } else if normalized == "n"@ || normalized == "no"@ {
        Some(ConfirmAction::No)
    } else if normalized == "a"@ || normalized == "all"@ {
        Some(ConfirmAction::All)
    } else {
        None
    }
}

/// The heading of a diff: a file without old content is a new file.
pub open spec fn diff_title_of(path: Seq<char>, old: Seq<char>) -> Seq<char> {
    if old.len() == 0 {
        "✨ NEW FILE: "@ + path
    } else {
        "📝 EDITING: "@ + path
    }
}

/// The mark that a tag is shown with.
pub open spec fn sign_of(tag: ChangeTag) -> Seq<char> {
    match tag {
        ChangeTag::Delete => "-"@,
        ChangeTag::Insert => "+"@,
        ChangeTag::Equal => " "@,
    }
}

/// Calls `similar::TextDiff::from_lines` and walks
/// `TextDiff::iter_all_changes`, copying each change's tag and text.
///
/// The diff is named, not described: see [`line_changes`]. Two facts are
/// claimed of it. Two equal texts give `Equal` lines only: `similar`
/// splits both texts into the same lines and takes their common prefix,
/// which is all of them, as one run of equal lines before it looks for
/// anything else. And two different texts give a line that is not
/// `Equal`: the lines keep their endings, so that the lines of a text make
/// up the text; every line of both texts is handed out; and only lines
/// that are equal are handed out as `Equal`.
#[verifier::external_body]
pub(crate) fn diff_lines(old: &str, new: &str) -> (lines: Vec<DiffLine>)
    ensures
        lines.deep_view() == line_changes(old@, new@),
        old@ == new@ ==> forall|i: int|
            0 <= i < lines.len() ==> (#[trigger] lines[i]).tag == ChangeTag::Equal,
        old@ != new@ ==> exists|i: int|
            0 <= i < lines.len() && (#[trigger] lines[i]).tag != ChangeTag::Equal,
{
    let diff = similar::TextDiff::from_lines(old, new);
    let mut lines = Vec::new();
    for change in diff.iter_all_changes() {
        let tag = match change.tag() {
            similar::ChangeTag::Equal => ChangeTag::Equal,
            similar::ChangeTag::Delete => ChangeTag::Delete,
            similar::ChangeTag::Insert => ChangeTag::Insert,
        };
        lines.push(DiffLine { tag, text: change.value().to_string() });
    }
    lines
}

/// Whether some line of the diff is no `Equal` line.
pub fn changes_found(lines: &Vec<DiffLine>) -> (found: bool)
    ensures
        found == has_changes(lines.deep_view()),
{
    let mut i: usize = 0;
    while i < lines.len()
        invariant
            i <= lines.len(),
            forall|k: int| 0 <= k < i ==> lines.deep_view()[k].tag == ChangeTag::Equal,
        decreases lines.len() - i,
    {
        match lines[i].tag {
            ChangeTag::Equal => {},
            _ => {
                assert(lines.deep_view()[i as int].tag != ChangeTag::Equal);
                return true;
            },
        }
        i += 1;
    }
    false
}

/// A proposed change of one file, ready to be shown.
#[derive(Debug, Clone, PartialEq, Eq)]
pub struct DiffReview {
    /// The heading to show above the diff.
    pub title: String,
    /// The lines of the diff, in order.
    pub lines: Vec<DiffLine>,
    /// Whether any line differs. Where none does, the change is accepted
    /// without asking.
    pub changed: bool,
}

/// The mathematical value of a [`DiffReview`].
pub struct DiffReviewView {
    pub title: Seq<char>,
    pub lines: Seq<DiffLineView>,
    pub changed: bool,
}

impl View for DiffReview {
    type V = DiffReviewView;

    open spec fn view(&self) -> DiffReviewView {
        DiffReviewView {
            title: self.title@,
            lines: self.lines.deep_view(),
            changed: self.changed,
        }
    }
}

impl DeepView for DiffReview {
    type V = DiffReviewView;

    open spec fn deep_view(&self) -> DiffReviewView {
        self.view()
    }
}

/// The review of the change of `path` from `old` to `new`.
pub open spec fn review_of(path: Seq<char>, old: Seq<char>, new: Seq<char>) -> DiffReviewView {
    DiffReviewView {
        title: diff_title_of(path, old),
        lines: line_changes(old, new),
        changed: has_changes(line_changes(old, new)),
    }
}

/// Compares the existing content of `path` with the proposed one.
///
/// The change is marked as changed exactly where the two contents differ:
/// a content that is proposed unchanged is accepted without a question,
/// and no other is.
pub fn review_change(path: &str, old: &str, new: &str) -> (review: DiffReview)
    ensures
        review@ == review_of(path@, old@, new@),
        review.changed == (old@ != new@),
{
    let lines = diff_lines(old, new);
    let changed = changes_found(&lines);
    proof {
        if old@ == new@ {
            assert forall|i: int| 0 <= i < lines.len() implies lines.deep_view()[i].tag
                == ChangeTag::Equal by {
                assert(lines[i].tag == ChangeTag::Equal);
            }
        } else {
            let i = choose|i: int| 0 <= i < lines.len() && (#[trigger] lines[i]).tag
                != ChangeTag::Equal;
            assert(lines.deep_view()[i].tag != ChangeTag::Equal);
        }
    }
    let mut title = if old.is_empty() {
        String::from_str("✨ NEW FILE: ")
    } else {
        String::from_str("📝 EDITING: ")
    };
    title.append(path);
    DiffReview { title, lines, changed }
}

/// The mark to show a line of the given tag with.
pub fn sign(tag: ChangeTag) -> (mark: &'static str)
    ensures
        mark@ == sign_of(tag),
{
    match tag {
        ChangeTag::Delete => "-",
        ChangeTag::Insert => "+",
        ChangeTag::Equal => " ",
    }
}

/// What an answer means that is trimmed and in lower case already: `y` or
/// `yes`, `n` or `no`, `a` or `all`. Anything else is no answer.
pub fn decision_for(normalized: &str) -> (decision: Option<ConfirmAction>)
    ensures
        decision == answer_meaning(normalized@),
{
    if text_eq(normalized, "y") || text_eq(normalized, "yes") {
        Some(ConfirmAction::Yes)
    } else if text_eq(normalized, "n") || text_eq(normalized, "no") {
        Some(ConfirmAction::No)
    } else if text_eq(normalized, "a") || text_eq(normalized, "all") {
        Some(ConfirmAction::All)
    } else {
        None
    }
}

/// What a line typed by the user means. White space around the answer and
/// the case of its letters do not count. `None` asks for the question to be
/// put again. Of a line of ASCII characters the meaning is that of the
/// trimmed line with its capitals in lower case.
pub fn parse_confirmation(input: &str) -> (decision: Option<ConfirmAction>)
    ensures
        decision == answer_meaning(lowercased(trimmed(input@))),
        is_ascii_text(input@) ==> decision == answer_meaning(ascii_lowered(trimmed(input@))),
{
    proof {
        if is_ascii_text(input@) {
            lemma_trimmed_keeps_ascii(input@);
        }
    }
    let normalized = lowercase_text(trim_text(input).as_str());
    decision_for(normalized.as_str())
}

/// How the confirmation of a change went.
#[derive(Debug, Clone, PartialEq, Eq)]
pub struct Confirmation {
    /// What was shown.
    pub review: DiffReview,
    /// What was decided, unless the answers ran out before one was given.
    pub decision: Option<ConfirmAction>,
    /// How many lines were read from the user.
    pub lines_read: usize,
}

/// What a series of typed lines decides: the meaning of the first line
/// that is an answer, and the number of lines read up to it; or nothing,
/// with all lines read.
pub open spec fn first_answer(lines: Seq<Seq<char>>) -> (Option<ConfirmAction>, int)
    decreases lines.len(),
{
    if lines.len() == 0 {
        (None, 0)
    } else {
        match answer_meaning(lowercased(trimmed(lines.first()))) {
            Some(decision) => (Some(decision), 1),
            None => (first_answer(lines.drop_first()).0, first_answer(lines.drop_first()).1 + 1),
        }
    }
}

/// What a series of typed lines decides.
fn decide(lines: &Vec<String>) -> (found: (Option<ConfirmAction>, usize))
    ensures
        found.0 == first_answer(lines.deep_view()).0,
        found.1 == first_answer(lines.deep_view()).1,
{
    let ghost all = lines.deep_view();
    let mut i: usize = 0;
    assert(all.skip(0) =~= all);
    while i < lines.len()
        invariant
            i <= lines.len(),
            all == lines.deep_view(),
            first_answer(all.skip(i as int)).0 == first_answer(all).0,
            first_answer(all.skip(i as int)).1 + i == first_answer(all).1,
        decreases lines.len() - i,
    {
        proof {
            assert(all.skip(i as int).first() == lines[i as int]@);
            assert(all.skip(i as int).drop_first() =~= all.skip(i + 1));
        }
        match parse_confirmation(lines[i].as_str()) {
            Some(decision) => {
                return (Some(decision), i + 1);
            },
            None => {},
        }
        i += 1;
    }
    (None, i)
}

/// Puts the change of `file_path` from `old_content` to `new_content` to
/// a user who types `answers`, one line after the other.
///
/// A content that does not change is accepted without a line being read.
/// Otherwise the lines are read until one is an answer; lines that are no
/// answer are passed over, as the question is put again.
pub fn show_diff_and_confirm(
    file_path: &str,
    old_content: &str,
    new_content: &str,
    answers: &Vec<String>,
) -> (outcome: Confirmation)
    ensures
        outcome.review@ == review_of(file_path@, old_content@, new_content@),
        !outcome.review.changed ==> outcome.decision == Some(ConfirmAction::Yes)
            && outcome.lines_read == 0,
        outcome.review.changed ==> outcome.decision == first_answer(answers.deep_view()).0
            && outcome.lines_read == first_answer(answers.deep_view()).1,
        outcome.review.changed == (old_content@ != new_content@),
{
    let review = review_change(file_path, old_content, new_content);
    if !review.changed {
        return Confirmation { review, decision: Some(ConfirmAction::Yes), lines_read: 0 };
    }
    let found = decide(answers);
    Confirmation { review, decision: found.0, lines_read: found.1 }
}

} // verus!
