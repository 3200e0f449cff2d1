//! The lines in which two texts differ, and how they are shown.

use vstd::prelude::*;
use vstd::string::StringExecFns;

verus! {

/// What became of a line between the old text and the new one.
#[derive(Debug, PartialEq, Eq, Structural, Clone, Copy)]
pub enum ChangeTag {
    /// The line stands in both texts.
    Equal,
    /// The line stands in the old text only.
    Delete,
    /// The line stands in the new text only.
    Insert,
}

/// One line of a comparison of two texts.
#[derive(Debug, PartialEq, Clone)]
pub struct DiffLine {
    pub tag: ChangeTag,
    /// The line, with the line break at its end.
    pub text: String,
}

/// A line of a comparison, as contracts speak of it.
pub struct LineChange {
    pub tag: ChangeTag,
    pub text: Seq<char>,
}

impl View for DiffLine {
    type V = LineChange;

    open spec fn view(&self) -> LineChange {
        LineChange { tag: self.tag, text: self.text@ }
    }
}

/// The colours in which changed lines are marked.
#[derive(Debug, PartialEq, Eq, Structural, Clone, Copy)]
pub enum Colour {
    Red,
    Green,
}

/// The views of the lines in `changes`.
pub open spec fn change_views(changes: Seq<DiffLine>) -> Seq<LineChange> {
    Seq::new(changes.len(), |i: int| changes[i]@)
}

/// The views of the strings in `lines`.
pub open spec fn line_views(lines: Seq<String>) -> Seq<Seq<char>> {
    Seq::new(lines.len(), |i: int| lines[i]@)
}

/// The line-by-line comparison of two texts that `similar` computes with its
/// default settings: the lines of the two texts in order, each with the tag
/// that says in which of the two it stands.
pub uninterp spec fn line_changes(old: Seq<char>, new: Seq<char>) -> Seq<LineChange>;

/// The number by which a terminal selects a colour for text.
pub open spec fn colour_code(colour: Colour) -> Seq<char> {
    match colour {
        Colour::Red => seq!['3', '1'],
        Colour::Green => seq!['3', '2'],
    }
}

/// `text` between the escape sequence that switches the colour on and the
/// one that resets it.
pub open spec fn painted(colour: Colour, text: Seq<char>) -> Seq<char> {
    seq!['\u{1b}', '['] + colour_code(colour) + seq!['m'] + text + seq!['\u{1b}', '[', '0', 'm']
}

/// Compares two texts line by line.
///
/// Trusted: calls `similar::TextDiff::from_lines` and walks
/// `iter_all_changes`. The contract claims that the changes are a function of
/// the two texts, and that two equal texts give lines tagged `Equal` only
/// (the comparison starts by taking the common beginning of the two texts as
/// equal).
#[verifier::external_body]
fn compare_lines(old: &str, new: &str) -> (changes: Vec<DiffLine>)
    ensures
        change_views(changes@) == line_changes(old@, new@),
        old@ == new@ ==> forall|i: int|
            0 <= i < changes.len() ==> (#[trigger] changes[i]).tag == ChangeTag::Equal,
{
    similar::TextDiff::from_lines(old, new)
        .iter_all_changes()
        .map(
            |change|
                DiffLine {
                    tag: match change.tag() {
                        similar::ChangeTag::Equal => ChangeTag::Equal,
                        similar::ChangeTag::Delete => ChangeTag::Delete,
                        similar::ChangeTag::Insert => ChangeTag::Insert,
                    },
                    text: change.to_string(),
                },
        )
        .collect()
}

/// Puts `text` in a colour.
///
/// Trusted: calls `ansi_term::Colour::paint` and writes the result out. The
/// contract claims that the text comes back between the escape sequence of
/// the colour (`ESC [ 31 m` for red, `ESC [ 32 m` for green) and the reset
/// sequence `ESC [ 0 m`.
#[verifier::external_body]
fn paint(colour: Colour, text: &str) -> (coloured: String)
    ensures
        coloured@ == painted(colour, text@),
{
    let colour = match colour {
        Colour::Red => ansi_term::Colour::Red,
        Colour::Green => ansi_term::Colour::Green,
    };
    colour.paint(text).to_string()
}

/// A changed line as it is shown: two spaces, the sign in its colour, the line.
pub open spec fn shown_line(colour: Colour, sign: Seq<char>, text: Seq<char>) -> Seq<char> {
    seq![' ', ' '] + painted(colour, sign) + text
}

/// The lines to show for a comparison: a deleted line with a red `-`, an
/// inserted line with a green `+`, in the order of the comparison; lines that
/// did not change are not shown.
pub open spec fn shown(changes: Seq<LineChange>) -> Seq<Seq<char>>
    decreases changes.len(),
{
    if changes.len() == 0 {
        Seq::empty()
    } else {
        let before = shown(changes.drop_last());
        let change = changes.last();
        match change.tag {
            ChangeTag::Equal => before,
            ChangeTag::Delete => before.push(shown_line(Colour::Red, seq!['-'], change.text)),
            ChangeTag::Insert => before.push(shown_line(Colour::Green, seq!['+'], change.text)),
        }
    }
}

/// Where no line changed, nothing is shown.
pub proof fn lemma_nothing_shown_of_equal_lines(changes: Seq<LineChange>)
    requires
        forall|i: int| 0 <= i < changes.len() ==> (#[trigger] changes[i]).tag == ChangeTag::Equal,
    ensures
        shown(changes).len() == 0,
    decreases changes.len(),
{
    if changes.len() > 0 {
        lemma_nothing_shown_of_equal_lines(changes.drop_last());
    }
}

/// `prefix` in `colour`, then `message`, after two spaces.
fn show_line(prefix: &str, colour: Colour, message: &str) -> (line: String)
    ensures
        line@ == shown_line(colour, prefix@, message@),
{
    proof {
        reveal_strlit("  ");
    }
    let mut line = String::from_str("  ");
    let sign = paint(colour, prefix);
    line.append(sign.as_str());
    line.append(message);
    line
}

/// The lines to show for `changes`, as [`shown`] says.
pub fn render_changes(changes: &Vec<DiffLine>) -> (lines: Vec<String>)
    ensures
        line_views(lines@) == shown(change_views(changes@)),
{
    proof {
        reveal_strlit("-");
        reveal_strlit("+");
    }
    let mut lines: Vec<String> = Vec::new();
    let mut i: usize = 0;
    while i < changes.len()
        invariant
            i <= changes.len(),
            "-"@ == seq!['-'],
            "+"@ == seq!['+'],
            line_views(lines@) == shown(change_views(changes@).take(i as int)),
        decreases changes.len() - i,
    {
        let change = &changes[i];
        assert(change_views(changes@).take(i + 1).drop_last() == change_views(changes@).take(
            i as int,
        ));
        match change.tag {
            ChangeTag::Delete => {
                let line = show_line("-", Colour::Red, change.text.as_str());
                lines.push(line);
            },
            ChangeTag::Insert => {
                let line = show_line("+", Colour::Green, change.text.as_str());
                lines.push(line);
            },
            ChangeTag::Equal => {},
        }
        i += 1;
    }
    assert(change_views(changes@).take(changes.len() as int) == change_views(changes@));
    lines
}

/// The lines to show for the change from `content` to `new_content`: what
/// [`shown`] makes of their comparison. Two equal texts show nothing.
pub fn render_diff(content: &str, new_content: &str) -> (lines: Vec<String>)
    ensures
        line_views(lines@) == shown(line_changes(content@, new_content@)),
        content@ == new_content@ ==> lines.len() == 0,
{
    let changes = compare_lines(content, new_content);
    proof {
        if content@ == new_content@ {
            assert forall|i: int| 0 <= i < changes.len() implies (#[trigger] change_views(
                changes@,
            )[i]).tag == ChangeTag::Equal by {
                assert(changes[i].tag == ChangeTag::Equal);
            }
            lemma_nothing_shown_of_equal_lines(change_views(changes@));
        }
    }
    render_changes(&changes)
}

} // verus!
