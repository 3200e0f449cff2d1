//! Characters of a string, and the splitting of a text at a separator.

use vstd::prelude::*;
use vstd::string::{StrSliceExecFns, StringExecFns};

verus! {

/// The pieces that `text` falls into when it is cut at every `sep`.
/// There is always at least one piece; two separators in a row, or one at
/// either end, leave an empty piece.
pub open spec fn split(text: Seq<char>, sep: char) -> Seq<Seq<char>>
    decreases text.len(),
{
    if text.len() == 0 {
        seq![Seq::empty()]
    } else {
        let before = split(text.drop_last(), sep);
        if text.last() == sep {
            before.push(Seq::empty())
        } else {
            before.drop_last().push(before.last().push(text.last()))
        }
    }
}

/// The pieces put together again, with `sep` between neighbours.
pub open spec fn join(pieces: Seq<Seq<char>>, sep: char) -> Seq<char>
    decreases pieces.len(),
{
    if pieces.len() == 0 {
        Seq::empty()
    } else if pieces.len() == 1 {
        pieces[0]
    } else {
        join(pieces.drop_last(), sep).push(sep) + pieces.last()
    }
}

/// `text` holds no line break.
pub open spec fn one_line(text: Seq<char>) -> bool {
    forall|i: int| 0 <= i < text.len() ==> text[i] != '\n'
}

/// `text` on one line: a blank in the place of every line break.
pub open spec fn on_one_line(text: Seq<char>) -> Seq<char> {
    Seq::new(text.len(), |i: int| if text[i] == '\n' { ' ' } else { text[i] })
}

/// The views of the vectors in `pieces`.
pub open spec fn views(pieces: Seq<Vec<char>>) -> Seq<Seq<char>> {
    Seq::new(pieces.len(), |i: int| pieces[i]@)
}

/// A split has at least one piece.
pub proof fn lemma_split_nonempty(text: Seq<char>, sep: char)
    ensures
        split(text, sep).len() >= 1,
    decreases text.len(),
{
    if text.len() > 0 {
        lemma_split_nonempty(text.drop_last(), sep);
    }
}

/// A text put on one line holds no line break, and a text that holds none
/// stays as it is.
pub proof fn lemma_on_one_line(text: Seq<char>)
    ensures
        one_line(on_one_line(text)),
        one_line(text) ==> on_one_line(text) == text,
{
}

/// Joining the pieces of a split gives the text back.
pub proof fn lemma_join_split(text: Seq<char>, sep: char)
    ensures
        join(split(text, sep), sep) == text,
    decreases text.len(),
{
    if text.len() > 0 {
        let shorter = text.drop_last();
        let before = split(shorter, sep);
        lemma_join_split(shorter, sep);
        lemma_split_nonempty(shorter, sep);
        if text.last() == sep {
            assert(before.push(Seq::empty()).drop_last() == before);
        } else {
            let grown = before.last().push(text.last());
            let start = join(before.drop_last(), sep).push(sep);
            assert(before.drop_last().push(grown).drop_last() == before.drop_last());
            if before.len() > 1 {
                assert(join(before, sep) == start + before.last());
                assert(start + grown == (start + before.last()).push(text.last()));
            }
        }
    }
}

/// Splitting `text` followed by a separator and by `tail`, where `tail` holds
/// no separator: the pieces of `text`, then `tail`.
pub proof fn lemma_split_append_piece(text: Seq<char>, tail: Seq<char>, sep: char)
    requires
        forall|j: int| 0 <= j < tail.len() ==> tail[j] != sep,
    ensures
        split(text.push(sep) + tail, sep) == split(text, sep).push(tail),
    decreases tail.len(),
{
    let whole = text.push(sep) + tail;
    if tail.len() == 0 {
        assert(whole.drop_last() == text);
        assert(tail == Seq::<char>::empty());
    } else {
        let shorter = tail.drop_last();
        lemma_split_append_piece(text, shorter, sep);
        assert(whole.drop_last() == text.push(sep) + shorter);
        assert(shorter.push(tail.last()) == tail);
    }
}

/// A text that holds no separator is its own single piece.
pub proof fn lemma_split_single_piece(text: Seq<char>, sep: char)
    requires
        forall|j: int| 0 <= j < text.len() ==> text[j] != sep,
    ensures
        split(text, sep) == seq![text],
    decreases text.len(),
{
    if text.len() == 0 {
        assert(text == Seq::<char>::empty());
    } else {
        let shorter = text.drop_last();
        lemma_split_single_piece(shorter, sep);
        assert(seq![shorter].drop_last().push(shorter.push(text.last())) == seq![text]) by {
            assert(shorter.push(text.last()) == text);
        }
    }
}

/// The characters of `text`, in order.
pub fn chars_of(text: &str) -> (chars: Vec<char>)
    ensures
        chars@ == text@,
{
    broadcast use vstd::string::group_string_axioms;

    let mut chars: Vec<char> = Vec::new();
    for c in it: text.chars()
        invariant
            it.seq() == text@,
            chars@ == text@.take(it.index()),
    {
        chars.push(c);
    }
    chars
}

/// Puts `text` on one line, as [`on_one_line`] says.
pub fn flatten(text: &str) -> (flat: String)
    ensures
        flat@ == on_one_line(text@),
{
    proof {
        reveal_strlit(" ");
    }
    let chars = chars_of(text);
    let mut flat = String::new();
    let mut start: usize = 0;
    let mut i: usize = 0;
    while i < chars.len()
        invariant
            start <= i <= chars.len(),
            chars@ == text@,
            " "@ == seq![' '],
            flat@ == on_one_line(text@.take(start as int)),
            forall|j: int| start <= j < i ==> text@[j] != '\n',
        decreases chars.len() - i,
    {
        if chars[i] == '\n' {
            let run = text.substring_char(start, i);
            flat.append(run);
            flat.append(" ");
            assert(flat@ == on_one_line(text@.take(i + 1)));
            start = i + 1;
        }
        i += 1;
    }
    let run = text.substring_char(start, i);
    flat.append(run);
    assert(flat@ == on_one_line(text@));
    flat
}

/// Cuts `text` at every `sep`, as [`split`] says.
pub fn split_chars(text: &Vec<char>, sep: char) -> (pieces: Vec<Vec<char>>)
    ensures
        views(pieces@) == split(text@, sep),
{
    let mut pieces: Vec<Vec<char>> = Vec::new();
    let mut current: Vec<char> = Vec::new();
    let mut i: usize = 0;
    while i < text.len()
        invariant
            i <= text.len(),
            split(text@.take(i as int), sep) == views(pieces@).push(current@),
        decreases text.len() - i,
    {
        let c = text[i];
        assert(text@.take(i + 1).drop_last() == text@.take(i as int));
        if c == sep {
            pieces.push(current);
            current = Vec::new();
        } else {
            current.push(c);
        }
        i += 1;
    }
    assert(text@.take(text.len() as int) == text@);
    pieces.push(current);
    pieces
}

} // verus!
