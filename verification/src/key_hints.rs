//! The key hints shown at the bottom of the screen: the key bindings, five
//! to a line, each written "[key] action".
use vstd::prelude::*;
use crate::palette::Color;

verus! {

/// Key bindings to show, as (key, action) pairs.
pub struct KeyHints<'a> {
    pub bindings: &'a [(&'a str, &'a str)],
}

/// How a piece of a hint line is drawn.
#[derive(Clone, Copy, Debug, PartialEq, Eq, Structural)]
pub enum HintPart {
    /// Brackets and spacing.
    Plain,
    /// The key.
    Key,
    /// The action.
    Action,
}

/// The colour a piece is drawn in: the key cyan, the action gray, the
/// brackets and spacing dark gray.
pub open spec fn part_color_of(part: HintPart) -> Color {
    match part {
        HintPart::Plain => Color::DarkGray,
        HintPart::Key => Color::Cyan,
        HintPart::Action => Color::Gray,
    }
}

/// Number of bindings on one line.
pub open spec fn per_line() -> int {
    5
}

/// The bindings shown on line `i`.
pub open spec fn line_bindings<T>(bindings: Seq<T>, i: int) -> Seq<T> {
    let end = if 5 * i + 5 < bindings.len() {
        5 * i + 5
    } else {
        bindings.len() as int
    };
    bindings.subrange(5 * i, end)
}

/// Number of lines needed for `n` bindings.
pub open spec fn line_count(n: int) -> int {
    (n + 4) / 5
}

/// The pieces of a hint line: "[", key, "] ", action, "  " for each binding.
pub open spec fn line_pieces<'a>(chunk: Seq<(&'a str, &'a str)>) -> Seq<(HintPart, Seq<char>)>
    decreases chunk.len(),
{
    if chunk.len() == 0 {
        seq![]
    } else {
        let (key, action) = chunk.last();
        line_pieces(chunk.drop_last()) + seq![
            (HintPart::Plain, "["@),
            (HintPart::Key, key@),
            (HintPart::Plain, "] "@),
            (HintPart::Action, action@),
            (HintPart::Plain, "  "@),
        ]
    }
}

/// The text of pieces.
pub open spec fn pieces_view<'a>(pieces: Seq<(HintPart, &'a str)>) -> Seq<(HintPart, Seq<char>)> {
    pieces.map_values(|p: (HintPart, &'a str)| (p.0, p.1@))
}

/// The colour a piece of a hint line is drawn in.
pub fn part_color(part: HintPart) -> (c: Color)
    ensures
        c == part_color_of(part),
{
    match part {
        HintPart::Plain => Color::DarkGray,
        HintPart::Key => Color::Cyan,
        HintPart::Action => Color::Gray,
    }
}

impl<'a> KeyHints<'a> {
    /// Hints for the given bindings.
    pub fn new(bindings: &'a [(&'a str, &'a str)]) -> (h: KeyHints<'a>)
        ensures
            h.bindings@ == bindings@,
    {
        KeyHints { bindings }
    }

    /// The bindings of each line, in order: five to a line, the last line
    /// holding what is left.
    pub fn lines(&self) -> (lines: Vec<Vec<(&'a str, &'a str)>>)
        ensures
            lines@.len() == line_count(self.bindings@.len() as int),
            forall|i: int|
                0 <= i < lines@.len() ==> (#[trigger] lines@[i])@ == line_bindings(self.bindings@, i),
    {
        let n = self.bindings.len();
        let mut lines: Vec<Vec<(&'a str, &'a str)>> = Vec::new();
        let mut start: usize = 0;
        while start < n
            invariant
                n == self.bindings@.len(),
                start == 5 * lines@.len(),
                start <= n + 4,
                lines@.len() == line_count(start as int),
                forall|i: int|
                    0 <= i < lines@.len() ==> (#[trigger] lines@[i])@ == line_bindings(self.bindings@, i),
            decreases n + 5 - start,
        {
            let end = if start + 5 < n {
                start + 5
            } else {
                n
            };
            let mut line: Vec<(&'a str, &'a str)> = Vec::new();
            let mut k = start;
            while k < end
                invariant
                    start <= k <= end <= n,
                    n == self.bindings@.len(),
                    line@ == self.bindings@.subrange(start as int, k as int),
                decreases end - k,
            {
                line.push(self.bindings[k]);
                k = k + 1;
                assert(line@ =~= self.bindings@.subrange(start as int, k as int));
            }
            let ghost idx = lines@.len() as int;
            lines.push(line);
            start = start + 5;
            assert(lines@[idx]@ == line_bindings(self.bindings@, idx));
        }
        lines
    }

    /// The pieces of one line of hints, each with how it is drawn.
    pub fn line_pieces(chunk: &Vec<(&'a str, &'a str)>) -> (pieces: Vec<(HintPart, &'a str)>)
        ensures
            pieces_view(pieces@) == line_pieces(chunk@),
    {
        let mut pieces: Vec<(HintPart, &'a str)> = Vec::new();
        for i in 0..chunk.len()
            invariant
                pieces_view(pieces@) == line_pieces(chunk@.subrange(0, i as int)),
        {
            let (key, action) = chunk[i];
            pieces.push((HintPart::Plain, "["));
            pieces.push((HintPart::Key, key));
            pieces.push((HintPart::Plain, "] "));
            pieces.push((HintPart::Action, action));
            pieces.push((HintPart::Plain, "  "));
            assert(chunk@.subrange(0, i + 1).drop_last() =~= chunk@.subrange(0, i as int));
            assert(pieces_view(pieces@) =~= line_pieces(chunk@.subrange(0, i + 1)));
        }
        assert(chunk@.subrange(0, chunk@.len() as int) =~= chunk@);
        pieces
    }
}

} // verus!
