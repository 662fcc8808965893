//! The document: an ordered sequence of lines, loaded once from text.

use vstd::prelude::*;

verus! {

/// The characters after the last line feed of `text`: the line still open
/// at its end.
pub open spec fn open_line(text: Seq<char>) -> Seq<char>
    decreases text.len(),
{
    if text.len() == 0 || text.last() == '\n' {
        Seq::empty()
    } else {
        open_line(text.drop_last()).push(text.last())
    }
}

/// `line` without one trailing carriage return, so that `"\r\n"` ends a
/// line as `"\n"` does.
pub open spec fn strip_cr(line: Seq<char>) -> Seq<char> {
    if line.len() > 0 && line.last() == '\r' {
        line.drop_last()
    } else {
        line
    }
}

/// The lines of `text` that a line feed closes, without their terminators.
pub open spec fn closed_lines(text: Seq<char>) -> Seq<Seq<char>>
    decreases text.len(),
{
    if text.len() == 0 {
        Seq::empty()
    } else if text.last() == '\n' {
        closed_lines(text.drop_last()).push(strip_cr(open_line(text.drop_last())))
    } else {
        closed_lines(text.drop_last())
    }
}

/// `text` split into lines: every line feed (or carriage return and line
/// feed) ends a line, empty lines are kept, and a final line needs no
/// terminator; text that ends with a terminator has no empty last line.
pub open spec fn lines_of(text: Seq<char>) -> Seq<Seq<char>> {
    if open_line(text).len() == 0 {
        closed_lines(text)
    } else {
        closed_lines(text).push(open_line(text))
    }
}

/// The document's source could not be read.
#[derive(Clone, Copy, Debug, PartialEq, Eq, Structural)]
pub struct LoadError;

/// The lines of the document, in document order, without line terminators.
pub struct Buffer {
    pub lines: Vec<String>,
}

impl Buffer {
    /// The contents of each line, as characters.
    pub open spec fn view_lines(self) -> Seq<Seq<char>> {
        self.lines@.map_values(|l: String| l@)
    }

    /// The buffer holding the lines of `contents`.
    pub fn load(contents: &str) -> (r: Buffer)
        ensures
            r.view_lines() == lines_of(contents@),
    {
        let mut lines: Vec<String> = Vec::new();
        let mut current = String::new();
        let mut ends_with_cr = false;
        for c in it: contents.chars()
            invariant
                it.seq() == contents@,
                lines@.map_values(|l: String| l@) == closed_lines(contents@.take(it.index())),
                current@ == open_line(contents@.take(it.index())),
                ends_with_cr == (current@.len() > 0 && current@.last() == '\r'),
        {
            let ghost done = contents@.take(it.index());
            let ghost next = contents@.take(it.index() + 1);
            assert(next.drop_last() =~= done);
            if c == '\n' {
                let line = if ends_with_cr {
                    let n = current.as_str().unicode_len();
                    current.as_str().substring_char(0, n - 1).to_owned()
                } else {
                    current
                };
                assert(line@ =~= strip_cr(open_line(done)));
                let ghost before = lines@;
                lines.push(line);
                assert(lines@.map_values(|l: String| l@) =~= before.map_values(|l: String| l@).push(line@));
                current = String::new();
                ends_with_cr = false;
            } else {
                current.push(c);
                ends_with_cr = c == '\r';
            }
        }
        assert(contents@.take(contents@.len() as int) =~= contents@);
        if !current.as_str().is_empty() {
            let ghost before = lines@;
            let ghost last = current@;
            lines.push(current);
            assert(lines@.map_values(|l: String| l@) =~= before.map_values(|l: String| l@).push(last));
        }
        Buffer { lines }
    }

    /// True when the buffer holds no line at all (a buffer of empty lines is
    /// not empty).
    pub fn is_empty(&self) -> (r: bool)
        ensures
            r == (self.lines@.len() == 0),
    {
        self.lines.len() == 0
    }
}

} // verus!
