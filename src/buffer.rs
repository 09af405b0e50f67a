//! The document: the lines of a text, each split into grapheme fragments.

use vstd::prelude::*;

use crate::line::{
    display_width, fragments_text, grapheme_clusters, lemma_round_trip_line, segmented, visible_text,
    width_before, Line, TextFragment,
};
use crate::text::{chars_of, string_of};

verus! {

/// `l` without one carriage return at its end, if it has one.
pub open spec fn without_cr(l: Seq<char>) -> Seq<char> {
    if l.len() > 0 && l.last() == '\r' {
        l.drop_last()
    } else {
        l
    }
}

/// Reading `s` from the left: the lines ended by a line feed so far, and the
/// characters read since the last line feed.
pub open spec fn split_state(s: Seq<char>) -> (Seq<Seq<char>>, Seq<char>)
    decreases s.len(),
{
    if s.len() == 0 {
        (Seq::empty(), Seq::empty())
    } else {
        let (done, current) = split_state(s.drop_last());
        if s.last() == '\n' {
            (done.push(without_cr(current)), Seq::empty())
        } else {
            (done, current.push(s.last()))
        }
    }
}

/// The lines of a text: split at each `\n` or `\r\n`, which is dropped; a
/// final line ending does not start an empty line.
pub open spec fn text_lines(s: Seq<char>) -> Seq<Seq<char>> {
    let (done, current) = split_state(s);
    if current.len() > 0 {
        done.push(current)
    } else {
        done
    }
}

/// Each of `lines` is made from the text at the same index of `texts`.
pub open spec fn lines_of(lines: Seq<Line>, texts: Seq<Seq<char>>) -> bool {
    &&& lines.len() == texts.len()
    &&& forall|i: int|
        0 <= i < lines.len() ==> segmented((#[trigger] lines[i])@, texts[i]) && fragments_text(
            lines[i]@,
        ) == texts[i]
}

/// The lines of a document, in order.
pub struct Buffer {
    pub lines: Vec<Line>,
}

impl View for Buffer {
    type V = Seq<Seq<TextFragment>>;

    open spec fn view(&self) -> Seq<Seq<TextFragment>> {
        self.lines@.map_values(|l: Line| l@)
    }
}

impl Default for Buffer {
    fn default() -> (r: Self)
        ensures
            r.lines@.len() == 0,
    {
        Buffer { lines: Vec::new() }
    }
}

impl Buffer {
    /// Replaces the document with the lines of `contents`.
    pub fn load(&mut self, contents: &str)
        requires
            contents@.len() <= isize::MAX,
        ensures
            lines_of(final(self).lines@, text_lines(contents@)),
    {
        let chars = chars_of(contents);
        let mut lines: Vec<Line> = Vec::new();
        let ghost mut done: Seq<Seq<char>> = Seq::empty();
        let mut line_start: usize = 0;
        let mut i: usize = 0;
        while i < chars.len()
            invariant
                chars@ == contents@,
                chars@.len() <= isize::MAX,
                line_start <= i <= chars@.len(),
                split_state(chars@.take(i as int)) == (done, chars@.subrange(
                    line_start as int,
                    i as int,
                )),
                lines_of(lines@, done),
            decreases chars.len() - i,
        {
            let ghost current = chars@.subrange(line_start as int, i as int);
            proof {
                assert(chars@.take(i + 1).drop_last() =~= chars@.take(i as int));
                assert(chars@.take(i + 1).last() == chars@[i as int]);
            }
            if chars[i] == '\n' {
                let mut line_end = i;
                if line_end > line_start && chars[line_end - 1] == '\r' {
                    line_end -= 1;
                }
                let text = string_of(&chars, line_start, line_end);
                proof {
                    assert(text@ =~= without_cr(current));
                }
                let line = Line::from(text.as_str());
                lines.push(line);
                proof {
                    done = done.push(text@);
                    assert(chars@.subrange(i + 1, i + 1) =~= Seq::<char>::empty());
                }
                line_start = i + 1;
            } else {
                proof {
                    assert(chars@.subrange(line_start as int, i + 1) =~= current.push(chars@[i as int]));
                }
            }
            i += 1;
        }
        proof {
            assert(chars@.take(i as int) =~= chars@);
        }
        if line_start < chars.len() {
            let text = string_of(&chars, line_start, chars.len());
            let line = Line::from(text.as_str());
            lines.push(line);
            proof {
                done = done.push(text@);
            }
        }
        self.lines = lines;
    }

    pub fn is_empty(&self) -> (r: bool)
        ensures
            r == (self.lines@.len() == 0),
    {
        self.lines.is_empty()
    }

    /// The number of lines.
    pub fn height(&self) -> (r: usize)
        ensures
            r == self.lines@.len(),
    {
        self.lines.len()
    }
}

/// Loading a text gives one line per line of the text, and drawing every
/// column of a line gives back that line of the text, when none of its
/// clusters is of zero width.
pub proof fn lemma_load_round_trip(buffer: Buffer, contents: Seq<char>, i: int)
    requires
        lines_of(buffer.lines@, text_lines(contents)),
        0 <= i < text_lines(contents).len(),
        forall|j: int|
            0 <= j < grapheme_clusters(text_lines(contents)[i]).len() ==> display_width(
                #[trigger] grapheme_clusters(text_lines(contents)[i])[j],
            ) > 0,
    ensures
        buffer.lines@.len() == text_lines(contents).len(),
        visible_text(
            buffer.lines@[i]@,
            0,
            width_before(buffer.lines@[i]@, buffer.lines@[i]@.len()) as int,
        ) == text_lines(contents)[i],
{
    let line = buffer.lines@[i];
    let text = text_lines(contents)[i];
    assert(segmented(line@, text));
    assert forall|j: int| 0 <= j < line@.len() implies (#[trigger] line@[j]).replacement is None by {
        assert(display_width(grapheme_clusters(text)[j]) > 0);
    }
    lemma_round_trip_line(line);
}

} // verus!
