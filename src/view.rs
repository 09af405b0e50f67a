//! The viewport: a caret in the document, the window of the document that is
//! on screen, and what to draw there.

use vstd::prelude::*;
use vstd::view::View as _;

use crate::buffer::{lines_of, text_lines, Buffer};
use crate::editorcommand::Direction;
use crate::line::{visible_text, width_before, Line, TextFragment};
use crate::terminal::{Position, Size};
use crate::text::push_char;

verus! {

/// A caret position in the document: a line and a grapheme within it.
#[derive(Clone, Copy, Debug, Default, PartialEq, Eq, Structural)]
pub struct Location {
    pub grapheme_index: usize,
    pub line_index: usize,
}

/// The number of graphemes of line `i`, or zero where there is no such line.
pub open spec fn count_at(lines: Seq<Seq<TextFragment>>, i: int) -> nat {
    if 0 <= i < lines.len() {
        lines[i].len()
    } else {
        0
    }
}

/// The index of the last line; zero for an empty document.
pub open spec fn last_line(lines: Seq<Seq<TextFragment>>) -> nat {
    if lines.len() == 0 {
        0
    } else {
        (lines.len() - 1) as nat
    }
}

pub open spec fn min_int(a: int, b: int) -> int {
    if a <= b {
        a
    } else {
        b
    }
}

/// Line `line` and grapheme `grapheme` brought into the document: the line
/// to the last one, then the grapheme to the length of that line.
pub open spec fn snapped(lines: Seq<Seq<TextFragment>>, line: int, grapheme: int) -> Location {
    let l = min_int(line, last_line(lines) as int);
    Location {
        line_index: l as usize,
        grapheme_index: min_int(grapheme, count_at(lines, l) as int) as usize,
    }
}

/// Where a move in direction `d` from `loc` aims, as (line, grapheme), before
/// it is brought into the document; `height` is the viewport's height.
pub open spec fn move_target(
    lines: Seq<Seq<TextFragment>>,
    loc: Location,
    height: usize,
    d: Direction,
) -> (int, int) {
    let line = loc.line_index as int;
    let g = loc.grapheme_index as int;
    match d {
        Direction::Up => (if line > 0 { line - 1 } else { 0 }, g),
        Direction::Down => (line + 1, g),
        Direction::Left => if g > 0 {
            (line, g - 1)
        } else if line > 0 {
            (line - 1, count_at(lines, line - 1) as int)
        } else {
            (line, g)
        },
        Direction::Right => if g < count_at(lines, line) {
            (line, g + 1)
        } else {
            (line + 1, 0)
        },
        Direction::PageUp => (0, g),
        Direction::PageDown => (line + if height > 0 { height - 1 } else { 0 }, g),
        Direction::LineStart => (line, 0),
        Direction::LineEnd => (line, min_int(g, count_at(lines, line) as int)),
    }
}

/// The caret lies on a line of the document (line zero when it has none) and
/// at most at the end of that line.
pub open spec fn caret_valid(lines: Seq<Seq<TextFragment>>, loc: Location) -> bool {
    &&& loc.line_index < if lines.len() > 1 { lines.len() } else { 1 }
    &&& loc.grapheme_index <= count_at(lines, loc.line_index as int)
}

/// Where the caret is in the document's own columns and rows.
pub open spec fn text_position(lines: Seq<Seq<TextFragment>>, loc: Location) -> Position {
    Position {
        col: if loc.line_index < lines.len() {
            width_before(lines[loc.line_index as int], loc.grapheme_index as nat) as usize
        } else {
            0
        },
        row: loc.line_index,
    }
}

/// The new offset along one axis that brings `to` into the window
/// `[offset, offset + extent)`: unchanged when it is inside already, else the
/// least change that makes it the first or the last cell of the window.
pub open spec fn scrolled(offset: usize, to: usize, extent: usize) -> usize {
    if to < offset {
        to
    } else if to - offset >= extent {
        if to - extent + 1 > usize::MAX {
            usize::MAX
        } else {
            (to - extent + 1) as usize
        }
    } else {
        offset
    }
}

/// The scroll offset that brings the caret at `loc` into a window of `size`
/// whose origin was `offset`.
pub open spec fn scrolled_offset(
    lines: Seq<Seq<TextFragment>>,
    loc: Location,
    offset: Position,
    size: Size,
) -> Position {
    let p = text_position(lines, loc);
    Position {
        col: scrolled(offset.col, p.col, size.width),
        row: scrolled(offset.row, p.row, size.height),
    }
}

/// The caret's cell on screen: its position less the scroll offset.
pub open spec fn screen_position(p: Position, offset: Position) -> Position {
    Position {
        col: if p.col >= offset.col {
            (p.col - offset.col) as usize
        } else {
            0
        },
        row: if p.row >= offset.row {
            (p.row - offset.row) as usize
        } else {
            0
        },
    }
}

/// The greeting shown over an empty document.
pub const GREETING: &'static str = "hecto editor -- version 0.1.0";

/// `n` spaces.
pub open spec fn spaces(n: nat) -> Seq<char> {
    Seq::new(n, |_i: int| ' ')
}

/// The greeting row for a viewport `width` columns wide: a filler marker,
/// then the greeting centred in the columns after it, cut to the width; just
/// the marker where the greeting does not fit.
pub open spec fn welcome_message(width: nat) -> Seq<char> {
    let len = GREETING@.len();
    if width == 0 {
        seq![' ']
    } else if width <= len {
        seq!['~']
    } else {
        truncated(seq!['~'] + spaces(((width - len - 1) / 2) as nat) + GREETING@, width)
    }
}

/// The first `n` characters of `s`, or all of it when it is shorter.
pub open spec fn truncated(s: Seq<char>, n: nat) -> Seq<char> {
    if s.len() <= n {
        s
    } else {
        s.take(n as int)
    }
}

/// The screen over an empty document: the greeting a third of the way down,
/// filler markers on every other row.
pub open spec fn welcome_frame(size: Size) -> Seq<Seq<char>> {
    Seq::new(
        size.height as nat,
        |r: int|
            if r == size.height / 3 {
                welcome_message(size.width as nat)
            } else {
                seq!['~']
            },
    )
}

/// The screen over a document: on each row, the visible columns of the line
/// the window shows there, or a filler marker below the last line.
pub open spec fn buffer_frame(
    lines: Seq<Seq<TextFragment>>,
    offset: Position,
    size: Size,
) -> Seq<Seq<char>> {
    Seq::new(
        size.height as nat,
        |r: int|
            if offset.row + r < lines.len() {
                visible_text(
                    lines[offset.row + r],
                    offset.col as int,
                    min_int(offset.col + size.width, usize::MAX as int),
                )
            } else {
                seq!['~']
            },
    )
}

/// The text of each of `rows`.
pub open spec fn rows_text(rows: Seq<String>) -> Seq<Seq<char>> {
    rows.map_values(|s: String| s@)
}

fn filler() -> (r: String)
    ensures
        r@ == seq!['~'],
{
    let mut r = String::new();
    push_char(&mut r, '~');
    r
}

/// The viewport over a document.
pub struct View {
    buffer: Buffer,
    needs_redraw: bool,
    size: Size,
    pub text_location: Location,
    pub scroll_offset: Position,
}

impl View {
    /// The lines of the document on view.
    pub closed spec fn buffer_lines(&self) -> Seq<Line> {
        self.buffer.lines@
    }

    /// The fragments of each line of the document.
    pub open spec fn lines_view(&self) -> Seq<Seq<TextFragment>> {
        self.buffer_lines().map_values(|l: Line| l@)
    }

    /// The size of the viewport.
    pub closed spec fn viewport(&self) -> Size {
        self.size
    }

    /// Whether what is on screen is out of date.
    pub closed spec fn redraw_pending(&self) -> bool {
        self.needs_redraw
    }

    /// Where the caret is in the document.
    pub closed spec fn location(&self) -> Location {
        self.text_location
    }

    /// The document cell at the viewport's top left corner.
    pub closed spec fn offset(&self) -> Position {
        self.scroll_offset
    }

    /// The caret lies within the viewport, whenever the viewport has room.
    pub open spec fn caret_on_screen(&self) -> bool {
        let p = text_position(self.lines_view(), self.location());
        self.viewport().width > 0 && self.viewport().height > 0 ==> {
            &&& self.offset().row <= p.row < self.offset().row + self.viewport().height
            &&& self.offset().col <= p.col < self.offset().col + self.viewport().width
        }
    }

    /// `self` is `old` after its caret moved to `loc` and the window followed.
    pub open spec fn moved_from(&self, old: &View, loc: Location) -> bool {
        let offset = scrolled_offset(old.lines_view(), loc, old.offset(), old.viewport());
        &&& self.lines_view() == old.lines_view()
        &&& self.viewport() == old.viewport()
        &&& self.location() == loc
        &&& self.offset() == offset
        &&& self.redraw_pending() == (old.redraw_pending() || offset != old.offset())
    }

    /// The caret's cell on screen.
    pub open spec fn caret_cell(&self) -> Position {
        screen_position(text_position(self.lines_view(), self.location()), self.offset())
    }

    /// `self` is `old` after the viewport took the size `size`.
    pub open spec fn resized_from(&self, old: &View, size: Size) -> bool {
        &&& self.lines_view() == old.lines_view()
        &&& self.viewport() == size
        &&& self.location() == old.location()
        &&& self.offset() == scrolled_offset(old.lines_view(), old.location(), old.offset(), size)
        &&& self.redraw_pending()
        &&& self.caret_on_screen()
    }

    /// `self` is `old` after a move in `direction`.
    pub open spec fn moved_by(&self, old: &View, direction: Direction) -> bool {
        let t = move_target(old.lines_view(), old.location(), old.viewport().height, direction);
        &&& self.moved_from(old, snapped(old.lines_view(), t.0, t.1))
        &&& caret_valid(self.lines_view(), self.location())
        &&& self.caret_on_screen()
    }

    /// `self` is `old` after a render pass that returned `r`.
    pub open spec fn rendered_from(&self, old: &View, r: Option<Vec<String>>) -> bool {
        &&& self.lines_view() == old.lines_view()
        &&& self.viewport() == old.viewport()
        &&& self.location() == old.location()
        &&& self.offset() == old.offset()
        &&& if old.redraw_pending() && old.viewport().width > 0 && old.viewport().height > 0 {
            &&& r is Some
            &&& rows_text(r->0@) == old.frame()
            &&& !self.redraw_pending()
        } else {
            &&& r is None
            &&& self.redraw_pending() == old.redraw_pending()
        }
    }

    /// What the screen shows for this state.
    pub open spec fn frame(&self) -> Seq<Seq<char>> {
        if self.lines_view().len() == 0 {
            welcome_frame(self.viewport())
        } else {
            buffer_frame(self.lines_view(), self.offset(), self.viewport())
        }
    }

    /// An empty document in a viewport of `size`, caret at the start.
    pub fn new(size: Size) -> (r: View)
        ensures
            r.lines_view().len() == 0,
            r.viewport() == size,
            r.redraw_pending(),
            r.location() == (Location { grapheme_index: 0, line_index: 0 }),
            r.offset() == (Position { col: 0, row: 0 }),
    {
        View {
            buffer: Buffer::default(),
            needs_redraw: true,
            size,
            text_location: Location { grapheme_index: 0, line_index: 0 },
            scroll_offset: Position { col: 0, row: 0 },
        }
    }

    /// Takes the new size of the viewport and scrolls the caret into it.
    pub fn resize(&mut self, size: Size)
        ensures
            final(self).resized_from(old(self), size),
    {
        self.size = size;
        self.scroll_text_location_into_view();
        self.needs_redraw = true;
    }

    /// The rows to draw, top to bottom, when the screen is out of date and
    /// the viewport has room; the screen is then up to date.
    pub fn render(&mut self) -> (r: Option<Vec<String>>)
        ensures
            final(self).rendered_from(old(self), r),
    {
        if !self.needs_redraw {
            return None;
        }
        let Size { width, height } = self.size;
        if width == 0 || height == 0 {
            return None;
        }
        let rows = if self.buffer.is_empty() {
            self.render_welcome_screen()
        } else {
            self.render_buffer()
        };
        self.needs_redraw = false;
        Some(rows)
    }

    /// The caret's cell on screen.
    pub fn caret_postion(&self) -> (r: Position)
        ensures
            r == self.caret_cell(),
    {
        self.text_location_to_position().saturating_sub(self.scroll_offset)
    }

    /// Replaces the document with the lines of `contents`; the screen is then
    /// out of date.
    pub fn load(&mut self, contents: &str)
        requires
            contents@.len() <= isize::MAX,
        ensures
            lines_of(final(self).buffer_lines(), text_lines(contents@)),
            final(self).viewport() == old(self).viewport(),
            final(self).location() == old(self).location(),
            final(self).offset() == old(self).offset(),
            final(self).redraw_pending(),
    {
        self.buffer.load(contents);
        self.needs_redraw = true;
    }

    fn text_location_to_position(&self) -> (r: Position)
        ensures
            r == text_position(self.lines_view(), self.text_location),
    {
        let row = self.text_location.line_index;
        let col = if row < self.buffer.lines.len() {
            self.buffer.lines[row].width_until(self.text_location.grapheme_index)
        } else {
            0
        };
        Position { col, row }
    }

    /// Moves the caret, keeps it within the document, and scrolls it into
    /// view.
    pub fn move_point(&mut self, direction: Direction)
        ensures
            final(self).moved_by(old(self), direction),
    {
        let ghost lines = self.buffer@;
        let ghost t = move_target(lines, self.text_location, self.size.height, direction);
        self.move_caret(direction);
        self.snap_to_valid_location();
        proof {
            assert(lines.len() == self.buffer.lines.len());
            assert(snapped(lines, min_int(t.0, usize::MAX as int), t.1) == snapped(lines, t.0, t.1));
        }
        self.scroll_text_location_into_view();
    }

    /// Moves the caret where `direction` aims, without regard to the
    /// document's bounds.
    fn move_caret(&mut self, direction: Direction)
        ensures
            final(self).buffer == old(self).buffer,
            final(self).size == old(self).size,
            final(self).needs_redraw == old(self).needs_redraw,
            final(self).scroll_offset == old(self).scroll_offset,
            ({
                let t = move_target(
                    old(self).buffer@,
                    old(self).text_location,
                    old(self).size.height,
                    direction,
                );
                &&& final(self).text_location.line_index == min_int(t.0, usize::MAX as int)
                &&& final(self).text_location.grapheme_index == t.1
            }),
    {
        let height = self.size.height;
        match direction {
            Direction::Up => self.move_up(1),
            Direction::Down => self.move_down(1),
            Direction::Left => self.move_left(),
            Direction::Right => self.move_right(),
            Direction::PageUp => self.move_up(self.text_location.line_index),
            Direction::PageDown => self.move_down(height.saturating_sub(1)),
            Direction::LineStart => self.move_to_start_of_line(),
            Direction::LineEnd => self.move_to_end_of_line(),
        }
    }

    /// Brings the caret onto a line of the document and within that line.
    fn snap_to_valid_location(&mut self)
        ensures
            final(self).buffer == old(self).buffer,
            final(self).size == old(self).size,
            final(self).needs_redraw == old(self).needs_redraw,
            final(self).scroll_offset == old(self).scroll_offset,
            final(self).text_location == snapped(
                old(self).buffer@,
                old(self).text_location.line_index as int,
                old(self).text_location.grapheme_index as int,
            ),
            caret_valid(final(self).buffer@, final(self).text_location),
    {
        self.snap_to_valid_line();
        self.snap_to_valid_grapheme();
    }

    fn move_up(&mut self, step: usize)
        ensures
            final(self).buffer == old(self).buffer,
            final(self).size == old(self).size,
            final(self).needs_redraw == old(self).needs_redraw,
            final(self).scroll_offset == old(self).scroll_offset,
            final(self).text_location.grapheme_index == old(self).text_location.grapheme_index,
            final(self).text_location.line_index == if old(self).text_location.line_index >= step {
                old(self).text_location.line_index - step
            } else {
                0
            },
    {
        self.text_location.line_index = self.text_location.line_index.saturating_sub(step);
    }

    fn move_down(&mut self, step: usize)
        ensures
            final(self).buffer == old(self).buffer,
            final(self).size == old(self).size,
            final(self).needs_redraw == old(self).needs_redraw,
            final(self).scroll_offset == old(self).scroll_offset,
            final(self).text_location.grapheme_index == old(self).text_location.grapheme_index,
            final(self).text_location.line_index == if old(self).text_location.line_index + step
                <= usize::MAX {
                (old(self).text_location.line_index + step) as usize
            } else {
                usize::MAX
            },
    {
        self.text_location.line_index = self.text_location.line_index.saturating_add(step);
    }

    fn move_right(&mut self)
        ensures
            final(self).buffer == old(self).buffer,
            final(self).size == old(self).size,
            final(self).needs_redraw == old(self).needs_redraw,
            final(self).scroll_offset == old(self).scroll_offset,
            ({
                let loc = old(self).text_location;
                let count = count_at(old(self).buffer@, loc.line_index as int);
                let new = final(self).text_location;
                if loc.grapheme_index < count {
                    new.grapheme_index == loc.grapheme_index + 1 && new.line_index == loc.line_index
                } else {
                    new.grapheme_index == 0 && new.line_index == if loc.line_index + 1 <= usize::MAX {
                        (loc.line_index + 1) as usize
                    } else {
                        usize::MAX
                    }
                }
            }),
    {
        let line_width = if self.text_location.line_index < self.buffer.lines.len() {
            self.buffer.lines[self.text_location.line_index].grapheme_count()
        } else {
            0
        };
        if self.text_location.grapheme_index < line_width {
            self.text_location.grapheme_index += 1;
        } else {
            self.move_to_start_of_line();
            self.move_down(1);
        }
    }

    fn move_left(&mut self)
        ensures
            final(self).buffer == old(self).buffer,
            final(self).size == old(self).size,
            final(self).needs_redraw == old(self).needs_redraw,
            final(self).scroll_offset == old(self).scroll_offset,
            ({
                let loc = old(self).text_location;
                let new = final(self).text_location;
                if loc.grapheme_index > 0 {
                    new == Location { grapheme_index: (loc.grapheme_index - 1) as usize, ..loc }
                } else if loc.line_index > 0 {
                    new.line_index == loc.line_index - 1 && new.grapheme_index == count_at(
                        old(self).buffer@,
                        loc.line_index - 1,
                    )
                } else {
                    new == loc
                }
            }),
    {
        if self.text_location.grapheme_index > 0 {
            self.text_location.grapheme_index -= 1;
        } else if self.text_location.line_index > 0 {
            self.move_up(1);
            let line = self.text_location.line_index;
            self.text_location.grapheme_index = if line < self.buffer.lines.len() {
                self.buffer.lines[line].grapheme_count()
            } else {
                0
            };
        }
    }

    fn move_to_start_of_line(&mut self)
        ensures
            final(self).buffer == old(self).buffer,
            final(self).size == old(self).size,
            final(self).needs_redraw == old(self).needs_redraw,
            final(self).scroll_offset == old(self).scroll_offset,
            final(self).text_location == (Location { grapheme_index: 0, ..old(self).text_location }),
    {
        self.text_location.grapheme_index = 0;
    }

    fn move_to_end_of_line(&mut self)
        ensures
            final(self).buffer == old(self).buffer,
            final(self).size == old(self).size,
            final(self).needs_redraw == old(self).needs_redraw,
            final(self).scroll_offset == old(self).scroll_offset,
            final(self).text_location == (Location {
                grapheme_index: min_int(
                    old(self).text_location.grapheme_index as int,
                    count_at(old(self).buffer@, old(self).text_location.line_index as int) as int,
                ) as usize,
                ..old(self).text_location
            }),
    {
        self.snap_to_valid_grapheme();
    }

    /// Brings the grapheme index within the length of the caret's line.
    fn snap_to_valid_grapheme(&mut self)
        ensures
            final(self).buffer == old(self).buffer,
            final(self).size == old(self).size,
            final(self).needs_redraw == old(self).needs_redraw,
            final(self).scroll_offset == old(self).scroll_offset,
            final(self).text_location == (Location {
                grapheme_index: min_int(
                    old(self).text_location.grapheme_index as int,
                    count_at(old(self).buffer@, old(self).text_location.line_index as int) as int,
                ) as usize,
                ..old(self).text_location
            }),
    {
        let line = self.text_location.line_index;
        let count = if line < self.buffer.lines.len() {
            self.buffer.lines[line].grapheme_count()
        } else {
            0
        };
        if count < self.text_location.grapheme_index {
            self.text_location.grapheme_index = count;
        }
    }

    /// Brings the line index to the last line of the document at most.
    fn snap_to_valid_line(&mut self)
        ensures
            final(self).buffer == old(self).buffer,
            final(self).size == old(self).size,
            final(self).needs_redraw == old(self).needs_redraw,
            final(self).scroll_offset == old(self).scroll_offset,
            final(self).text_location == (Location {
                line_index: min_int(
                    old(self).text_location.line_index as int,
                    last_line(old(self).buffer@) as int,
                ) as usize,
                ..old(self).text_location
            }),
    {
        let height = self.buffer.height();
        let last = if height > 0 {
            height - 1
        } else {
            0
        };
        if last < self.text_location.line_index {
            self.text_location.line_index = last;
        }
    }

    fn scroll_vertically(&mut self, to: usize)
        ensures
            final(self).buffer == old(self).buffer,
            final(self).size == old(self).size,
            final(self).text_location == old(self).text_location,
            final(self).scroll_offset.col == old(self).scroll_offset.col,
            final(self).scroll_offset.row == scrolled(
                old(self).scroll_offset.row,
                to,
                old(self).size.height,
            ),
            final(self).needs_redraw == (old(self).needs_redraw || final(self).scroll_offset.row
                != old(self).scroll_offset.row),
    {
        let height = self.size.height;
        let current = self.scroll_offset.row;
        if to < current {
            self.scroll_offset.row = to;
        } else if to - current >= height {
            self.scroll_offset.row = (to - height).saturating_add(1);
        }
        let offset_changed = self.scroll_offset.row != current;
        self.needs_redraw = self.needs_redraw || offset_changed;
    }

    fn scroll_horizontally(&mut self, to: usize)
        ensures
            final(self).buffer == old(self).buffer,
            final(self).size == old(self).size,
            final(self).text_location == old(self).text_location,
            final(self).scroll_offset.row == old(self).scroll_offset.row,
            final(self).scroll_offset.col == scrolled(
                old(self).scroll_offset.col,
                to,
                old(self).size.width,
            ),
            final(self).needs_redraw == (old(self).needs_redraw || final(self).scroll_offset.col
                != old(self).scroll_offset.col),
    {
        let width = self.size.width;
        let current = self.scroll_offset.col;
        if to < current {
            self.scroll_offset.col = to;
        } else if to - current >= width {
            self.scroll_offset.col = (to - width).saturating_add(1);
        }
        let offset_changed = self.scroll_offset.col != current;
        self.needs_redraw = self.needs_redraw || offset_changed;
    }

    fn scroll_text_location_into_view(&mut self)
        ensures
            final(self).moved_from(old(self), old(self).location()),
            final(self).caret_on_screen(),
    {
        let Position { row, col } = self.text_location_to_position();
        self.scroll_vertically(row);
        self.scroll_horizontally(col);
    }

    fn render_buffer(&self) -> (r: Vec<String>)
        ensures
            rows_text(r@) == buffer_frame(self.buffer@, self.scroll_offset, self.size),
    {
        let Size { height, width } = self.size;
        let top = self.scroll_offset.row;
        let left = self.scroll_offset.col;
        let right = left.saturating_add(width);
        let ghost frame = buffer_frame(self.buffer@, self.scroll_offset, self.size);
        let mut rows: Vec<String> = Vec::new();
        let mut current_row: usize = 0;
        while current_row < height
            invariant
                frame == buffer_frame(self.buffer@, self.scroll_offset, self.size),
                height == self.size.height,
                top == self.scroll_offset.row,
                left == self.scroll_offset.col,
                right == min_int(left + width, usize::MAX as int),
                width == self.size.width,
                current_row <= height,
                rows_text(rows@) == frame.take(current_row as int),
            decreases height - current_row,
        {
            let index = current_row.saturating_add(top);
            let row = if index < self.buffer.lines.len() {
                self.buffer.lines[index].get_visible_graphemes(left..right)
            } else {
                filler()
            };
            assert(row@ == frame[current_row as int]);
            let ghost before = rows@;
            rows.push(row);
            proof {
                assert(rows_text(rows@) =~= rows_text(before).push(row@));
                assert(frame.take(current_row + 1) =~= frame.take(current_row as int).push(
                    frame[current_row as int],
                ));
            }
            current_row += 1;
        }
        proof {
            assert(frame.take(height as int) =~= frame);
        }
        rows
    }

    fn render_welcome_screen(&self) -> (r: Vec<String>)
        ensures
            rows_text(r@) == welcome_frame(self.size),
    {
        let height = self.size.height;
        let ghost frame = welcome_frame(self.size);
        let mut rows: Vec<String> = Vec::new();
        let mut current_row: usize = 0;
        while current_row < height
            invariant
                frame == welcome_frame(self.size),
                height == self.size.height,
                current_row <= height,
                rows_text(rows@) == frame.take(current_row as int),
            decreases height - current_row,
        {
            let row = if current_row == height / 3 {
                self.build_welcome_message()
            } else {
                filler()
            };
            let ghost before = rows@;
            rows.push(row);
            proof {
                assert(rows_text(rows@) =~= rows_text(before).push(row@));
                assert(frame.take(current_row + 1) =~= frame.take(current_row as int).push(
                    frame[current_row as int],
                ));
            }
            current_row += 1;
        }
        proof {
            assert(frame.take(height as int) =~= frame);
        }
        rows
    }

    fn build_welcome_message(&self) -> (r: String)
        ensures
            r@ == welcome_message(self.size.width as nat),
    {
        let width = self.size.width;
        if width == 0 {
            let mut blank = String::new();
            push_char(&mut blank, ' ');
            return blank;
        }
        let len = GREETING.unicode_len();
        if width <= len {
            return filler();
        }
        let padding = (width - len - 1) / 2;
        let mut message = filler();
        let mut i: usize = 0;
        while i < padding
            invariant
                i <= padding,
                message@ == seq!['~'] + spaces(i as nat),
            decreases padding - i,
        {
            push_char(&mut message, ' ');
            proof {
                assert(seq!['~'] + spaces((i + 1) as nat) =~= (seq!['~'] + spaces(i as nat)).push(' '));
            }
            i += 1;
        }
        message.append(GREETING);
        proof {
            let full = seq!['~'] + spaces(padding as nat) + GREETING@;
            assert(full.len() <= width);
        }
        message
    }
}

} // verus!
