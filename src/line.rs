//! A line of text split into grapheme clusters, each with the number of
//! terminal columns it takes on screen.

use std::ops::Range;

use unicode_segmentation::UnicodeSegmentation;
use unicode_width::UnicodeWidthStr;
use vstd::prelude::*;

use crate::text::push_char;

verus! {

/// The extended grapheme clusters of a text, by Unicode text segmentation.
pub uninterp spec fn grapheme_clusters(s: Seq<char>) -> Seq<Seq<char>>;

/// The number of terminal columns a text takes, by Unicode width rules.
pub uninterp spec fn display_width(s: Seq<char>) -> nat;

/// Relies on `UnicodeSegmentation::graphemes` with extended clusters: the
/// clusters are non-empty slices of `s` that follow each other and cover it.
#[verifier::external_body]
fn split_graphemes(s: &str) -> (r: Vec<String>)
    ensures
        r@.map_values(|g: String| g@) == grapheme_clusters(s@),
        r@.map_values(|g: String| g@).flatten() == s@,
        forall|i: int| 0 <= i < r@.len() ==> (#[trigger] r@[i])@.len() > 0,
{
    s.graphemes(true).map(|g| g.to_string()).collect()
}

/// Relies on `UnicodeWidthStr::width`: the columns that a text takes.
#[verifier::external_body]
fn text_width(s: &str) -> (r: usize)
    ensures
        r as nat == display_width(s@),
{
    s.width()
}

/// How many columns a grapheme cluster is given on screen.
#[derive(Clone, Copy, Debug, PartialEq, Eq, Structural)]
pub enum GraphemeWidth {
    Half,
    Full,
}

impl GraphemeWidth {
    pub open spec fn columns(self) -> nat {
        match self {
            GraphemeWidth::Half => 1,
            GraphemeWidth::Full => 2,
        }
    }

    /// `other` plus the columns of this width, saturating at `usize::MAX`.
    pub fn saturating_add(self, other: usize) -> (r: usize)
        ensures
            r == if other + self.columns() <= usize::MAX {
                (other + self.columns()) as usize
            } else {
                usize::MAX
            },
    {
        match self {
            GraphemeWidth::Half => other.saturating_add(1),
            GraphemeWidth::Full => other.saturating_add(2),
        }
    }
}

/// The width class of a cluster whose natural width is `w` columns:
/// clusters of zero or one column take one, wider ones take two.
pub open spec fn width_class(w: nat) -> GraphemeWidth {
    if w <= 1 {
        GraphemeWidth::Half
    } else {
        GraphemeWidth::Full
    }
}

/// One grapheme cluster of a line, with its width on screen and the glyph
/// drawn in its place, if any.
pub struct TextFragment {
    pub grapheme: String,
    pub rendered_width: GraphemeWidth,
    pub replacement: Option<char>,
}

/// `f` is the fragment made of the cluster `g`: a cluster of no natural width
/// takes one column and is drawn as a dot.
pub open spec fn fragment_of(f: TextFragment, g: Seq<char>) -> bool {
    &&& f.grapheme@ == g
    &&& f.rendered_width == width_class(display_width(g))
    &&& f.replacement == if display_width(g) == 0 {
        Some('.')
    } else {
        None
    }
}

/// The text of a sequence of fragments: their clusters, one after another.
pub open spec fn fragments_text(frags: Seq<TextFragment>) -> Seq<char> {
    frags.map_values(|f: TextFragment| f.grapheme@).flatten()
}

/// `frags` are the fragments made of the grapheme clusters of `s`, in order.
pub open spec fn segmented(frags: Seq<TextFragment>, s: Seq<char>) -> bool {
    &&& frags.len() == grapheme_clusters(s).len()
    &&& forall|i: int|
        0 <= i < frags.len() ==> fragment_of(#[trigger] frags[i], grapheme_clusters(s)[i])
}

/// The columns taken by a sequence of fragments.
pub open spec fn width_sum(frags: Seq<TextFragment>) -> nat
    decreases frags.len(),
{
    if frags.len() == 0 {
        0
    } else {
        width_sum(frags.drop_last()) + frags.last().rendered_width.columns()
    }
}

/// The columns taken by the fragments before index `k`, with `k` clamped to
/// the number of fragments.
pub open spec fn width_before(frags: Seq<TextFragment>, k: nat) -> nat {
    if k <= frags.len() {
        width_sum(frags.take(k as int))
    } else {
        width_sum(frags)
    }
}

/// What is drawn for fragment `f` occupying columns `[pos, pos + width)` when
/// columns `[start, end)` are visible: nothing if it lies left of the range,
/// its replacement glyph if it has one, the cluster itself if it lies within
/// the range, and a clipping marker if it crosses an edge of the range.
pub open spec fn fragment_text(f: TextFragment, pos: int, start: int, end: int) -> Seq<char> {
    let fe = pos + f.rendered_width.columns();
    if fe <= start {
        Seq::empty()
    } else if f.replacement is Some {
        seq![f.replacement->0]
    } else if start <= pos && fe <= end {
        f.grapheme@
    } else {
        seq!['-']
    }
}

/// The columns that `fragment_text` takes on screen.
pub open spec fn fragment_columns(f: TextFragment, pos: int, start: int, end: int) -> nat {
    let fe = pos + f.rendered_width.columns();
    if fe <= start {
        0
    } else if f.replacement is Some {
        1
    } else if start <= pos && fe <= end {
        f.rendered_width.columns()
    } else {
        1
    }
}

/// The text drawn for the fragments from index `i` on, the first of which
/// starts at column `pos`; drawing stops at the first fragment that starts at
/// or after `end`.
pub open spec fn visible_from(
    frags: Seq<TextFragment>,
    i: int,
    pos: int,
    start: int,
    end: int,
) -> Seq<char>
    decreases frags.len() - i,
{
    if i < 0 || i >= frags.len() || pos >= end {
        Seq::empty()
    } else {
        let f = frags[i];
        fragment_text(f, pos, start, end) + visible_from(
            frags,
            i + 1,
            pos + f.rendered_width.columns(),
            start,
            end,
        )
    }
}

/// The columns taken on screen by `visible_from`.
pub open spec fn columns_from(frags: Seq<TextFragment>, i: int, pos: int, start: int, end: int) -> nat
    decreases frags.len() - i,
{
    if i < 0 || i >= frags.len() || pos >= end {
        0
    } else {
        let f = frags[i];
        fragment_columns(f, pos, start, end) + columns_from(
            frags,
            i + 1,
            pos + f.rendered_width.columns(),
            start,
            end,
        )
    }
}

/// The text drawn for screen columns `[start, end)` of a line.
pub open spec fn visible_text(frags: Seq<TextFragment>, start: int, end: int) -> Seq<char> {
    if start >= end {
        Seq::empty()
    } else {
        visible_from(frags, 0, 0, start, end)
    }
}

/// The columns taken on screen by `visible_text`.
pub open spec fn visible_columns(frags: Seq<TextFragment>, start: int, end: int) -> nat {
    if start >= end {
        0
    } else {
        columns_from(frags, 0, 0, start, end)
    }
}

/// A line of text as a sequence of grapheme fragments.
pub struct Line {
    fragments: Vec<TextFragment>,
}

impl View for Line {
    type V = Seq<TextFragment>;

    closed spec fn view(&self) -> Seq<TextFragment> {
        self.fragments@
    }
}

/// No fragment takes more than two columns.
proof fn lemma_width_sum_bounded(frags: Seq<TextFragment>)
    ensures
        width_sum(frags) <= 2 * frags.len(),
    decreases frags.len(),
{
    if frags.len() > 0 {
        lemma_width_sum_bounded(frags.drop_last());
    }
}

/// The width of a prefix grows by one fragment at a time and never exceeds
/// the width of the whole.
proof fn lemma_width_prefix(frags: Seq<TextFragment>, i: int)
    requires
        0 <= i < frags.len(),
    ensures
        width_sum(frags.take(i + 1)) == width_sum(frags.take(i)) + frags[i].rendered_width.columns(),
        width_sum(frags.take(i + 1)) <= width_sum(frags),
    decreases frags.len(),
{
    assert(frags.take(i + 1).drop_last() =~= frags.take(i));
    if i + 1 < frags.len() {
        lemma_width_prefix(frags.drop_last(), i);
        assert(frags.drop_last().take(i + 1) =~= frags.take(i + 1));
        assert(frags.drop_last().take(i) =~= frags.take(i));
    } else {
        assert(frags.take(i + 1) =~= frags);
    }
}

/// Non-empty pieces that concatenate to `s` are at most as many as the
/// characters of `s`.
proof fn lemma_pieces_at_most_chars(pieces: Seq<Seq<char>>)
    requires
        forall|i: int| 0 <= i < pieces.len() ==> (#[trigger] pieces[i]).len() > 0,
    ensures
        pieces.len() <= pieces.flatten().len(),
    decreases pieces.len(),
{
    if pieces.len() > 0 {
        assert(pieces[0].len() > 0);
        assert forall|i: int| 0 <= i < pieces.drop_first().len() implies (
        #[trigger] pieces.drop_first()[i]).len() > 0 by {
            assert(pieces.drop_first()[i] == pieces[i + 1]);
        }
        lemma_pieces_at_most_chars(pieces.drop_first());
    }
}

impl Line {
    /// The columns of the whole line can be counted in a `usize`.
    #[verifier::type_invariant]
    spec fn fits(self) -> bool {
        width_sum(self.fragments@) < usize::MAX
    }

    /// Splits `line_str` into grapheme clusters and sizes each one.
    pub fn from(line_str: &str) -> (r: Line)
        requires
            line_str@.len() <= isize::MAX,
        ensures
            segmented(r@, line_str@),
            fragments_text(r@) == line_str@,
    {
        let clusters = split_graphemes(line_str);
        let ghost gs = grapheme_clusters(line_str@);
        proof {
            assert forall|i: int| 0 <= i < gs.len() implies (#[trigger] gs[i]).len() > 0 by {
                assert(gs[i] == clusters@[i]@);
            }
            lemma_pieces_at_most_chars(gs);
        }
        let mut fragments: Vec<TextFragment> = Vec::new();
        let mut i: usize = 0;
        while i < clusters.len()
            invariant
                gs == grapheme_clusters(line_str@),
                clusters@.map_values(|g: String| g@) == gs,
                gs.len() <= line_str@.len() <= isize::MAX,
                i <= clusters@.len(),
                fragments@.len() == i,
                forall|j: int| 0 <= j < i ==> fragment_of(#[trigger] fragments@[j], gs[j]),
            decreases clusters.len() - i,
        {
            let grapheme = clusters[i].clone();
            assert(grapheme@ == gs[i as int]);
            let unicode_width = text_width(grapheme.as_str());
            let rendered_width = if unicode_width <= 1 {
                GraphemeWidth::Half
            } else {
                GraphemeWidth::Full
            };
            let replacement = if unicode_width == 0 {
                Some('.')
            } else {
                None
            };
            fragments.push(TextFragment { grapheme, rendered_width, replacement });
            i += 1;
        }
        proof {
            lemma_width_sum_bounded(fragments@);
            assert(fragments@.map_values(|f: TextFragment| f.grapheme@) =~= gs);
        }
        Line { fragments }
    }

    /// Draws screen columns `[range.start, range.end)` of the line. A cluster
    /// that crosses an edge of the range is drawn as a one-column clipping
    /// marker rather than split.
    pub fn get_visible_graphemes(&self, range: Range<usize>) -> (r: String)
        ensures
            r@ == visible_text(self@, range.start as int, range.end as int),
    {
        proof {
            use_type_invariant(self);
        }
        if range.start >= range.end {
            return String::new();
        }
        let mut result = String::new();
        let mut current_pos: usize = 0;
        let mut i: usize = 0;
        let ghost frags = self.fragments@;
        let ghost start = range.start as int;
        let ghost end = range.end as int;
        while i < self.fragments.len()
            invariant
                frags == self.fragments@,
                start == range.start,
                end == range.end,
                start < end,
                width_sum(frags) < usize::MAX,
                i <= frags.len(),
                current_pos == width_sum(frags.take(i as int)),
                result@ + visible_from(frags, i as int, current_pos as int, start, end)
                    == visible_from(frags, 0, 0, start, end),
            ensures
                i == frags.len() || current_pos >= end,
            decreases frags.len() - i,
        {
            let fragment = &self.fragments[i];
            if current_pos >= range.end {
                break;
            }
            proof {
                lemma_width_prefix(frags, i as int);
            }
            let fragment_end = fragment.rendered_width.saturating_add(current_pos);
            let ghost before = result@;
            let ghost piece = fragment_text(*fragment, current_pos as int, start, end);
            if fragment_end > range.start {
                if let Some(c) = fragment.replacement {
                    push_char(&mut result, c);
                } else if range.start <= current_pos && fragment_end <= range.end {
                    result.append(fragment.grapheme.as_str());
                } else {
                    push_char(&mut result, '-');
                }
            }
            proof {
                assert(result@ =~= before + piece);
                assert(visible_from(frags, i as int, current_pos as int, start, end) == piece
                    + visible_from(frags, i + 1, fragment_end as int, start, end));
                assert(before + piece + visible_from(frags, i + 1, fragment_end as int, start, end)
                    =~= before + (piece + visible_from(frags, i + 1, fragment_end as int, start, end)));
            }
            current_pos = fragment_end;
            i += 1;
        }
        proof {
            assert(visible_from(frags, i as int, current_pos as int, start, end) == Seq::<char>::empty());
            assert(result@ + visible_from(frags, i as int, current_pos as int, start, end) =~= result@);
        }
        result
    }

    pub fn grapheme_count(&self) -> (r: usize)
        ensures
            r == self@.len(),
    {
        self.fragments.len()
    }

    /// The columns taken by the fragments before `grapheme_index`; an index
    /// past the end counts the whole line.
    pub fn width_until(&self, grapheme_index: usize) -> (r: usize)
        ensures
            r == width_before(self@, grapheme_index as nat),
            r < usize::MAX,
    {
        proof {
            use_type_invariant(self);
        }
        let ghost frags = self.fragments@;
        let mut sum: usize = 0;
        let mut i: usize = 0;
        while i < grapheme_index && i < self.fragments.len()
            invariant
                frags == self.fragments@,
                width_sum(frags) < usize::MAX,
                i <= frags.len(),
                i <= grapheme_index,
                sum == width_sum(frags.take(i as int)),
            decreases frags.len() - i,
        {
            proof {
                lemma_width_prefix(frags, i as int);
            }
            sum = match self.fragments[i].rendered_width {
                GraphemeWidth::Half => sum + 1,
                GraphemeWidth::Full => sum + 2,
            };
            i += 1;
        }
        proof {
            if i == frags.len() {
                assert(frags.take(i as int) =~= frags);
            } else {
                lemma_width_prefix(frags, i as int);
            }
        }
        sum
    }
}

/// Screen columns drawn by `columns_from` stay inside what is left of the
/// visible range from column `pos` on.
proof fn lemma_columns_from_bounded(frags: Seq<TextFragment>, i: int, pos: int, start: int, end: int)
    requires
        0 <= i,
        0 <= pos,
        start < end,
    ensures
        pos < end ==> columns_from(frags, i, pos, start, end) <= end - (
        if pos < start {
            start
        } else {
            pos
        }),
        pos >= end ==> columns_from(frags, i, pos, start, end) == 0,
    decreases frags.len() - i,
{
    if i < frags.len() && pos < end {
        let fe = pos + frags[i].rendered_width.columns();
        lemma_columns_from_bounded(frags, i + 1, fe, start, end);
    }
}

/// The width of the text before an index is the sum of the widths of the
/// fragments before it: nothing before the first, and the whole line for any
/// index at or past the end.
pub proof fn lemma_width_until(line: Line, grapheme_index: nat, k: nat)
    ensures
        width_before(line@, 0) == 0,
        grapheme_index <= line@.len() ==> width_before(line@, grapheme_index) == width_sum(
            line@.take(grapheme_index as int),
        ),
        width_before(line@, line@.len() + k) == width_before(line@, line@.len()),
{
    assert(line@.take(0).len() == 0);
    assert(line@.take(line@.len() as int) =~= line@);
}

/// The text drawn for a range of screen columns never takes more columns
/// than the range holds.
pub proof fn lemma_visible_within_range(line: Line, start: usize, end: usize)
    ensures
        start < end ==> visible_columns(line@, start as int, end as int) <= end - start,
        start >= end ==> visible_text(line@, start as int, end as int).len() == 0,
{
    if start < end {
        lemma_columns_from_bounded(line@, 0, 0, start as int, end as int);
    }
}

/// When no cluster of a line is of zero width, the text drawn for all of its
/// columns is the line's text.
proof fn lemma_full_range_is_text(frags: Seq<TextFragment>, i: int)
    requires
        0 <= i <= frags.len(),
        forall|j: int| 0 <= j < frags.len() ==> (#[trigger] frags[j]).replacement is None,
    ensures
        visible_from(frags, i, width_sum(frags.take(i)) as int, 0, width_sum(frags) as int)
            == fragments_text(frags.skip(i)),
    decreases frags.len() - i,
{
    let rest = frags.skip(i);
    if i == frags.len() {
        assert(rest.map_values(|f: TextFragment| f.grapheme@) =~= Seq::<Seq<char>>::empty());
    } else {
        lemma_width_prefix(frags, i);
        lemma_full_range_is_text(frags, i + 1);
        assert(rest.map_values(|f: TextFragment| f.grapheme@).drop_first() =~= frags.skip(
            i + 1,
        ).map_values(|f: TextFragment| f.grapheme@));
    }
}

/// Drawing every column of a line with no zero-width cluster gives back the
/// line's text.
pub proof fn lemma_round_trip_line(line: Line)
    requires
        forall|j: int| 0 <= j < line@.len() ==> (#[trigger] line@[j]).replacement is None,
    ensures
        visible_text(line@, 0, width_before(line@, line@.len()) as int) == fragments_text(line@),
{
    let frags = line@;
    assert(frags.take(frags.len() as int) =~= frags);
    assert(frags.take(0) =~= Seq::<TextFragment>::empty());
    assert(frags.skip(0) =~= frags);
    lemma_full_range_is_text(frags, 0);
    if width_sum(frags) == 0 {
        if frags.len() > 0 {
            lemma_width_prefix(frags, 0);
        }
        assert(frags.map_values(|f: TextFragment| f.grapheme@) =~= Seq::<Seq<char>>::empty());
    }
}

} // verus!
