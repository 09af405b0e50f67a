use hecto::line::{GraphemeWidth, Line};

#[test]
fn width_until_counts_ascii_columns() {
    let line = Line::from("hello");
    assert_eq!(line.grapheme_count(), 5);
    assert_eq!(line.width_until(0), 0);
    assert_eq!(line.width_until(3), 3);
    assert_eq!(line.width_until(5), 5);
}

#[test]
fn width_until_clamps_past_the_end() {
    let line = Line::from("ab\u{65e5}c");
    let count = line.grapheme_count();
    assert_eq!(count, 4);
    assert_eq!(line.width_until(count), 5);
    assert_eq!(line.width_until(count + 1), 5);
    assert_eq!(line.width_until(count + 100), 5);
    assert_eq!(line.width_until(usize::MAX), 5);
}

#[test]
fn full_width_cluster_takes_two_columns() {
    let line = Line::from("\u{65e5}\u{672c}");
    assert_eq!(line.grapheme_count(), 2);
    assert_eq!(line.width_until(1), 2);
    assert_eq!(line.width_until(2), 4);
}

#[test]
fn combining_mark_joins_its_base_cluster() {
    let line = Line::from("e\u{301}x");
    assert_eq!(line.grapheme_count(), 2);
    assert_eq!(line.width_until(2), 2);
    assert_eq!(line.get_visible_graphemes(0..2), "e\u{301}x");
}

#[test]
fn zero_width_cluster_is_drawn_as_a_dot() {
    let line = Line::from("a\u{200b}b");
    assert_eq!(line.grapheme_count(), 3);
    assert_eq!(line.width_until(3), 3);
    assert_eq!(line.get_visible_graphemes(0..3), "a.b");
}

#[test]
fn visible_graphemes_of_a_middle_range() {
    let line = Line::from("abcdef");
    assert_eq!(line.get_visible_graphemes(2..4), "cd");
    assert_eq!(line.get_visible_graphemes(0..100), "abcdef");
    assert_eq!(line.get_visible_graphemes(6..10), "");
}

#[test]
fn empty_or_inverted_range_draws_nothing() {
    let line = Line::from("abcdef");
    assert_eq!(line.get_visible_graphemes(3..3), "");
    #[allow(clippy::reversed_empty_ranges)]
    let inverted = 4..2;
    assert_eq!(line.get_visible_graphemes(inverted), "");
}

#[test]
fn full_width_glyph_clipped_on_the_right_edge() {
    let line = Line::from("abcd\u{65e5}");
    assert_eq!(line.width_until(4), 4);
    assert_eq!(line.width_until(5), 6);
    assert_eq!(line.get_visible_graphemes(0..5), "abcd-");
}

#[test]
fn full_width_glyph_clipped_on_the_left_edge() {
    let line = Line::from("\u{65e5}ab");
    assert_eq!(line.get_visible_graphemes(1..4), "-ab");
    assert_eq!(line.get_visible_graphemes(0..4), "\u{65e5}ab");
}

#[test]
fn visible_graphemes_repeat_and_fit_the_range() {
    let line = Line::from("x\u{65e5}y\u{672c}z");
    for start in 0..8usize {
        for end in 0..8usize {
            let first = line.get_visible_graphemes(start..end);
            let second = line.get_visible_graphemes(start..end);
            assert_eq!(first, second);
            let columns: usize = first
                .chars()
                .map(|c| if c == '\u{65e5}' || c == '\u{672c}' { 2 } else { 1 })
                .sum();
            assert!(columns <= end.saturating_sub(start));
        }
    }
}

#[test]
fn empty_line_has_no_graphemes() {
    let line = Line::from("");
    assert_eq!(line.grapheme_count(), 0);
    assert_eq!(line.width_until(0), 0);
    assert_eq!(line.width_until(3), 0);
    assert_eq!(line.get_visible_graphemes(0..10), "");
}

#[test]
fn width_until_is_the_sum_of_widths() {
    let line = Line::from("a\u{65e5}b\u{672c}");
    let widths = [1usize, 2, 1, 2];
    for k in 0..=4usize {
        let expected: usize = widths[..k].iter().sum();
        assert_eq!(line.width_until(k), expected);
    }
}

#[test]
fn grapheme_width_adds_its_columns_saturating() {
    assert_eq!(GraphemeWidth::Half.saturating_add(3), 4);
    assert_eq!(GraphemeWidth::Full.saturating_add(3), 5);
    assert_eq!(GraphemeWidth::Full.saturating_add(usize::MAX - 1), usize::MAX);
    assert_eq!(GraphemeWidth::Half.saturating_add(usize::MAX), usize::MAX);
}
