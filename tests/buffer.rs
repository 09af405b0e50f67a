use hecto::buffer::Buffer;

fn load(contents: &str) -> Buffer {
    let mut buffer = Buffer::default();
    buffer.load(contents);
    buffer
}

fn full_line(buffer: &Buffer, i: usize) -> String {
    let line = &buffer.lines[i];
    line.get_visible_graphemes(0..line.width_until(line.grapheme_count()))
}

#[test]
fn default_buffer_is_empty() {
    let buffer = Buffer::default();
    assert!(buffer.is_empty());
    assert_eq!(buffer.height(), 0);
}

#[test]
fn load_splits_on_line_feeds() {
    let buffer = load("abc\nde\n\n");
    assert_eq!(buffer.height(), 3);
    assert!(!buffer.is_empty());
    assert_eq!(full_line(&buffer, 0), "abc");
    assert_eq!(full_line(&buffer, 1), "de");
    assert_eq!(full_line(&buffer, 2), "");
}

#[test]
fn final_line_feed_adds_no_line() {
    assert_eq!(load("a\n").height(), 1);
    assert_eq!(load("a").height(), 1);
    assert_eq!(load("a\nb").height(), 2);
    assert_eq!(load("\n").height(), 1);
}

#[test]
fn empty_text_loads_no_lines() {
    let buffer = load("");
    assert!(buffer.is_empty());
    assert_eq!(buffer.height(), 0);
}

#[test]
fn carriage_return_before_line_feed_is_dropped() {
    let buffer = load("ab\r\ncd\r\n");
    assert_eq!(buffer.height(), 2);
    assert_eq!(full_line(&buffer, 0), "ab");
    assert_eq!(full_line(&buffer, 1), "cd");
}

#[test]
fn lone_carriage_return_stays_in_the_line() {
    let buffer = load("ab\rcd");
    assert_eq!(buffer.height(), 1);
    assert_eq!(buffer.lines[0].grapheme_count(), 5);
}

#[test]
fn load_replaces_the_previous_lines() {
    let mut buffer = load("one\ntwo\nthree");
    assert_eq!(buffer.height(), 3);
    buffer.load("only");
    assert_eq!(buffer.height(), 1);
    assert_eq!(full_line(&buffer, 0), "only");
}

#[test]
fn loaded_lines_read_back_as_written() {
    let text = "first line\n\u{65e5}\u{672c}\u{8a9e}\n\ne\u{301}t\u{e9}\nlast";
    let buffer = load(text);
    let expected: Vec<&str> = text.lines().collect();
    assert_eq!(buffer.height(), expected.len());
    for (i, line) in expected.iter().enumerate() {
        assert_eq!(full_line(&buffer, i), *line);
    }
}
