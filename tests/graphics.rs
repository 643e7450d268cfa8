use termdraw::error::Error;
use termdraw::graphics::chars::Char;
use termdraw::graphics::lines::Line;
use termdraw::graphics::{Drawable, FrameBuffer, VirtualCursor};

fn cells(fb: &FrameBuffer) -> Vec<Option<char>> {
    let mut all = Vec::new();
    for y in -1..fb.height() + 1 {
        for x in -1..fb.width() + 1 {
            all.push(fb.get(x, y));
        }
    }
    all
}

#[test]
fn new_buffer_is_all_spaces() {
    let fb = FrameBuffer::new(4, 3).unwrap();
    assert_eq!(fb.width(), 4);
    assert_eq!(fb.height(), 3);
    for y in 0..3 {
        for x in 0..4 {
            assert_eq!(fb.get(x, y), Some(' '));
        }
    }
}

#[test]
fn new_buffer_of_zero_size() {
    let fb = FrameBuffer::new(0, 5).unwrap();
    assert_eq!(fb.get(0, 0), None);
    let fb = FrameBuffer::new(0, 0).unwrap();
    assert_eq!(fb.get(0, 0), None);
}

#[test]
fn new_buffer_rejects_negative_dimensions() {
    assert_eq!(FrameBuffer::new(-1, 3).err(), Some(Error::InvalidDimension));
    assert_eq!(FrameBuffer::new(3, -1).err(), Some(Error::InvalidDimension));
    assert_eq!(FrameBuffer::new(i16::MIN, i16::MIN).err(), Some(Error::InvalidDimension));
}

#[test]
fn insert_then_read_back() {
    let mut fb = FrameBuffer::new(5, 4).unwrap();
    let before = cells(&fb);
    fb.insert('x', 2, 3);
    assert_eq!(fb.get(2, 3), Some('x'));
    let after = cells(&fb);
    let changed = before.iter().zip(after.iter()).filter(|(a, b)| a != b).count();
    assert_eq!(changed, 1);
    fb.insert('y', 2, 3);
    assert_eq!(fb.get(2, 3), Some('y'));
    fb.insert('z', 0, 0);
    fb.insert('w', 4, 3);
    assert_eq!(fb.get(0, 0), Some('z'));
    assert_eq!(fb.get(4, 3), Some('w'));
    assert_eq!(fb.get(2, 3), Some('y'));
    assert_eq!(fb.get(3, 3), Some(' '));
}

#[test]
fn insert_out_of_bounds_is_ignored() {
    let mut fb = FrameBuffer::new(3, 2).unwrap();
    fb.insert('a', 1, 1);
    let before = cells(&fb);
    for (x, y) in [(-1, 0), (0, -1), (3, 0), (0, 2), (3, 2), (i16::MAX, i16::MAX), (i16::MIN, 0)] {
        fb.insert('#', x, y);
        assert_eq!(cells(&fb), before);
    }
}

#[test]
fn cursor_set_position() {
    let mut c = VirtualCursor::default();
    assert_eq!((c.x, c.y), (0, 0));
    c.set_position(-4, 7);
    assert_eq!((c.x, c.y), (-4, 7));
}

#[test]
fn char_newline() {
    assert!(Char::from('\n').is_newline());
    assert!(!Char::from('a').is_newline());
    assert!(!Char::from('\r').is_newline());
    assert!(!Char::from(' ').is_newline());
    assert_eq!(Char::from('q').character(), 'q');
}

fn drawn<D: Drawable>(d: &D) -> Vec<u8> {
    let mut out = Vec::new();
    d.draw(&mut out);
    out
}

#[test]
fn char_draws_its_utf8_bytes() {
    for c in ['a', '\n', 'é', '┼', '€', '😀', '\u{7f}', '\u{80}', '\u{7ff}', '\u{800}', '\u{ffff}', '\u{10000}', '\u{10ffff}'] {
        assert_eq!(drawn(&Char::from(c)), c.to_string().into_bytes());
    }
    assert_eq!(drawn(&Char::from('é')), vec![0xC3, 0xA9]);
}

#[test]
fn draw_appends_to_existing_output() {
    let mut out = b"ab".to_vec();
    Line::Vertical.draw(&mut out);
    Char::from('c').draw(&mut out);
    assert_eq!(out, "ab│c".as_bytes());
}

const ALL_LINES: [(Line, &str); 11] = [
    (Line::LeftBottomCorner, "└"),
    (Line::LeftTopCorner, "┌"),
    (Line::RightTopCorner, "┐"),
    (Line::RightBottomCorner, "┘"),
    (Line::Intersection, "┼"),
    (Line::Horizontal, "─"),
    (Line::LeftIntersect, "├"),
    (Line::RightIntersect, "┤"),
    (Line::TopIntersect, "┬"),
    (Line::BottomIntersect, "┴"),
    (Line::Vertical, "│"),
];

#[test]
fn line_symbols_match_table() {
    for (line, symbol) in ALL_LINES {
        assert_eq!(drawn(&line), symbol.as_bytes());
        assert_eq!(line.symbol().to_string(), symbol);
    }
    assert_eq!(drawn(&Line::Horizontal), "─".as_bytes());
}

#[test]
fn line_symbols_are_single_distinct_code_points() {
    let mut seen = Vec::new();
    for (line, _) in ALL_LINES {
        let text = String::from_utf8(drawn(&line)).unwrap();
        assert_eq!(text.chars().count(), 1);
        assert!(!seen.contains(&text));
        seen.push(text);
    }
    assert_eq!(seen.len(), 11);
}
