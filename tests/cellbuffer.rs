use rustty::{Attr, Cell, CellBuffer, Color, Error, Style};

fn chars_of_column(buf: &CellBuffer, col: usize) -> Vec<char> {
    buf.index(col).unwrap().iter().map(|c| c.ch()).collect()
}

#[test]
fn new_buffer_has_shape_and_default_cells() {
    let buf = CellBuffer::new(4, 3);
    assert_eq!(buf.size(), (4, 3));
    assert_eq!(buf.cols(), 4);
    assert_eq!(buf.rows(), 3);
    for col in 0..4 {
        for row in 0..3 {
            assert_eq!(buf.get(col, row), Ok(Cell::default()));
        }
    }
}

#[test]
fn with_char_fills_every_cell() {
    let buf = CellBuffer::with_char(2, 5, 'q');
    assert_eq!(buf.size(), (2, 5));
    for col in 0..2 {
        for row in 0..5 {
            let c = buf.get(col, row).unwrap();
            assert_eq!(c.ch(), 'q');
            assert_eq!(c.fg(), Style::default());
            assert_eq!(c.bg(), Style::default());
        }
    }
}

#[test]
fn with_styles_fills_every_cell() {
    let fg = Style::new(Color::Red, Attr::Bold);
    let bg = Style::with_color(Color::Byte(17));
    let buf = CellBuffer::with_styles(3, 1, fg, bg);
    for col in 0..3 {
        assert_eq!(buf.get(col, 0), Ok(Cell::new(' ', fg, bg)));
    }
}

#[test]
fn with_cell_and_empty_shapes() {
    let cell = Cell::new('#', Style::with_attr(Attr::Underline), Style::default());
    let buf = CellBuffer::with_cell(2, 2, cell);
    assert_eq!(buf.get(1, 1), Ok(cell));
    let none = CellBuffer::new(0, 0);
    assert_eq!(none.size(), (0, 0));
    assert_eq!(none.index(0), Err(Error::IndexOutOfBounds));
    let flat = CellBuffer::new(3, 0);
    assert_eq!(flat.size(), (3, 0));
    assert_eq!(flat.index(2).unwrap().len(), 0);
    assert_eq!(flat.get(2, 0), Err(Error::IndexOutOfBounds));
    assert!(CellBuffer::default() == CellBuffer::new(0, 0));
}

#[test]
fn clear_twice_equals_clear_once() {
    let mut once = CellBuffer::with_char(3, 4, 'a');
    *once.index_mut(2, 3).unwrap() = Cell::with_char('z');
    let mut twice = once.clone();
    let blank = Cell::new('.', Style::with_color(Color::Blue), Style::default());
    once.clear_with_cell(blank);
    twice.clear_with_cell(blank);
    twice.clear_with_cell(blank);
    assert!(once == twice);
    assert_eq!(once.size(), (3, 4));
    assert_eq!(once.get(2, 3), Ok(blank));
}

#[test]
fn clear_variants() {
    let mut buf = CellBuffer::with_char(2, 2, 'k');
    buf.clear();
    assert!(buf == CellBuffer::new(2, 2));
    buf.clear_with_char('m');
    assert!(buf == CellBuffer::with_char(2, 2, 'm'));
    let fg = Style::with_attr(Attr::Reverse);
    let bg = Style::with_color(Color::Green);
    buf.clear_with_styles(fg, bg);
    assert!(buf == CellBuffer::with_styles(2, 2, fg, bg));
}

#[test]
fn resize_round_trip() {
    let mut buf = CellBuffer::with_char(3, 3, ' ');
    for col in 0..3 {
        for row in 0..3 {
            let ch = (b'a' + (col * 3 + row) as u8) as char;
            buf.index_mut(col, row).unwrap().set_ch(ch);
        }
    }
    let original = buf.clone();
    let blank = Cell::with_char('_');
    buf.resize(2, 4, blank);
    assert_eq!(buf.size(), (2, 4));
    buf.resize(3, 3, blank);
    assert_eq!(buf.size(), (3, 3));
    for col in 0..3 {
        for row in 0..3 {
            let got = buf.get(col, row).unwrap();
            if col < 2 {
                assert_eq!(got, original.get(col, row).unwrap());
            } else {
                assert_eq!(got, blank);
            }
        }
    }
}

#[test]
fn resize_growing_columns_only() {
    let mut buf = CellBuffer::with_char(2, 2, 'o');
    buf.index_mut(1, 1).unwrap().set_ch('p');
    let blank = Cell::with_char('+');
    buf.resize(4, 2, blank);
    assert_eq!(buf.size(), (4, 2));
    assert_eq!(chars_of_column(&buf, 0), vec!['o', 'o']);
    assert_eq!(chars_of_column(&buf, 1), vec!['o', 'p']);
    assert_eq!(chars_of_column(&buf, 2), vec!['+', '+']);
    assert_eq!(chars_of_column(&buf, 3), vec!['+', '+']);
}

#[test]
fn resize_shrinking_both_axes() {
    let mut buf = CellBuffer::with_char(3, 3, 'r');
    buf.index_mut(0, 0).unwrap().set_ch('s');
    buf.resize(1, 1, Cell::with_char('x'));
    assert_eq!(buf.size(), (1, 1));
    assert_eq!(chars_of_column(&buf, 0), vec!['s']);
    assert_eq!(buf.index(1), Err(Error::IndexOutOfBounds));
    buf.resize(0, 0, Cell::default());
    assert_eq!(buf.size(), (0, 0));
}

#[test]
fn out_of_bounds_indexing() {
    let mut buf = CellBuffer::new(3, 2);
    assert_eq!(buf.index(3), Err(Error::IndexOutOfBounds));
    assert_eq!(buf.get(3, 0), Err(Error::IndexOutOfBounds));
    assert_eq!(buf.get(0, 2), Err(Error::IndexOutOfBounds));
    assert_eq!(buf.index_mut(3, 0), Err(Error::IndexOutOfBounds));
    assert_eq!(buf.index_mut(1, 2), Err(Error::IndexOutOfBounds));
    assert_eq!(buf.index(2).unwrap().len(), 2);
    assert_eq!(buf.get(2, 1), Ok(Cell::default()));
    assert!(buf.index_mut(2, 1).is_ok());
}

#[test]
fn color_encoding() {
    assert_eq!(Color::Red.as_byte(), Ok(1));
    assert_eq!(Color::Byte(200).as_byte(), Ok(200));
    assert_eq!(Color::Default.as_byte(), Err(Error::InvalidOperation));
    let named = [
        Color::Black,
        Color::Red,
        Color::Green,
        Color::Yellow,
        Color::Blue,
        Color::Magenta,
        Color::Cyan,
        Color::White,
    ];
    for (i, c) in named.iter().enumerate() {
        assert_eq!(c.as_byte(), Ok(i as u8));
    }
    assert_eq!(Color::Byte(0).as_byte(), Ok(0));
    assert_eq!(Color::Byte(255).as_byte(), Ok(255));
}

#[test]
fn write_then_resize_scenario() {
    let mut buf = CellBuffer::with_char(3, 2, ' ');
    buf.index_mut(1, 0).unwrap().set_ch('x');
    buf.resize(2, 3, Cell::with_char('_'));
    assert_eq!(buf.size(), (2, 3));
    assert_eq!(chars_of_column(&buf, 0), vec![' ', ' ', '_']);
    assert_eq!(chars_of_column(&buf, 1), vec!['x', ' ', '_']);
    assert_eq!(buf.index(2), Err(Error::IndexOutOfBounds));
}

#[test]
fn style_constructors_and_mutators() {
    let s = Style::new(Color::Cyan, Attr::Bold);
    assert_eq!(s.color(), Color::Cyan);
    assert_eq!(s.attr(), Attr::Bold);
    assert_eq!(Style::with_color(Color::White), Style::new(Color::White, Attr::Default));
    assert_eq!(Style::with_attr(Attr::Underline), Style::new(Color::Default, Attr::Underline));
    assert_eq!(Style::default(), Style::new(Color::Default, Attr::Default));
    let mut t = Style::default();
    t.set_color(Color::Magenta).set_attr(Attr::Reverse);
    assert_eq!(t, Style::new(Color::Magenta, Attr::Reverse));
    assert_ne!(t, Style::new(Color::Magenta, Attr::Bold));
}

#[test]
fn cell_constructors_and_mutators() {
    let fg = Style::with_color(Color::Yellow);
    let bg = Style::with_attr(Attr::Bold);
    let c = Cell::new('w', fg, bg);
    assert_eq!(c.ch(), 'w');
    assert_eq!(c.fg(), fg);
    assert_eq!(c.bg(), bg);
    assert_eq!(Cell::with_char('v'), Cell::new('v', Style::default(), Style::default()));
    assert_eq!(Cell::with_styles(fg, bg), Cell::new(' ', fg, bg));
    assert_eq!(Cell::default(), Cell::new(' ', Style::default(), Style::default()));

    let mut d = Cell::default();
    d.set_ch('y').set_fg(fg).set_bg(bg);
    assert_eq!(d, Cell::new('y', fg, bg));

    let mut e = Cell::new('e', fg, bg);
    e.fg_mut().set_color(Color::Black);
    e.bg_mut().set_attr(Attr::Default);
    assert_eq!(e.ch(), 'e');
    assert_eq!(e.fg(), Style::new(Color::Black, Attr::Default));
    assert_eq!(e.bg(), Style::default());
}

#[test]
fn copies_are_independent() {
    let mut a = CellBuffer::with_char(2, 2, 'a');
    let b = a.clone();
    a.index_mut(0, 0).unwrap().set_ch('b');
    assert_eq!(b.get(0, 0).unwrap().ch(), 'a');
    assert_eq!(a.get(0, 0).unwrap().ch(), 'b');
    assert!(a != b);
}
