use rustty::{Attr, Cell, CellBuffer, Color};

fn blank(ch: char) -> Cell {
    Cell::new(ch, Color::Default, Color::Default, Attr::Default)
}

fn chars(b: &CellBuffer) -> Vec<char> {
    b.as_slice().iter().map(|c| c.ch()).collect()
}

#[test]
fn write_through_index_and_read_back() {
    let mut b = CellBuffer::new(3, 2);
    assert_eq!(b.index((1, 0)).ch(), ' ');
    b.index_mut((1, 0)).set_ch('x');
    assert_eq!(b.index((1, 0)).ch(), 'x');
    assert_eq!(b.as_slice()[1].ch(), 'x');
}

#[test]
fn clear_with_styled_blank() {
    let mut b = CellBuffer::new(2, 2);
    b.clear(Cell::new('.', Color::Red, Color::Default, Attr::Bold));
    assert_eq!(b.as_slice().len(), 4);
    for c in b.as_slice() {
        assert_eq!(c.ch(), '.');
        assert_eq!(c.fg(), Color::Red);
        assert_eq!(c.bg(), Color::Default);
        assert_eq!(c.attrs(), Attr::Bold);
    }
}

#[test]
fn resize_grows_with_blank() {
    let mut b = CellBuffer::new(2, 2);
    b.index_mut((0, 0)).set_ch('A');
    b.index_mut((1, 0)).set_ch('B');
    b.index_mut((0, 1)).set_ch('C');
    b.index_mut((1, 1)).set_ch('D');
    b.resize(3, 3, blank('#'));
    assert_eq!(chars(&b), vec!['A', 'B', '#', 'C', 'D', '#', '#', '#', '#']);
}

#[test]
fn resize_shrinks_keeping_content() {
    let mut b = CellBuffer::new(3, 3);
    b.clear(blank('Z'));
    b.resize(2, 2, Cell::default());
    assert_eq!(b.as_slice().len(), 4);
    for c in b.as_slice() {
        assert_eq!(*c, blank('Z'));
    }
}

#[test]
fn out_of_range_get_is_absent() {
    let mut b = CellBuffer::new(3, 3);
    assert!(b.get(100, 100).is_none());
    assert!(b.get_mut(100, 100).is_none());
    assert!(b.get(3, 0).is_none());
    assert!(b.get(0, 3).is_none());
    assert!(b.get_mut(3, 2).is_none());
    assert!(b.get(2, 2).is_some());
}

#[test]
fn indexed_and_basic_colors_are_distinct() {
    assert_eq!(Color::Byte(0x01).as_byte(), 0x01);
    assert_eq!(Color::Red.as_byte(), 0x01);
    assert_ne!(Color::Red, Color::Byte(0x01));
}

#[test]
fn new_has_size_and_default_cells() {
    let b = CellBuffer::new(4, 3);
    assert_eq!(b.as_slice().len(), 12);
    for c in b.as_slice() {
        assert_eq!(*c, Cell::default());
    }
    let d = Cell::default();
    assert_eq!(d.ch(), ' ');
    assert_eq!(d.fg(), Color::Default);
    assert_eq!(d.bg(), Color::Default);
    assert_eq!(d.attrs(), Attr::Default);
}

#[test]
fn zero_dimensions_give_empty_buffers() {
    assert_eq!(CellBuffer::new(0, 5).as_slice().len(), 0);
    assert_eq!(CellBuffer::new(5, 0).as_slice().len(), 0);
    let mut b = CellBuffer::new(0, 0);
    assert!(b.get(0, 0).is_none());
    b.resize(2, 1, blank('q'));
    assert_eq!(chars(&b), vec!['q', 'q']);
    b.resize(0, 3, blank('r'));
    assert_eq!(b.as_slice().len(), 0);
}

#[test]
fn write_then_read_at_every_position() {
    let mut b = CellBuffer::new(3, 2);
    let v = Cell::new('v', Color::Green, Color::Byte(200), Attr::UnderlineReverse);
    for y in 0..2 {
        for x in 0..3 {
            *b.get_mut(x, y).unwrap() = v;
            assert_eq!(*b.get(x, y).unwrap(), v);
        }
    }
}

#[test]
fn write_leaves_other_cells_alone() {
    let mut b = CellBuffer::new(3, 2);
    b.get_mut(2, 1).unwrap().set_ch('w');
    assert_eq!(chars(&b), vec![' ', ' ', ' ', ' ', ' ', 'w']);
}

#[test]
fn positions_are_row_major() {
    let mut b = CellBuffer::new(4, 3);
    for y in 0..3usize {
        for x in 0..4usize {
            let ch = char::from(b'a' + (y * 4 + x) as u8);
            b.index_mut((x, y)).set_ch(ch);
        }
    }
    for y in 0..3usize {
        for x in 0..4usize {
            assert_eq!(b.get(x, y), Some(&b.as_slice()[y * 4 + x]));
        }
    }
    assert_eq!(b.index((1, 2)).ch(), 'j');
}

#[test]
fn flat_write_lands_at_its_position() {
    let mut b = CellBuffer::new(3, 2);
    b.flat_mut(4).set_ch('f');
    assert_eq!(b.index((1, 1)).ch(), 'f');
}

#[test]
fn clear_twice_equals_clear_once() {
    let mut b = CellBuffer::new(3, 2);
    b.index_mut((0, 0)).set_ch('k');
    let c = Cell::new('.', Color::Blue, Color::Black, Attr::Reverse);
    b.clear(c);
    let once = b.clone();
    b.clear(c);
    assert_eq!(b, once);
    assert!(b.as_slice().iter().all(|x| *x == c));
}

#[test]
fn resize_keeps_overlap_and_fills_the_rest() {
    let mut b = CellBuffer::new(3, 2);
    b.index_mut((0, 0)).set_ch('a');
    b.index_mut((2, 0)).set_ch('b');
    b.index_mut((1, 1)).set_ch('c');
    b.index_mut((2, 1)).set_ch('d');
    b.resize(2, 3, blank('#'));
    assert_eq!(chars(&b), vec!['a', ' ', ' ', 'c', '#', '#']);
}

#[test]
fn resize_wider_and_shorter() {
    let mut b = CellBuffer::new(2, 3);
    b.index_mut((1, 0)).set_ch('p');
    b.index_mut((0, 2)).set_ch('s');
    b.resize(4, 1, blank('#'));
    assert_eq!(chars(&b), vec![' ', 'p', '#', '#']);
}

#[test]
fn resize_to_same_size_changes_nothing() {
    let mut b = CellBuffer::new(3, 2);
    b.index_mut((2, 1)).set_ch('m');
    b.index_mut((0, 1)).set_fg(Color::Cyan);
    let before = b.clone();
    b.resize(3, 2, blank('#'));
    assert_eq!(b, before);
}

#[test]
fn basic_colors_encode_to_their_index() {
    let colors = [
        Color::Black,
        Color::Red,
        Color::Green,
        Color::Yellow,
        Color::Blue,
        Color::Magenta,
        Color::Cyan,
        Color::White,
    ];
    for (i, c) in colors.iter().enumerate() {
        assert_eq!(c.as_byte(), i as u8);
    }
    assert_eq!(Color::Byte(0xff).as_byte(), 0xff);
    assert_eq!(Color::Byte(0x00).as_byte(), 0x00);
}

#[test]
fn attrs_encode_as_flag_bits() {
    assert_eq!(Attr::Default.bits(), 0b000);
    assert_eq!(Attr::Bold.bits(), 0b001);
    assert_eq!(Attr::Underline.bits(), 0b010);
    assert_eq!(Attr::BoldUnderline.bits(), 0b011);
    assert_eq!(Attr::Reverse.bits(), 0b100);
    assert_eq!(Attr::BoldReverse.bits(), 0b101);
    assert_eq!(Attr::UnderlineReverse.bits(), 0b110);
    assert_eq!(Attr::BoldReverseUnderline.bits(), 0b111);
    assert_eq!(Attr::BoldUnderline.bits(), Attr::Bold.bits() | Attr::Underline.bits());
}

#[test]
fn cell_setters_chain() {
    let mut c = Cell::default();
    c.set_ch('x').set_fg(Color::Red).set_bg(Color::Byte(17)).set_attrs(Attr::BoldReverse);
    assert_eq!(c, Cell::new('x', Color::Red, Color::Byte(17), Attr::BoldReverse));
    let n = Cell::new('x', Color::Default, Color::Green, Attr::Default);
    assert_eq!(n.ch(), 'x');
    assert_eq!(n.fg(), Color::Default);
    assert_eq!(n.bg(), Color::Green);
    assert_eq!(n.attrs(), Attr::Default);
}

#[test]
fn deref_gives_the_flat_cells() {
    let mut b = CellBuffer::new(2, 2);
    b.index_mut((1, 1)).set_ch('e');
    assert_eq!(b.len(), 4);
    assert_eq!(b[3].ch(), 'e');
}

#[test]
fn deref_view_after_indexed_write() {
    let mut b = CellBuffer::new(3, 2);
    b.index_mut((1, 0)).set_ch('x');
    assert_eq!(b.len(), 6);
    assert_eq!(b[1].ch(), 'x');
    for y in 0..2usize {
        for x in 0..3usize {
            assert_eq!(b.get(x, y), Some(&b[y * 3 + x]));
        }
    }
}

#[test]
fn deref_mut_writes_land_row_major() {
    let mut b = CellBuffer::new(3, 2);
    b[5].set_ch('s');
    for c in b.iter_mut().take(3) {
        c.set_fg(Color::Yellow);
    }
    assert_eq!(b.len(), 6);
    assert_eq!(b.index((2, 1)).ch(), 's');
    assert_eq!(b.index((2, 0)).fg(), Color::Yellow);
    assert_eq!(b.index((0, 1)).fg(), Color::Default);
}
