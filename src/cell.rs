use vstd::prelude::*;

use crate::color::{Attr, Color};

verus! {

/// What a `Cell` holds: one character and its style.
pub struct CellView {
    pub ch: char,
    pub fg: Color,
    pub bg: Color,
    pub attrs: Attr,
}

impl CellView {
    /// The view of the default cell: a space in the terminal's default
    /// colors, with no attribute.
    pub open spec fn blank() -> CellView {
        CellView { ch: ' ', fg: Color::Default, bg: Color::Default, attrs: Attr::Default }
    }
}

/// A single point on a terminal display: a character and its style.
#[derive(Debug, Copy, Clone, PartialEq, Eq, Structural)]
pub struct Cell {
    ch: char,
    fg: Color,
    bg: Color,
    attrs: Attr,
}

impl View for Cell {
    type V = CellView;

    closed spec fn view(&self) -> CellView {
        CellView { ch: self.ch, fg: self.fg, bg: self.bg, attrs: self.attrs }
    }
}

/// Two cells are equal exactly when they hold the same character and style.
pub proof fn lemma_cell_view_injective(a: Cell, b: Cell)
    ensures
        a@ == b@ <==> a == b,
{
}

impl Cell {
    /// Creates a cell from its four fields, as given.
    pub fn new(ch: char, fg: Color, bg: Color, attrs: Attr) -> (r: Cell)
        ensures
            r@ == (CellView { ch, fg, bg, attrs }),
    {
        Cell { ch: ch, fg: fg, bg: bg, attrs: attrs }
    }

    /// Returns the cell's character.
    pub fn ch(&self) -> (r: char)
        ensures
            r == self@.ch,
    {
        self.ch
    }

    /// Sets the cell's character, and returns the cell for further changes.
    pub fn set_ch(&mut self, newch: char) -> (r: &mut Cell)
        ensures
            r@ == (CellView { ch: newch, ..old(self)@ }),
            *final(self) == *final(r),
    {
        self.ch = newch;
        self
    }

    /// Returns the cell's foreground color.
    pub fn fg(&self) -> (r: Color)
        ensures
            r == self@.fg,
    {
        self.fg
    }

    /// Sets the cell's foreground color, and returns the cell for further
    /// changes.
    pub fn set_fg(&mut self, newfg: Color) -> (r: &mut Cell)
        ensures
            r@ == (CellView { fg: newfg, ..old(self)@ }),
            *final(self) == *final(r),
    {
        self.fg = newfg;
        self
    }

    /// Returns the cell's background color.
    pub fn bg(&self) -> (r: Color)
        ensures
            r == self@.bg,
    {
        self.bg
    }

    /// Sets the cell's background color, and returns the cell for further
    /// changes.
    pub fn set_bg(&mut self, newbg: Color) -> (r: &mut Cell)
        ensures
            r@ == (CellView { bg: newbg, ..old(self)@ }),
            *final(self) == *final(r),
    {
        self.bg = newbg;
        self
    }

    /// Returns the cell's attributes.
    pub fn attrs(&self) -> (r: Attr)
        ensures
            r == self@.attrs,
    {
        self.attrs
    }

    /// Sets the cell's attributes, and returns the cell for further changes.
    pub fn set_attrs(&mut self, newattrs: Attr) -> (r: &mut Cell)
        ensures
            r@ == (CellView { attrs: newattrs, ..old(self)@ }),
            *final(self) == *final(r),
    {
        self.attrs = newattrs;
        self
    }
}

impl Default for Cell {
    /// The blank cell: a space in the default colors, with no attribute.
    fn default() -> (r: Cell)
        ensures
            r@ == CellView::blank(),
    {
        Cell::new(' ', Color::Default, Color::Default, Attr::Default)
    }
}

} // verus!
