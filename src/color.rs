use vstd::prelude::*;

verus! {

/// The color of a `Cell`.
///
/// The eight basic colors correspond to `0x00..=0x07` of the 8-bit palette,
/// `Byte(b)` names palette entry `b`, and `Default` stands for whatever the
/// hosting terminal uses by default. Equality is structural: `Red` and
/// `Byte(0x01)` are different values, although they encode to the same byte.
#[derive(Debug, Copy, Clone, PartialEq, Eq, Structural)]
pub enum Color {
    Black,
    Red,
    Green,
    Yellow,
    Blue,
    Magenta,
    Cyan,
    White,
    Byte(u8),
    Default,
}

impl Color {
    /// Whether the color has a palette byte; only `Default` has none.
    pub open spec fn has_byte(self) -> bool {
        !(self is Default)
    }

    /// The palette byte of a color that has one.
    pub open spec fn byte_of(self) -> u8
        recommends
            self.has_byte(),
    {
        match self {
            Color::Black => 0x00,
            Color::Red => 0x01,
            Color::Green => 0x02,
            Color::Yellow => 0x03,
            Color::Blue => 0x04,
            Color::Magenta => 0x05,
            Color::Cyan => 0x06,
            Color::White => 0x07,
            Color::Byte(b) => b,
            Color::Default => 0x00,
        }
    }

    /// Returns the palette byte of the color.
    ///
    /// `Default` has no byte: a renderer draws it with an escape code of its
    /// own, so asking for its byte is a caller's error and is ruled out here.
    pub fn as_byte(&self) -> (r: u8)
        requires
            self.has_byte(),
        ensures
            r == self.byte_of(),
    {
        match *self {
            Color::Black => 0x00,
            Color::Red => 0x01,
            Color::Green => 0x02,
            Color::Yellow => 0x03,
            Color::Blue => 0x04,
            Color::Magenta => 0x05,
            Color::Cyan => 0x06,
            Color::White => 0x07,
            Color::Byte(b) => b,
            Color::Default => {
                // ruled out by the precondition
                assert(false);
                0x00
            },
        }
    }
}

/// Bit of an attribute set that marks bold text.
pub const BOLD_BIT: u8 = 0b001;

/// Bit of an attribute set that marks underlined text.
pub const UNDERLINE_BIT: u8 = 0b010;

/// Bit of an attribute set that marks reverse video.
pub const REVERSE_BIT: u8 = 0b100;

/// The style attributes of a `Cell`.
///
/// Every combination of bold, underline and reverse has a name of its own;
/// `Default` is the empty combination.
#[derive(Debug, Copy, Clone, PartialEq, Eq, Structural)]
pub enum Attr {
    Default,
    Bold,
    Underline,
    BoldUnderline,
    Reverse,
    BoldReverse,
    UnderlineReverse,
    BoldReverseUnderline,
}

/// The bit set of the given flags.
pub open spec fn flag_bits(bold: bool, underline: bool, reverse: bool) -> u8 {
    (if bold { BOLD_BIT } else { 0u8 }) | (if underline { UNDERLINE_BIT } else { 0u8 }) | (if reverse {
        REVERSE_BIT
    } else {
        0u8
    })
}

impl Attr {
    /// Whether the combination includes bold.
    pub open spec fn is_bold(self) -> bool {
        self is Bold || self is BoldUnderline || self is BoldReverse || self is BoldReverseUnderline
    }

    /// Whether the combination includes underline.
    pub open spec fn is_underline(self) -> bool {
        self is Underline || self is BoldUnderline || self is UnderlineReverse
            || self is BoldReverseUnderline
    }

    /// Whether the combination includes reverse video.
    pub open spec fn is_reverse(self) -> bool {
        self is Reverse || self is BoldReverse || self is UnderlineReverse
            || self is BoldReverseUnderline
    }

    /// Returns the integer encoding of the combination: bit 0 for bold,
    /// bit 1 for underline, bit 2 for reverse.
    pub fn bits(&self) -> (r: u8)
        ensures
            r == flag_bits(self.is_bold(), self.is_underline(), self.is_reverse()),
            r < 8,
    {
        let r: u8 = match *self {
            Attr::Default => 0b000,
            Attr::Bold => 0b001,
            Attr::Underline => 0b010,
            Attr::BoldUnderline => 0b011,
            Attr::Reverse => 0b100,
            Attr::BoldReverse => 0b101,
            Attr::UnderlineReverse => 0b110,
            Attr::BoldReverseUnderline => 0b111,
        };
        assert(0u8 | 0u8 | 0u8 == 0u8 && 1u8 | 0u8 | 0u8 == 1u8 && 0u8 | 2u8 | 0u8 == 2u8 && 1u8 | 2u8 | 0u8
            == 3u8 && 0u8 | 0u8 | 4u8 == 4u8 && 1u8 | 0u8 | 4u8 == 5u8 && 0u8 | 2u8 | 4u8 == 6u8 && 1u8 | 2u8
            | 4u8 == 7u8) by (bit_vector);
        r
    }
}

} // verus!
