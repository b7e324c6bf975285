use vstd::prelude::*;

use crate::error::Error;

verus! {

/// A terminal colour: one of eight named colours, an index into the
/// extended palette, or the terminal's own default.
#[derive(Clone, Copy, Debug, PartialEq, Eq, Structural)]
pub enum Color {
    Black,
    Red,
    Green,
    Yellow,
    Blue,
    Magenta,
    Cyan,
    White,
    Byte(u8),
    Default,
}

/// The palette index of a colour; the default colour has none.
pub open spec fn palette_index(c: Color) -> Option<u8> {
    match c {
        Color::Black => Some(0u8),
        Color::Red => Some(1u8),
        Color::Green => Some(2u8),
        Color::Yellow => Some(3u8),
        Color::Blue => Some(4u8),
        Color::Magenta => Some(5u8),
        Color::Cyan => Some(6u8),
        Color::White => Some(7u8),
        Color::Byte(b) => Some(b),
        Color::Default => None,
    }
}

impl Color {
    /// The colour's palette index; fails on the default colour, which has none.
    pub fn as_byte(&self) -> (r: Result<u8, Error>)
        ensures
            match palette_index(*self) {
                Some(b) => r == Ok::<u8, Error>(b),
                None => r == Err::<u8, Error>(Error::InvalidOperation),
            },
    {
        match *self {
            Color::Black => Ok(0x00),
            Color::Red => Ok(0x01),
            Color::Green => Ok(0x02),
            Color::Yellow => Ok(0x03),
            Color::Blue => Ok(0x04),
            Color::Magenta => Ok(0x05),
            Color::Cyan => Ok(0x06),
            Color::White => Ok(0x07),
            Color::Byte(b) => Ok(b),
            Color::Default => Err(Error::InvalidOperation),
        }
    }
}

/// A single text attribute; attributes do not combine.
#[derive(Clone, Copy, Debug, PartialEq, Eq, Structural)]
pub enum Attr {
    Default,
    Bold,
    Underline,
    Reverse,
}

/// One half of a cell's appearance: a colour and an attribute.
#[derive(Clone, Copy, Debug, PartialEq, Eq, Structural)]
pub struct Style(pub Color, pub Attr);

impl Style {
    /// The style with the given colour and attribute.
    pub open spec fn of(color: Color, attr: Attr) -> Style {
        Style(color, attr)
    }

    /// Creates a style from a colour and an attribute.
    pub fn new(color: Color, attr: Attr) -> (r: Style)
        ensures
            r == Style::of(color, attr),
    {
        Style(color, attr)
    }

    /// Creates a style with the given colour and the default attribute.
    pub fn with_color(c: Color) -> (r: Style)
        ensures
            r == Style::of(c, Attr::Default),
    {
        Style::new(c, Attr::Default)
    }

    /// Creates a style with the default colour and the given attribute.
    pub fn with_attr(a: Attr) -> (r: Style)
        ensures
            r == Style::of(Color::Default, a),
    {
        Style::new(Color::Default, a)
    }

    /// The style's colour.
    pub fn color(&self) -> (r: Color)
        ensures
            r == self.0,
    {
        self.0
    }

    /// Replaces the colour, keeping the attribute; returns the style for chaining.
    pub fn set_color(&mut self, newcolor: Color) -> (r: &mut Style)
        ensures
            *r == Style::of(newcolor, old(self).1),
            *final(self) == *final(r),
    {
        self.0 = newcolor;
        self
    }

    /// The style's attribute.
    pub fn attr(&self) -> (r: Attr)
        ensures
            r == self.1,
    {
        self.1
    }

    /// Replaces the attribute, keeping the colour; returns the style for chaining.
    pub fn set_attr(&mut self, newattr: Attr) -> (r: &mut Style)
        ensures
            *r == Style::of(old(self).0, newattr),
            *final(self) == *final(r),
    {
        self.1 = newattr;
        self
    }
}

impl Default for Style {
    fn default() -> (r: Style)
        ensures
            r == Style::of(Color::Default, Attr::Default),
    {
        Style::new(Color::Default, Attr::Default)
    }
}

/// One character position of a terminal display: a character with a
/// foreground and a background style.
#[derive(Clone, Copy, Debug, PartialEq, Eq, Structural)]
pub struct Cell {
    pub ch: char,
    pub fg: Style,
    pub bg: Style,
}

impl Cell {
    /// The cell with the given character and styles.
    pub open spec fn of(ch: char, fg: Style, bg: Style) -> Cell {
        Cell { ch, fg, bg }
    }

    /// A space with the default style in front and behind.
    pub open spec fn blank() -> Cell {
        Cell::of(' ', Style::of(Color::Default, Attr::Default), Style::of(Color::Default, Attr::Default))
    }

    /// Creates a cell from the given character and styles.
    pub fn new(ch: char, fg: Style, bg: Style) -> (r: Cell)
        ensures
            r == Cell::of(ch, fg, bg),
    {
        Cell { ch, fg, bg }
    }

    /// Creates a cell from the given character, with default styles.
    pub fn with_char(ch: char) -> (r: Cell)
        ensures
            r == Cell::of(ch, Style::of(Color::Default, Attr::Default), Style::of(Color::Default, Attr::Default)),
    {
        Cell::new(ch, Style::default(), Style::default())
    }

    /// Creates a cell from the given styles, with a space for its character.
    pub fn with_styles(fg: Style, bg: Style) -> (r: Cell)
        ensures
            r == Cell::of(' ', fg, bg),
    {
        Cell::new(' ', fg, bg)
    }

    /// The cell's character.
    pub fn ch(&self) -> (r: char)
        ensures
            r == self.ch,
    {
        self.ch
    }

    /// Replaces the character alone; returns the cell for chaining.
    pub fn set_ch(&mut self, newch: char) -> (r: &mut Cell)
        ensures
            *r == Cell::of(newch, old(self).fg, old(self).bg),
            *final(self) == *final(r),
    {
        self.ch = newch;
        self
    }

    /// The cell's foreground style.
    pub fn fg(&self) -> (r: Style)
        ensures
            r == self.fg,
    {
        self.fg
    }

    /// A mutable reference to the foreground style.
    pub fn fg_mut(&mut self) -> (r: &mut Style)
        ensures
            *r == old(self).fg,
            *final(self) == Cell::of(old(self).ch, *final(r), old(self).bg),
    {
        &mut self.fg
    }

    /// Replaces the foreground style alone; returns the cell for chaining.
    pub fn set_fg(&mut self, newfg: Style) -> (r: &mut Cell)
        ensures
            *r == Cell::of(old(self).ch, newfg, old(self).bg),
            *final(self) == *final(r),
    {
        self.fg = newfg;
        self
    }

    /// The cell's background style.
    pub fn bg(&self) -> (r: Style)
        ensures
            r == self.bg,
    {
        self.bg
    }

    /// A mutable reference to the background style.
    pub fn bg_mut(&mut self) -> (r: &mut Style)
        ensures
            *r == old(self).bg,
            *final(self) == Cell::of(old(self).ch, old(self).fg, *final(r)),
    {
        &mut self.bg
    }

    /// Replaces the background style alone; returns the cell for chaining.
    pub fn set_bg(&mut self, newbg: Style) -> (r: &mut Cell)
        ensures
            *r == Cell::of(old(self).ch, old(self).fg, newbg),
            *final(self) == *final(r),
    {
        self.bg = newbg;
        self
    }
}

impl Default for Cell {
    fn default() -> (r: Cell)
        ensures
            r == Cell::blank(),
    {
        Cell::new(' ', Style::default(), Style::default())
    }
}

} // verus!
