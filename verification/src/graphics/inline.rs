//! Clears, styles and colors that write their own complete sequence to an
//! [`SGRWriter`].
use vstd::prelude::*;

use crate::text::render_codes;
use crate::writing::{SGRBuilder, SGRWriter};

verus! {

/// SGR values that write a complete sequence, escape and end included.
pub trait InlineSGR: Sized {
    /// The codes of the value.
    spec fn codes(&self) -> Seq<u8>;

    /// Whether the value can be written.
    spec fn writable(&self) -> bool;

    /// Writes the sequence of the value to the writer.
    fn write<W: SGRWriter>(&self, writer: &mut W) -> (r: Result<(), W::Error>)
        requires
            self.writable(),
        ensures
            W::infallible() ==> r is Ok,
            r is Ok ==> final(writer).written() == old(writer).written() + render_codes(self.codes()),
    ;
}

/// A type of clear.
#[derive(Debug, Clone, Copy, PartialEq, Eq, Structural)]
pub enum Clear {
    /// Clears all
    Reset,
    /// Resets to the previous style; not written by any writer yet
    Clean,
}

impl InlineSGR for Clear {
    open spec fn codes(&self) -> Seq<u8> {
        seq![0u8]
    }

    open spec fn writable(&self) -> bool {
        *self == Clear::Reset
    }

    fn write<W: SGRWriter>(&self, writer: &mut W) -> (r: Result<(), W::Error>) {
        let mut builder = SGRBuilder::new();
        builder.write_code(0);
        builder.write_to(writer)
    }
}

/// A style code.
#[derive(Debug, Clone, Copy, PartialEq, Eq, Structural)]
pub enum Style {
    Bold,
    Dim,
    Italic,
    Underline,
    Blinking,
    Inverse,
    Hidden,
    Strikethrough,
    ClearBold,
    ClearDim,
    ClearItalic,
    ClearUnderline,
    ClearBlinking,
    ClearInverse,
    ClearHidden,
    ClearStrikethrough,
}

/// The code of a style.
pub open spec fn inline_sgr_style_code(s: Style) -> u8 {
    match s {
        Style::Bold => 1,
        Style::Dim => 2,
        Style::Italic => 3,
        Style::Underline => 4,
        Style::Blinking => 5,
        Style::Inverse => 7,
        Style::Hidden => 8,
        Style::Strikethrough => 9,
        Style::ClearBold => 22,
        Style::ClearDim => 22,
        Style::ClearItalic => 23,
        Style::ClearUnderline => 24,
        Style::ClearBlinking => 25,
        Style::ClearInverse => 27,
        Style::ClearHidden => 28,
        Style::ClearStrikethrough => 29,
    }
}

impl InlineSGR for Style {
    open spec fn codes(&self) -> Seq<u8> {
        seq![inline_sgr_style_code(*self)]
    }

    open spec fn writable(&self) -> bool {
        true
    }

    fn write<W: SGRWriter>(&self, writer: &mut W) -> (r: Result<(), W::Error>) {
        let code: u8 = match self {
            Style::Bold => 1,
            Style::Dim => 2,
            Style::Italic => 3,
            Style::Underline => 4,
            Style::Blinking => 5,
            Style::Inverse => 7,
            Style::Hidden => 8,
            Style::Strikethrough => 9,
            Style::ClearBold | Style::ClearDim => 22,
            Style::ClearItalic => 23,
            Style::ClearUnderline => 24,
            Style::ClearBlinking => 25,
            Style::ClearInverse => 27,
            Style::ClearHidden => 28,
            Style::ClearStrikethrough => 29,
        };
        let mut builder = SGRBuilder::new();
        builder.write_code(code);
        builder.write_to(writer)
    }
}

/// A color code.
#[derive(Debug, Clone, Copy, PartialEq, Eq, Structural)]
pub enum Color {
    BlackFg,
    RedFg,
    GreenFg,
    YellowFg,
    BlueFg,
    MagentaFg,
    CyanFg,
    WhiteFg,
    ByteFg(u8),
    RgbFg(u8, u8, u8),
    DefaultFg,
    BlackBg,
    RedBg,
    GreenBg,
    YellowBg,
    BlueBg,
    MagentaBg,
    CyanBg,
    WhiteBg,
    ByteBg(u8),
    RgbBg(u8, u8, u8),
    DefaultBg,
}

/// The codes of a color.
pub open spec fn inline_sgr_color_codes(c: Color) -> Seq<u8> {
    match c {
        Color::BlackFg => seq![30],
        Color::RedFg => seq![31],
        Color::GreenFg => seq![32],
        Color::YellowFg => seq![33],
        Color::BlueFg => seq![34],
        Color::MagentaFg => seq![35],
        Color::CyanFg => seq![36],
        Color::WhiteFg => seq![37],
        Color::ByteFg(n) => seq![38, 2, n],
        Color::RgbFg(r, g, b) => seq![38, 5, r, g, b],
        Color::DefaultFg => seq![39],
        Color::BlackBg => seq![40],
        Color::RedBg => seq![41],
        Color::GreenBg => seq![42],
        Color::YellowBg => seq![43],
        Color::BlueBg => seq![44],
        Color::MagentaBg => seq![45],
        Color::CyanBg => seq![46],
        Color::WhiteBg => seq![47],
        Color::ByteBg(n) => seq![48, 2, n],
        Color::RgbBg(r, g, b) => seq![48, 5, r, g, b],
        Color::DefaultBg => seq![49],
    }
}

impl InlineSGR for Color {
    open spec fn codes(&self) -> Seq<u8> {
        inline_sgr_color_codes(*self)
    }

    open spec fn writable(&self) -> bool {
        true
    }

    fn write<W: SGRWriter>(&self, writer: &mut W) -> (r: Result<(), W::Error>) {
        let mut builder = SGRBuilder::new();
        match self {
            Color::BlackFg => builder.write_code(30),
            Color::RedFg => builder.write_code(31),
            Color::GreenFg => builder.write_code(32),
            Color::YellowFg => builder.write_code(33),
            Color::BlueFg => builder.write_code(34),
            Color::MagentaFg => builder.write_code(35),
            Color::CyanFg => builder.write_code(36),
            Color::WhiteFg => builder.write_code(37),
            Color::ByteFg(n) => builder.write_codes(&[38, 2, *n]),
            Color::RgbFg(r, g, b) => builder.write_codes(&[38, 5, *r, *g, *b]),
            Color::DefaultFg => builder.write_code(39),
            Color::BlackBg => builder.write_code(40),
            Color::RedBg => builder.write_code(41),
            Color::GreenBg => builder.write_code(42),
            Color::YellowBg => builder.write_code(43),
            Color::BlueBg => builder.write_code(44),
            Color::MagentaBg => builder.write_code(45),
            Color::CyanBg => builder.write_code(46),
            Color::WhiteBg => builder.write_code(47),
            Color::ByteBg(n) => builder.write_codes(&[48, 2, *n]),
            Color::RgbBg(r, g, b) => builder.write_codes(&[48, 5, *r, *g, *b]),
            Color::DefaultBg => builder.write_code(49),
        }
        assert(builder@ =~= self.codes());
        builder.write_to(writer)
    }
}

} // verus!
