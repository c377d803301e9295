//! Cleans, styles and colors that are written on their own, each into an
//! [`SGRBuilder`].
use vstd::prelude::*;

use crate::text::render_codes;
use crate::writing::SGRBuilder;

verus! {

/// SGR values written on their own, outside of an [`SGRString`](crate::SGRString).
pub trait DiscreteSGR: Sized {
    /// The codes of the value.
    spec fn codes(&self) -> Seq<u8>;

    /// Adds the codes of the value to the builder; no IO is done.
    fn write(&self, builder: &mut SGRBuilder)
        ensures
            final(builder)@ == old(builder)@ + self.codes(),
    ;

    /// The complete SGR sequence of the value.
    fn standard_display(&self) -> (r: String)
        ensures
            r@ == render_codes(self.codes()),
    {
        let mut builder = SGRBuilder::new();
        self.write(&mut builder);
        assert(builder@ =~= self.codes());
        builder.end()
    }
}

/// A clean: codes meant to reverse or reset other codes.
#[derive(Debug, Clone, Copy, PartialEq, Eq, Structural)]
pub enum Clean {
    /// Clears all by writing `\x1b[0m`
    Reset,
    /// Resets to the previous style; written as [`Clean::Reset`] is
    Reverse,
}

impl DiscreteSGR for Clean {
    open spec fn codes(&self) -> Seq<u8> {
        seq![0u8]
    }

    fn write(&self, builder: &mut SGRBuilder) {
        match self {
            Clean::Reset => builder.write_code(0),
            Clean::Reverse => builder.write_code(0),
        }
    }
}

/// A style code; the reset code is [`Clean::Reset`], colors are [`Color`].
#[derive(Debug, Clone, Copy, PartialEq, Eq, Structural)]
pub enum Style {
    Bold,
    Dim,
    Italic,
    Underline,
    Blinking,
    Inverse,
    Hidden,
    Strikethrough,
    NotBold,
    NotDim,
    NotItalic,
    NotUnderline,
    NotBlinking,
    NotInverse,
    NotHidden,
    NotStrikethrough,
}

/// The code of a style.
pub open spec fn discrete_style_code(s: Style) -> u8 {
    match s {
        Style::Bold => 1,
        Style::Dim => 2,
        Style::Italic => 3,
        Style::Underline => 4,
        Style::Blinking => 5,
        Style::Inverse => 7,
        Style::Hidden => 8,
        Style::Strikethrough => 9,
        Style::NotBold => 22,
        Style::NotDim => 22,
        Style::NotItalic => 23,
        Style::NotUnderline => 24,
        Style::NotBlinking => 25,
        Style::NotInverse => 27,
        Style::NotHidden => 28,
        Style::NotStrikethrough => 29,
    }
}

impl DiscreteSGR for Style {
    open spec fn codes(&self) -> Seq<u8> {
        seq![discrete_style_code(*self)]
    }

    fn write(&self, builder: &mut SGRBuilder) {
        builder.write_code(
            match self {
                Style::Bold => 1,
                Style::Dim => 2,
                Style::Italic => 3,
                Style::Underline => 4,
                Style::Blinking => 5,
                Style::Inverse => 7,
                Style::Hidden => 8,
                Style::Strikethrough => 9,
                Style::NotBold | Style::NotDim => 22,
                Style::NotItalic => 23,
                Style::NotUnderline => 24,
                Style::NotBlinking => 25,
                Style::NotInverse => 27,
                Style::NotHidden => 28,
                Style::NotStrikethrough => 29,
            },
        );
    }
}

/// A color code.
#[derive(Debug, Clone, Copy, PartialEq, Eq, Structural)]
pub enum Color {
    BlackFg,
    RedFg,
    GreenFg,
    YellowFg,
    BlueFg,
    MagentaFg,
    CyanFg,
    WhiteFg,
    ByteFg(u8),
    RgbFg(u8, u8, u8),
    DefaultFg,
    BlackBg,
    RedBg,
    GreenBg,
    YellowBg,
    BlueBg,
    MagentaBg,
    CyanBg,
    WhiteBg,
    ByteBg(u8),
    RgbBg(u8, u8, u8),
    DefaultBg,
}

/// The codes of a color.
pub open spec fn discrete_color_codes(c: Color) -> Seq<u8> {
    match c {
        Color::BlackFg => seq![30],
        Color::RedFg => seq![31],
        Color::GreenFg => seq![32],
        Color::YellowFg => seq![33],
        Color::BlueFg => seq![34],
        Color::MagentaFg => seq![35],
        Color::CyanFg => seq![36],
        Color::WhiteFg => seq![37],
        Color::ByteFg(n) => seq![38, 2, n],
        Color::RgbFg(r, g, b) => seq![38, 5, r, g, b],
        Color::DefaultFg => seq![39],
        Color::BlackBg => seq![40],
        Color::RedBg => seq![41],
        Color::GreenBg => seq![42],
        Color::YellowBg => seq![43],
        Color::BlueBg => seq![44],
        Color::MagentaBg => seq![45],
        Color::CyanBg => seq![46],
        Color::WhiteBg => seq![47],
        Color::ByteBg(n) => seq![48, 2, n],
        Color::RgbBg(r, g, b) => seq![48, 5, r, g, b],
        Color::DefaultBg => seq![49],
    }
}

impl DiscreteSGR for Color {
    open spec fn codes(&self) -> Seq<u8> {
        discrete_color_codes(*self)
    }

    fn write(&self, builder: &mut SGRBuilder) {
        match self {
            Color::BlackFg => builder.write_code(30),
            Color::RedFg => builder.write_code(31),
            Color::GreenFg => builder.write_code(32),
            Color::YellowFg => builder.write_code(33),
            Color::BlueFg => builder.write_code(34),
            Color::MagentaFg => builder.write_code(35),
            Color::CyanFg => builder.write_code(36),
            Color::WhiteFg => builder.write_code(37),
            Color::ByteFg(n) => builder.write_codes(&[38, 2, *n]),
            Color::RgbFg(r, g, b) => builder.write_codes(&[38, 5, *r, *g, *b]),
            Color::DefaultFg => builder.write_code(39),
            Color::BlackBg => builder.write_code(40),
            Color::RedBg => builder.write_code(41),
            Color::GreenBg => builder.write_code(42),
            Color::YellowBg => builder.write_code(43),
            Color::BlueBg => builder.write_code(44),
            Color::MagentaBg => builder.write_code(45),
            Color::CyanBg => builder.write_code(46),
            Color::WhiteBg => builder.write_code(47),
            Color::ByteBg(n) => builder.write_codes(&[48, 2, *n]),
            Color::RgbBg(r, g, b) => builder.write_codes(&[48, 5, *r, *g, *b]),
            Color::DefaultBg => builder.write_code(49),
        }
        assert(final(builder)@ =~= old(builder)@ + self.codes());
    }
}

} // verus!
