//! SGR values that can be used on their own, inline of a string:
//! [`Sequence`], [`Style`] and [`Color`].
use vstd::prelude::*;

use crate::graphics::EasySGR;
use crate::text::{append_joined, escape_chars, join_codes, render_codes};
use crate::writing::SGRBuilder;

pub mod from_str;

pub use from_str::{ParseColorError, ParseSeqError, ParseStyleError};

verus! {

/// The escape and the end of an SGR sequence, for writing the codes between
/// them by hand.
#[derive(Debug, Clone, Copy, PartialEq, Eq, Structural)]
pub enum Sequence {
    /// The sequence escape string, `\x1b[`.
    Esc,
    /// The sequence end string, `m`.
    End,
}

/// The text of a [`Sequence`] part.
pub open spec fn sequence_text(s: Sequence) -> Seq<char> {
    match s {
        Sequence::Esc => escape_chars(),
        Sequence::End => seq!['m'],
    }
}

impl Sequence {
    /// The text of the part: `\x1b[` or `m`.
    pub fn to_string(&self) -> (r: String)
        ensures
            r@ == sequence_text(*self),
    {
        let mut r = String::new();
        match self {
            Sequence::Esc => {
                crate::text::push_char(&mut r, '\u{1b}');
                crate::text::push_char(&mut r, '[');
            },
            Sequence::End => {
                crate::text::push_char(&mut r, 'm');
            },
        }
        assert(r@ =~= sequence_text(*self));
        r
    }
}

/// An SGR style code.
#[derive(Debug, Clone, Copy, PartialEq, Eq, Structural)]
pub enum Style {
    /// Represents the SGR code `0`; resets everything, colors and custom codes included.
    Reset,
    /// Represents the SGR code `1`
    Bold,
    /// Represents the SGR code `2`
    Dim,
    /// Represents the SGR code `3`
    Italic,
    /// Represents the SGR code `4`
    Underline,
    /// Represents the SGR code `5`
    Blinking,
    /// Represents the SGR code `7`
    Inverse,
    /// Represents the SGR code `8`
    Hidden,
    /// Represents the SGR code `9`
    Strikethrough,
    /// Represents the SGR code `22`, as [`Style::NotDim`] does
    NotBold,
    /// Represents the SGR code `22`, as [`Style::NotBold`] does
    NotDim,
    /// Represents the SGR code `23`
    NotItalic,
    /// Represents the SGR code `24`
    NotUnderline,
    /// Represents the SGR code `25`
    NotBlinking,
    /// Represents the SGR code `27`
    NotInverse,
    /// Represents the SGR code `28`
    NotHidden,
    /// Represents the SGR code `29`
    NotStrikethrough,
}

/// The code of a style.
pub open spec fn style_code(s: Style) -> u8 {
    match s {
        Style::Reset => 0,
        Style::Bold => 1,
        Style::Dim => 2,
        Style::Italic => 3,
        Style::Underline => 4,
        Style::Blinking => 5,
        Style::Inverse => 7,
        Style::Hidden => 8,
        Style::Strikethrough => 9,
        Style::NotBold => 22,
        Style::NotDim => 22,
        Style::NotItalic => 23,
        Style::NotUnderline => 24,
        Style::NotBlinking => 25,
        Style::NotInverse => 27,
        Style::NotHidden => 28,
        Style::NotStrikethrough => 29,
    }
}

impl Style {
    /// The code of the style.
    pub fn code(&self) -> (r: u8)
        ensures
            r == style_code(*self),
    {
        match self {
            Style::Reset => 0,
            Style::Bold => 1,
            Style::Dim => 2,
            Style::Italic => 3,
            Style::Underline => 4,
            Style::Blinking => 5,
            Style::Inverse => 7,
            Style::Hidden => 8,
            Style::Strikethrough => 9,
            Style::NotBold | Style::NotDim => 22,
            Style::NotItalic => 23,
            Style::NotUnderline => 24,
            Style::NotBlinking => 25,
            Style::NotInverse => 27,
            Style::NotHidden => 28,
            Style::NotStrikethrough => 29,
        }
    }

    /// The SGR sequence of the style, as the `Display` of a style writes it.
    pub fn to_string(&self) -> (r: String)
        ensures
            r@ == render_codes(self.codes()),
    {
        self.standard_display()
    }
}

impl DiscreteSGR for Style {
    open spec fn codes(&self) -> Seq<u8> {
        seq![style_code(*self)]
    }

    fn write(&self, builder: &mut SGRBuilder) {
        builder.write_code(self.code());
    }
}

/// An SGR color code.
#[derive(Debug, Clone, Copy, PartialEq, Eq, Structural)]
pub enum Color {
    /// Represents the SGR code `30`
    BlackFg,
    /// Represents the SGR code `31`
    RedFg,
    /// Represents the SGR code `32`
    GreenFg,
    /// Represents the SGR code `33`
    YellowFg,
    /// Represents the SGR code `34`
    BlueFg,
    /// Represents the SGR code `35`
    MagentaFg,
    /// Represents the SGR code `36`
    CyanFg,
    /// Represents the SGR code `37`
    WhiteFg,
    /// Represents the SGR codes `38;2;<n>`, where `<n>` is an 8 bit color
    ByteFg(u8),
    /// Represents the SGR codes `38;5;<n1>;<n2>;<n3>`, where the `<n>` are 8 bit colors
    RgbFg(u8, u8, u8),
    /// Represents the SGR code `39`
    DefaultFg,
    /// Represents the SGR code `40`
    BlackBg,
    /// Represents the SGR code `41`
    RedBg,
    /// Represents the SGR code `42`
    GreenBg,
    /// Represents the SGR code `43`
    YellowBg,
    /// Represents the SGR code `44`
    BlueBg,
    /// Represents the SGR code `45`
    MagentaBg,
    /// Represents the SGR code `46`
    CyanBg,
    /// Represents the SGR code `47`
    WhiteBg,
    /// Represents the SGR codes `48;2;<n>`, where `<n>` is an 8 bit color
    ByteBg(u8),
    /// Represents the SGR codes `48;5;<n1>;<n2>;<n3>`, where the `<n>` are 8 bit colors
    RgbBg(u8, u8, u8),
    /// Represents the SGR code `49`
    DefaultBg,
}

/// The codes of a color.
pub open spec fn color_codes(c: Color) -> Seq<u8> {
    match c {
        Color::BlackFg => seq![30],
        Color::RedFg => seq![31],
        Color::GreenFg => seq![32],
        Color::YellowFg => seq![33],
        Color::BlueFg => seq![34],
        Color::MagentaFg => seq![35],
        Color::CyanFg => seq![36],
        Color::WhiteFg => seq![37],
        Color::ByteFg(n) => seq![38, 2, n],
        Color::RgbFg(r, g, b) => seq![38, 5, r, g, b],
        Color::DefaultFg => seq![39],
        Color::BlackBg => seq![40],
        Color::RedBg => seq![41],
        Color::GreenBg => seq![42],
        Color::YellowBg => seq![43],
        Color::BlueBg => seq![44],
        Color::MagentaBg => seq![45],
        Color::CyanBg => seq![46],
        Color::WhiteBg => seq![47],
        Color::ByteBg(n) => seq![48, 2, n],
        Color::RgbBg(r, g, b) => seq![48, 5, r, g, b],
        Color::DefaultBg => seq![49],
    }
}

impl Color {
    /// The SGR sequence of the color, as the `Display` of a color writes it.
    pub fn to_string(&self) -> (r: String)
        ensures
            r@ == render_codes(self.codes()),
    {
        self.standard_display()
    }
}

impl DiscreteSGR for Color {
    open spec fn codes(&self) -> Seq<u8> {
        color_codes(*self)
    }

    fn write(&self, builder: &mut SGRBuilder) {
        match self {
            Color::BlackFg => builder.write_code(30),
            Color::RedFg => builder.write_code(31),
            Color::GreenFg => builder.write_code(32),
            Color::YellowFg => builder.write_code(33),
            Color::BlueFg => builder.write_code(34),
            Color::MagentaFg => builder.write_code(35),
            Color::CyanFg => builder.write_code(36),
            Color::WhiteFg => builder.write_code(37),
            Color::ByteFg(n) => builder.write_codes(&[38, 2, *n]),
            Color::RgbFg(r, g, b) => builder.write_codes(&[38, 5, *r, *g, *b]),
            Color::DefaultFg => builder.write_code(39),
            Color::BlackBg => builder.write_code(40),
            Color::RedBg => builder.write_code(41),
            Color::GreenBg => builder.write_code(42),
            Color::YellowBg => builder.write_code(43),
            Color::BlueBg => builder.write_code(44),
            Color::MagentaBg => builder.write_code(45),
            Color::CyanBg => builder.write_code(46),
            Color::WhiteBg => builder.write_code(47),
            Color::ByteBg(n) => builder.write_codes(&[48, 2, *n]),
            Color::RgbBg(r, g, b) => builder.write_codes(&[48, 5, *r, *g, *b]),
            Color::DefaultBg => builder.write_code(49),
        }
        assert(final(builder)@ =~= old(builder)@ + self.codes());
    }
}

/// SGR values that can be used on their own, outside of an
/// [`SGRString`](crate::SGRString), though they can be chained into one
/// through [`EasySGR`].
pub trait DiscreteSGR: Sized + EasySGR {
    /// The codes of the value.
    spec fn codes(&self) -> Seq<u8>;

    /// Adds the codes of the value to the builder; no IO is done.
    fn write(&self, builder: &mut SGRBuilder)
        ensures
            final(builder)@ == old(builder)@ + self.codes(),
    ;

    /// The complete SGR sequence of the value: escape, codes and end.
    fn standard_display(&self) -> (r: String)
        ensures
            r@ == render_codes(self.codes()),
    {
        let mut builder = SGRBuilder::new();
        self.write(&mut builder);
        assert(builder@ =~= self.codes());
        builder.end()
    }

    /// The codes of the value alone, separated by `;`, without the escape and
    /// the end, for writing several values in one sequence with [`Sequence`].
    fn partial_display(&self) -> (r: String)
        ensures
            r@ == join_codes(self.codes()),
    {
        let mut builder = SGRBuilder::new();
        self.write(&mut builder);
        assert(builder@ =~= self.codes());
        let codes = builder.codes();
        let mut r = String::new();
        append_joined(codes, &mut r);
        assert(r@ =~= join_codes(self.codes()));
        r
    }
}

/// The partial displays of two values, separated by `;` between `Esc` and
/// `End`, make the same sequence as the codes of both written at once.
pub proof fn law_partial_sequence(a: Seq<u8>, b: Seq<u8>)
    requires
        a.len() > 0,
        b.len() > 0,
    ensures
        sequence_text(Sequence::Esc) + join_codes(a) + seq![';'] + join_codes(b) + sequence_text(Sequence::End)
            == render_codes(a + b),
{
    crate::text::law_one_sequence(a, b);
}

} // verus!
