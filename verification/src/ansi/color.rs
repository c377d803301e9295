//! Colors that write their own sequence.
use vstd::prelude::*;

use super::writer::{AnsiFmt, AnsiWriter};
use crate::text::render_codes;

verus! {

/// A color, without saying whether it is for the foreground or the background.
#[derive(Debug, Clone, Copy, PartialEq, Eq, Structural)]
pub enum AnsiColor {
    Black,
    Red,
    Green,
    Yellow,
    Blue,
    Magenta,
    Cyan,
    White,
    EightBit(u8),
    Rgb(u8, u8, u8),
    Default,
}

impl Default for AnsiColor {
    fn default() -> (r: Self)
        ensures
            r == AnsiColor::Default,
    {
        AnsiColor::Default
    }
}

/// A color code, for the foreground (`F`) or the background (`B`).
#[derive(Debug, Clone, Copy, PartialEq, Eq, Structural)]
pub enum Color {
    FBlack,
    FRed,
    FGreen,
    FYellow,
    FBlue,
    FMagenta,
    FCyan,
    FWhite,
    FEightBit(u8),
    Frgb(u8, u8, u8),
    FDefault,
    BBlack,
    BRed,
    BGreen,
    BYellow,
    BBlue,
    BMagenta,
    BCyan,
    BWhite,
    BEightBit(u8),
    Brgb(u8, u8, u8),
    BDefault,
}

/// The codes of a color.
pub open spec fn ansi_color_codes(c: Color) -> Seq<u8> {
    match c {
        Color::FBlack => seq![30],
        Color::FRed => seq![31],
        Color::FGreen => seq![32],
        Color::FYellow => seq![33],
        Color::FBlue => seq![34],
        Color::FMagenta => seq![35],
        Color::FCyan => seq![36],
        Color::FWhite => seq![37],
        Color::FEightBit(n) => seq![38, 2, n],
        Color::Frgb(r, g, b) => seq![38, 5, r, g, b],
        Color::FDefault => seq![39],
        Color::BBlack => seq![40],
        Color::BRed => seq![41],
        Color::BGreen => seq![42],
        Color::BYellow => seq![43],
        Color::BBlue => seq![44],
        Color::BMagenta => seq![45],
        Color::BCyan => seq![46],
        Color::BWhite => seq![47],
        Color::BEightBit(n) => seq![48, 2, n],
        Color::Brgb(r, g, b) => seq![48, 5, r, g, b],
        Color::BDefault => seq![49],
    }
}

impl Color {
    /// The color's sequence, as its `Display` writes it: escape, codes, end.
    pub fn to_string(&self) -> (r: String)
        ensures
            r@ == render_codes(ansi_color_codes(*self)),
    {
        let mut fmt = AnsiFmt::new(String::new());
        let _ = fmt.escape();
        let _ = match self {
            Color::FBlack => fmt.write_code(30),
            Color::FRed => fmt.write_code(31),
            Color::FGreen => fmt.write_code(32),
            Color::FYellow => fmt.write_code(33),
            Color::FBlue => fmt.write_code(34),
            Color::FMagenta => fmt.write_code(35),
            Color::FCyan => fmt.write_code(36),
            Color::FWhite => fmt.write_code(37),
            Color::FEightBit(n) => fmt.write_all(&[38, 2, *n]),
            Color::Frgb(r, g, b) => fmt.write_all(&[38, 5, *r, *g, *b]),
            Color::FDefault => fmt.write_code(39),
            Color::BBlack => fmt.write_code(40),
            Color::BRed => fmt.write_code(41),
            Color::BGreen => fmt.write_code(42),
            Color::BYellow => fmt.write_code(43),
            Color::BBlue => fmt.write_code(44),
            Color::BMagenta => fmt.write_code(45),
            Color::BCyan => fmt.write_code(46),
            Color::BWhite => fmt.write_code(47),
            Color::BEightBit(n) => fmt.write_all(&[48, 2, *n]),
            Color::Brgb(r, g, b) => fmt.write_all(&[48, 5, *r, *g, *b]),
            Color::BDefault => fmt.write_code(49),
        };
        let _ = fmt.end();
        let r = fmt.into_inner();
        assert(r@ =~= render_codes(ansi_color_codes(*self)));
        r
    }
}

} // verus!
