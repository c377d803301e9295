//! Styles and colors that are written inline and chained into [`Graphics`].
use vstd::prelude::*;

use super::graphics::{
    AnsiString, AnsiStringView, empty_graphics, graphics_clear_codes, graphics_place_codes, shifted, ColorKind, Graphics,
    GraphicsView, StyleKind,
};
use super::writer::{Ansi, AnsiFmt, AnsiWriter};
use crate::text::{codes_text, escape_chars, lemma_codes_text_concat, render_codes};

verus! {

/// A style code.
#[derive(Debug, Clone, Copy, PartialEq, Eq, Structural)]
pub enum Style {
    Reset,
    Bold,
    Dim,
    Italic,
    Underline,
    Blinking,
    Inverse,
    Hidden,
    Strikethrough,
    ClearBold,
    ClearDim,
    ClearItalic,
    ClearUnderline,
    ClearBlinking,
    ClearInverse,
    ClearHidden,
    ClearStrikethrough,
}

/// The code of a style.
pub open spec fn inline_style_code(s: Style) -> u8 {
    match s {
        Style::Reset => 0,
        Style::Bold => 1,
        Style::Dim => 2,
        Style::Italic => 3,
        Style::Underline => 4,
        Style::Blinking => 5,
        Style::Inverse => 7,
        Style::Hidden => 8,
        Style::Strikethrough => 9,
        Style::ClearBold => 22,
        Style::ClearDim => 22,
        Style::ClearItalic => 23,
        Style::ClearUnderline => 24,
        Style::ClearBlinking => 25,
        Style::ClearInverse => 27,
        Style::ClearHidden => 28,
        Style::ClearStrikethrough => 29,
    }
}

/// A color code, for the foreground (`F`) or the background (`B`).
#[derive(Debug, Clone, Copy, PartialEq, Eq, Structural)]
pub enum Color {
    FBlack,
    FRed,
    FGreen,
    FYellow,
    FBlue,
    FMagenta,
    FCyan,
    FWhite,
    FEightBit(u8),
    FRgb(u8, u8, u8),
    FDefault,
    BBlack,
    BRed,
    BGreen,
    BYellow,
    BBlue,
    BMagenta,
    BCyan,
    BWhite,
    BEightBit(u8),
    BRgb(u8, u8, u8),
    BDefault,
}

/// The codes of a color.
pub open spec fn inline_color_codes(c: Color) -> Seq<u8> {
    match c {
        Color::FBlack => seq![30],
        Color::FRed => seq![31],
        Color::FGreen => seq![32],
        Color::FYellow => seq![33],
        Color::FBlue => seq![34],
        Color::FMagenta => seq![35],
        Color::FCyan => seq![36],
        Color::FWhite => seq![37],
        Color::FEightBit(n) => seq![38, 2, n],
        Color::FRgb(r, g, b) => seq![38, 5, r, g, b],
        Color::FDefault => seq![39],
        Color::BBlack => seq![40],
        Color::BRed => seq![41],
        Color::BGreen => seq![42],
        Color::BYellow => seq![43],
        Color::BBlue => seq![44],
        Color::BMagenta => seq![45],
        Color::BCyan => seq![46],
        Color::BWhite => seq![47],
        Color::BEightBit(n) => seq![48, 2, n],
        Color::BRgb(r, g, b) => seq![48, 5, r, g, b],
        Color::BDefault => seq![49],
    }
}

/// Graphics with a style asked for: the style's kind is shifted by placing
/// it (or, for the `Clear` styles, by clearing it).
pub open spec fn style_graphics(g: GraphicsView, s: Style) -> GraphicsView {
    match s {
        Style::Reset => GraphicsView { reset: shifted(g.reset, StyleKind::Place), ..g },
        Style::Bold => GraphicsView { bold: shifted(g.bold, StyleKind::Place), ..g },
        Style::Dim => GraphicsView { dim: shifted(g.dim, StyleKind::Place), ..g },
        Style::Italic => GraphicsView { italic: shifted(g.italic, StyleKind::Place), ..g },
        Style::Underline => GraphicsView { underline: shifted(g.underline, StyleKind::Place), ..g },
        Style::Blinking => GraphicsView { blinking: shifted(g.blinking, StyleKind::Place), ..g },
        Style::Inverse => GraphicsView { inverse: shifted(g.inverse, StyleKind::Place), ..g },
        Style::Hidden => GraphicsView { hidden: shifted(g.hidden, StyleKind::Place), ..g },
        Style::Strikethrough => GraphicsView { strikethrough: shifted(g.strikethrough, StyleKind::Place), ..g },
        Style::ClearBold => GraphicsView { bold: shifted(g.bold, StyleKind::Clear), ..g },
        Style::ClearDim => GraphicsView { dim: shifted(g.dim, StyleKind::Clear), ..g },
        Style::ClearItalic => GraphicsView { italic: shifted(g.italic, StyleKind::Clear), ..g },
        Style::ClearUnderline => GraphicsView { underline: shifted(g.underline, StyleKind::Clear), ..g },
        Style::ClearBlinking => GraphicsView { blinking: shifted(g.blinking, StyleKind::Clear), ..g },
        Style::ClearInverse => GraphicsView { inverse: shifted(g.inverse, StyleKind::Clear), ..g },
        Style::ClearHidden => GraphicsView { hidden: shifted(g.hidden, StyleKind::Clear), ..g },
        Style::ClearStrikethrough => GraphicsView { strikethrough: shifted(g.strikethrough, StyleKind::Clear), ..g },
    }
}

/// Graphics with a color set, in the foreground or the background.
pub open spec fn color_graphics(g: GraphicsView, c: Color) -> GraphicsView {
    match c {
        Color::FBlack => GraphicsView { foreground: Some(ColorKind::Black), ..g },
        Color::FRed => GraphicsView { foreground: Some(ColorKind::Red), ..g },
        Color::FGreen => GraphicsView { foreground: Some(ColorKind::Green), ..g },
        Color::FYellow => GraphicsView { foreground: Some(ColorKind::Yellow), ..g },
        Color::FBlue => GraphicsView { foreground: Some(ColorKind::Blue), ..g },
        Color::FMagenta => GraphicsView { foreground: Some(ColorKind::Magenta), ..g },
        Color::FCyan => GraphicsView { foreground: Some(ColorKind::Cyan), ..g },
        Color::FWhite => GraphicsView { foreground: Some(ColorKind::White), ..g },
        Color::FEightBit(n) => GraphicsView { foreground: Some(ColorKind::EightBit(n)), ..g },
        Color::FRgb(r, gr, b) => GraphicsView { foreground: Some(ColorKind::Rgb(r, gr, b)), ..g },
        Color::FDefault => GraphicsView { foreground: Some(ColorKind::Default), ..g },
        Color::BBlack => GraphicsView { background: Some(ColorKind::Black), ..g },
        Color::BRed => GraphicsView { background: Some(ColorKind::Red), ..g },
        Color::BGreen => GraphicsView { background: Some(ColorKind::Green), ..g },
        Color::BYellow => GraphicsView { background: Some(ColorKind::Yellow), ..g },
        Color::BBlue => GraphicsView { background: Some(ColorKind::Blue), ..g },
        Color::BMagenta => GraphicsView { background: Some(ColorKind::Magenta), ..g },
        Color::BCyan => GraphicsView { background: Some(ColorKind::Cyan), ..g },
        Color::BWhite => GraphicsView { background: Some(ColorKind::White), ..g },
        Color::BEightBit(n) => GraphicsView { background: Some(ColorKind::EightBit(n)), ..g },
        Color::BRgb(r, gr, b) => GraphicsView { background: Some(ColorKind::Rgb(r, gr, b)), ..g },
        Color::BDefault => GraphicsView { background: Some(ColorKind::Default), ..g },
    }
}

/// Values that are displayed inline and chain into [`Graphics`].
pub trait DisplayedAnsi: Sized {
    /// The graphics that the value stands for.
    spec fn graphics_of(&self) -> GraphicsView;

    /// What [`DisplayedAnsi::write`] writes after a writer in the given state.
    spec fn written(&self, first: bool, escape_starts_list: bool) -> Seq<char>;

    /// The graphics of `self` with a style asked for.
    fn style(self, style: Style) -> (r: Graphics)
        ensures
            r@ == style_graphics(self.graphics_of(), style),
    ;

    /// The graphics of `self` with a color set.
    fn color(self, color: Color) -> (r: Graphics)
        ensures
            r@ == color_graphics(self.graphics_of(), color),
    ;

    /// The graphics of `self` with a custom code to place.
    fn custom_place(self, code: u8) -> (r: Graphics)
        ensures
            r@ == (GraphicsView { custom_places: self.graphics_of().custom_places.push(code), ..self.graphics_of() }),
    ;

    /// The graphics of `self` with a custom code to clear.
    fn custom_clear(self, code: u8) -> (r: Graphics)
        ensures
            r@ == (GraphicsView { custom_clears: self.graphics_of().custom_clears.push(code), ..self.graphics_of() }),
    ;

    /// Writes the value to the writer.
    fn write<W: AnsiWriter>(&self, writer: &mut W) -> (r: Result<(), W::Error>)
        ensures
            W::infallible() ==> r is Ok,
            r is Ok ==> final(writer).out() == old(writer).out() + self.written(old(writer).first(), W::escape_starts_list()),
    ;
}

impl Graphics {
    fn apply_style(&mut self, style: Style)
        ensures
            final(self)@ == style_graphics(old(self)@, style),
    {
        match style {
            Style::Reset => self.reset = self.reset.shift(StyleKind::Place),
            Style::Bold => self.bold = self.bold.shift(StyleKind::Place),
            Style::Dim => self.dim = self.dim.shift(StyleKind::Place),
            Style::Italic => self.italic = self.italic.shift(StyleKind::Place),
            Style::Underline => self.underline = self.underline.shift(StyleKind::Place),
            Style::Blinking => self.blinking = self.blinking.shift(StyleKind::Place),
            Style::Inverse => self.inverse = self.inverse.shift(StyleKind::Place),
            Style::Hidden => self.hidden = self.hidden.shift(StyleKind::Place),
            Style::Strikethrough => self.strikethrough = self.strikethrough.shift(StyleKind::Place),
            Style::ClearBold => self.bold = self.bold.shift(StyleKind::Clear),
            Style::ClearDim => self.dim = self.dim.shift(StyleKind::Clear),
            Style::ClearItalic => self.italic = self.italic.shift(StyleKind::Clear),
            Style::ClearUnderline => self.underline = self.underline.shift(StyleKind::Clear),
            Style::ClearBlinking => self.blinking = self.blinking.shift(StyleKind::Clear),
            Style::ClearInverse => self.inverse = self.inverse.shift(StyleKind::Clear),
            Style::ClearHidden => self.hidden = self.hidden.shift(StyleKind::Clear),
            Style::ClearStrikethrough => self.strikethrough = self.strikethrough.shift(StyleKind::Clear),
        }
    }

    fn apply_color(&mut self, color: Color)
        ensures
            final(self)@ == color_graphics(old(self)@, color),
    {
        match color {
            Color::FBlack => self.foreground = Some(ColorKind::Black),
            Color::FRed => self.foreground = Some(ColorKind::Red),
            Color::FGreen => self.foreground = Some(ColorKind::Green),
            Color::FYellow => self.foreground = Some(ColorKind::Yellow),
            Color::FBlue => self.foreground = Some(ColorKind::Blue),
            Color::FMagenta => self.foreground = Some(ColorKind::Magenta),
            Color::FCyan => self.foreground = Some(ColorKind::Cyan),
            Color::FWhite => self.foreground = Some(ColorKind::White),
            Color::FEightBit(n) => self.foreground = Some(ColorKind::EightBit(n)),
            Color::FRgb(r, g, b) => self.foreground = Some(ColorKind::Rgb(r, g, b)),
            Color::FDefault => self.foreground = Some(ColorKind::Default),
            Color::BBlack => self.background = Some(ColorKind::Black),
            Color::BRed => self.background = Some(ColorKind::Red),
            Color::BGreen => self.background = Some(ColorKind::Green),
            Color::BYellow => self.background = Some(ColorKind::Yellow),
            Color::BBlue => self.background = Some(ColorKind::Blue),
            Color::BMagenta => self.background = Some(ColorKind::Magenta),
            Color::BCyan => self.background = Some(ColorKind::Cyan),
            Color::BWhite => self.background = Some(ColorKind::White),
            Color::BEightBit(n) => self.background = Some(ColorKind::EightBit(n)),
            Color::BRgb(r, g, b) => self.background = Some(ColorKind::Rgb(r, g, b)),
            Color::BDefault => self.background = Some(ColorKind::Default),
        }
    }

    /// The graphics as their `Display` writes them: nothing when there is
    /// nothing to place or clear, else one sequence of the placed codes and
    /// the cleared codes.
    pub fn to_string(&self) -> (r: String)
        ensures
            r@ == if super::graphics::graphics_no_clears(self@) && super::graphics::graphics_no_places(self@) {
                Seq::<char>::empty()
            } else {
                escape_chars() + codes_text(true, graphics_place_codes(self@) + graphics_clear_codes(self@)) + seq!['m']
            },
    {
        if self.no_clears() && self.no_places() {
            String::new()
        } else {
            let mut fmt = AnsiFmt::new(String::new());
            let _ = self.write(&mut fmt);
            let r = fmt.into_inner();
            assert(r@ =~= escape_chars() + codes_text(true, graphics_place_codes(self@) + graphics_clear_codes(self@)) + seq!['m']);
            r
        }
    }
}

impl DisplayedAnsi for Graphics {
    open spec fn graphics_of(&self) -> GraphicsView {
        self@
    }

    open spec fn written(&self, first: bool, escape_starts_list: bool) -> Seq<char> {
        escape_chars() + codes_text(first || escape_starts_list, graphics_place_codes(self@) + graphics_clear_codes(self@))
            + seq!['m']
    }

    fn style(self, style: Style) -> (r: Graphics) {
        let mut this = self;
        this.apply_style(style);
        this
    }

    fn color(self, color: Color) -> (r: Graphics) {
        let mut this = self;
        this.apply_color(color);
        this
    }

    fn custom_place(self, code: u8) -> (r: Graphics) {
        let mut this = self;
        this.custom_places.push(code);
        this
    }

    fn custom_clear(self, code: u8) -> (r: Graphics) {
        let mut this = self;
        this.custom_clears.push(code);
        this
    }

    /// Writes the escape, the placed codes, the cleared codes and the end.
    fn write<W: AnsiWriter>(&self, writer: &mut W) -> (r: Result<(), W::Error>) {
        let ghost s0 = writer.out();
        writer.escape()?;
        let ghost f = writer.first();
        let ghost s1 = writer.out();
        self.place_ansi(writer)?;
        let ghost s2 = writer.out();
        self.clear_ansi(writer)?;
        proof {
            lemma_codes_text_concat(f, graphics_place_codes(self@), graphics_clear_codes(self@));
        }
        let ghost s3 = writer.out();
        writer.end()?;
        assert(writer.out() =~= s0 + self.written(old(writer).first(), W::escape_starts_list()));
        Ok(())
    }
}

impl Style {
    /// The code of the style.
    pub fn code(&self) -> (r: u8)
        ensures
            r == inline_style_code(*self),
    {
        match self {
            Style::Reset => 0,
            Style::Bold => 1,
            Style::Dim => 2,
            Style::Italic => 3,
            Style::Underline => 4,
            Style::Blinking => 5,
            Style::Inverse => 7,
            Style::Hidden => 8,
            Style::Strikethrough => 9,
            Style::ClearBold | Style::ClearDim => 22,
            Style::ClearItalic => 23,
            Style::ClearUnderline => 24,
            Style::ClearBlinking => 25,
            Style::ClearInverse => 27,
            Style::ClearHidden => 28,
            Style::ClearStrikethrough => 29,
        }
    }

    /// The style's sequence as its `Display` writes it.
    pub fn to_string(&self) -> (r: String)
        ensures
            r@ == render_codes(seq![inline_style_code(*self)]),
    {
        let mut fmt = AnsiFmt::new(String::new());
        let _ = fmt.escape();
        let _ = self.write(&mut fmt);
        let _ = fmt.end();
        let r = fmt.into_inner();
        assert(r@ =~= render_codes(seq![inline_style_code(*self)]));
        r
    }
}

impl DisplayedAnsi for Style {
    open spec fn graphics_of(&self) -> GraphicsView {
        style_graphics(empty_graphics(), *self)
    }

    open spec fn written(&self, first: bool, escape_starts_list: bool) -> Seq<char> {
        codes_text(first, seq![inline_style_code(*self)])
    }

    fn style(self, style: Style) -> (r: Graphics) {
        Graphics::new().style(self).style(style)
    }

    fn color(self, color: Color) -> (r: Graphics) {
        Graphics::new().style(self).color(color)
    }

    fn custom_place(self, code: u8) -> (r: Graphics) {
        Graphics::new().style(self).custom_place(code)
    }

    fn custom_clear(self, code: u8) -> (r: Graphics) {
        Graphics::new().style(self).custom_clear(code)
    }

    /// Writes the style's code.
    fn write<W: AnsiWriter>(&self, writer: &mut W) -> (r: Result<(), W::Error>) {
        writer.write_code(self.code())
    }
}

impl Color {
    /// The color's sequence as its `Display` writes it.
    pub fn to_string(&self) -> (r: String)
        ensures
            r@ == render_codes(inline_color_codes(*self)),
    {
        let mut fmt = AnsiFmt::new(String::new());
        let _ = fmt.escape();
        let _ = self.write(&mut fmt);
        let _ = fmt.end();
        let r = fmt.into_inner();
        assert(r@ =~= render_codes(inline_color_codes(*self)));
        r
    }
}

impl DisplayedAnsi for Color {
    open spec fn graphics_of(&self) -> GraphicsView {
        color_graphics(empty_graphics(), *self)
    }

    open spec fn written(&self, first: bool, escape_starts_list: bool) -> Seq<char> {
        codes_text(first, inline_color_codes(*self))
    }

    fn style(self, style: Style) -> (r: Graphics) {
        Graphics::new().color(self).style(style)
    }

    fn color(self, color: Color) -> (r: Graphics) {
        Graphics::new().color(self).color(color)
    }

    fn custom_place(self, code: u8) -> (r: Graphics) {
        Graphics::new().color(self).custom_place(code)
    }

    fn custom_clear(self, code: u8) -> (r: Graphics) {
        Graphics::new().color(self).custom_clear(code)
    }

    /// Writes the color's codes.
    fn write<W: AnsiWriter>(&self, writer: &mut W) -> (r: Result<(), W::Error>) {
        match self {
            Color::FBlack => writer.write_code(30),
            Color::FRed => writer.write_code(31),
            Color::FGreen => writer.write_code(32),
            Color::FYellow => writer.write_code(33),
            Color::FBlue => writer.write_code(34),
            Color::FMagenta => writer.write_code(35),
            Color::FCyan => writer.write_code(36),
            Color::FWhite => writer.write_code(37),
            Color::FEightBit(n) => writer.write_all(&[38, 2, *n]),
            Color::FRgb(r, g, b) => writer.write_all(&[38, 5, *r, *g, *b]),
            Color::FDefault => writer.write_code(39),
            Color::BBlack => writer.write_code(40),
            Color::BRed => writer.write_code(41),
            Color::BGreen => writer.write_code(42),
            Color::BYellow => writer.write_code(43),
            Color::BBlue => writer.write_code(44),
            Color::BMagenta => writer.write_code(45),
            Color::BCyan => writer.write_code(46),
            Color::BWhite => writer.write_code(47),
            Color::BEightBit(n) => writer.write_all(&[48, 2, *n]),
            Color::BRgb(r, g, b) => writer.write_all(&[48, 5, *r, *g, *b]),
            Color::BDefault => writer.write_code(49),
        }
    }
}

impl AnsiString {
    /// Asks for a style in the graphics.
    pub fn style(self, style: Style) -> (r: Self)
        ensures
            r@ == (AnsiStringView { graphics: style_graphics(self@.graphics, style), ..self@ }),
    {
        let mut this = self;
        this.graphics.apply_style(style);
        this
    }

    /// Sets a color in the graphics.
    pub fn color(self, color: Color) -> (r: Self)
        ensures
            r@ == (AnsiStringView { graphics: color_graphics(self@.graphics, color), ..self@ }),
    {
        let mut this = self;
        this.graphics.apply_color(color);
        this
    }
}

} // verus!
