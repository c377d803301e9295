//! Styles and colors that chain into an [`AnsiString`] and display
//! themselves as complete sequences.
use vstd::prelude::*;
use vstd::string::*;

use crate::ansi::graphics::{
    ansi_text, empty_graphics, graphics_place_codes, AnsiString, AnsiStringView, ColorKind,
    GraphicsView, StyleKind,
};
use crate::ansi::writer::{Ansi, AnsiFmt, AnsiWriter};
use crate::text::{codes_text, render_codes};

verus! {

/// A style code.
#[derive(Debug, Clone, Copy, PartialEq, Eq, Structural)]
pub enum Style {
    Reset,
    Bold,
    Dim,
    Italic,
    Underline,
    Blinking,
    Inverse,
    Hidden,
    Strikethrough,
    ClearBold,
    ClearDim,
    ClearItalic,
    ClearUnderline,
    ClearBlinking,
    ClearInverse,
    ClearHidden,
    ClearStrikethrough,
}

/// The code of a style.
pub open spec fn display_style_code(s: Style) -> u8 {
    match s {
        Style::Reset => 0,
        Style::Bold => 1,
        Style::Dim => 2,
        Style::Italic => 3,
        Style::Underline => 4,
        Style::Blinking => 5,
        Style::Inverse => 7,
        Style::Hidden => 8,
        Style::Strikethrough => 9,
        Style::ClearBold => 22,
        Style::ClearDim => 22,
        Style::ClearItalic => 23,
        Style::ClearUnderline => 24,
        Style::ClearBlinking => 25,
        Style::ClearInverse => 27,
        Style::ClearHidden => 28,
        Style::ClearStrikethrough => 29,
    }
}

/// A color code, for the foreground (`Fg`) or the background (`Bg`).
#[derive(Debug, Clone, Copy, PartialEq, Eq, Structural)]
pub enum Color {
    FgBlack,
    FgRed,
    FgGreen,
    FgYellow,
    FgBlue,
    FgMagenta,
    FgCyan,
    FgWhite,
    FgEightBit(u8),
    FgRgb(u8, u8, u8),
    FgDefault,
    BgBlack,
    BgRed,
    BgGreen,
    BgYellow,
    BgBlue,
    BgMagenta,
    BgCyan,
    BgWhite,
    BgEightBit(u8),
    BgRgb(u8, u8, u8),
    BgDefault,
}

/// The codes of a color.
pub open spec fn display_color_codes(c: Color) -> Seq<u8> {
    match c {
        Color::FgBlack => seq![30],
        Color::FgRed => seq![31],
        Color::FgGreen => seq![32],
        Color::FgYellow => seq![33],
        Color::FgBlue => seq![34],
        Color::FgMagenta => seq![35],
        Color::FgCyan => seq![36],
        Color::FgWhite => seq![37],
        Color::FgEightBit(n) => seq![38, 2, n],
        Color::FgRgb(r, g, b) => seq![38, 5, r, g, b],
        Color::FgDefault => seq![39],
        Color::BgBlack => seq![40],
        Color::BgRed => seq![41],
        Color::BgGreen => seq![42],
        Color::BgYellow => seq![43],
        Color::BgBlue => seq![44],
        Color::BgMagenta => seq![45],
        Color::BgCyan => seq![46],
        Color::BgWhite => seq![47],
        Color::BgEightBit(n) => seq![48, 2, n],
        Color::BgRgb(r, g, b) => seq![48, 5, r, g, b],
        Color::BgDefault => seq![49],
    }
}

/// Graphics with a style set: placed, or cleared for the `Clear` styles.
pub open spec fn set_style(g: GraphicsView, s: Style) -> GraphicsView {
    match s {
        Style::Reset => GraphicsView { reset: StyleKind::Place, ..g },
        Style::Bold => GraphicsView { bold: StyleKind::Place, ..g },
        Style::Dim => GraphicsView { dim: StyleKind::Place, ..g },
        Style::Italic => GraphicsView { italic: StyleKind::Place, ..g },
        Style::Underline => GraphicsView { underline: StyleKind::Place, ..g },
        Style::Blinking => GraphicsView { blinking: StyleKind::Place, ..g },
        Style::Inverse => GraphicsView { inverse: StyleKind::Place, ..g },
        Style::Hidden => GraphicsView { hidden: StyleKind::Place, ..g },
        Style::Strikethrough => GraphicsView { strikethrough: StyleKind::Place, ..g },
        Style::ClearBold => GraphicsView { bold: StyleKind::Clear, ..g },
        Style::ClearDim => GraphicsView { dim: StyleKind::Clear, ..g },
        Style::ClearItalic => GraphicsView { italic: StyleKind::Clear, ..g },
        Style::ClearUnderline => GraphicsView { underline: StyleKind::Clear, ..g },
        Style::ClearBlinking => GraphicsView { blinking: StyleKind::Clear, ..g },
        Style::ClearInverse => GraphicsView { inverse: StyleKind::Clear, ..g },
        Style::ClearHidden => GraphicsView { hidden: StyleKind::Clear, ..g },
        Style::ClearStrikethrough => GraphicsView { strikethrough: StyleKind::Clear, ..g },
    }
}

/// Graphics with a color set.
pub open spec fn set_color(g: GraphicsView, c: Color) -> GraphicsView {
    match c {
        Color::FgBlack => GraphicsView { foreground: Some(ColorKind::Black), ..g },
        Color::FgRed => GraphicsView { foreground: Some(ColorKind::Red), ..g },
        Color::FgGreen => GraphicsView { foreground: Some(ColorKind::Green), ..g },
        Color::FgYellow => GraphicsView { foreground: Some(ColorKind::Yellow), ..g },
        Color::FgBlue => GraphicsView { foreground: Some(ColorKind::Blue), ..g },
        Color::FgMagenta => GraphicsView { foreground: Some(ColorKind::Magenta), ..g },
        Color::FgCyan => GraphicsView { foreground: Some(ColorKind::Cyan), ..g },
        Color::FgWhite => GraphicsView { foreground: Some(ColorKind::White), ..g },
        Color::FgEightBit(n) => GraphicsView { foreground: Some(ColorKind::EightBit(n)), ..g },
        Color::FgRgb(r, gr, b) => GraphicsView { foreground: Some(ColorKind::Rgb(r, gr, b)), ..g },
        Color::FgDefault => GraphicsView { foreground: Some(ColorKind::Default), ..g },
        Color::BgBlack => GraphicsView { background: Some(ColorKind::Black), ..g },
        Color::BgRed => GraphicsView { background: Some(ColorKind::Red), ..g },
        Color::BgGreen => GraphicsView { background: Some(ColorKind::Green), ..g },
        Color::BgYellow => GraphicsView { background: Some(ColorKind::Yellow), ..g },
        Color::BgBlue => GraphicsView { background: Some(ColorKind::Blue), ..g },
        Color::BgMagenta => GraphicsView { background: Some(ColorKind::Magenta), ..g },
        Color::BgCyan => GraphicsView { background: Some(ColorKind::Cyan), ..g },
        Color::BgWhite => GraphicsView { background: Some(ColorKind::White), ..g },
        Color::BgEightBit(n) => GraphicsView { background: Some(ColorKind::EightBit(n)), ..g },
        Color::BgRgb(r, gr, b) => GraphicsView { background: Some(ColorKind::Rgb(r, gr, b)), ..g },
        Color::BgDefault => GraphicsView { background: Some(ColorKind::Default), ..g },
    }
}

fn set_style_of(a: &mut AnsiString, style: Style)
    ensures
        final(a)@ == (AnsiStringView { graphics: set_style(old(a)@.graphics, style), ..old(a)@ }),
{
    match style {
        Style::Reset => a.graphics.reset = StyleKind::Place,
        Style::Bold => a.graphics.bold = StyleKind::Place,
        Style::Dim => a.graphics.dim = StyleKind::Place,
        Style::Italic => a.graphics.italic = StyleKind::Place,
        Style::Underline => a.graphics.underline = StyleKind::Place,
        Style::Blinking => a.graphics.blinking = StyleKind::Place,
        Style::Inverse => a.graphics.inverse = StyleKind::Place,
        Style::Hidden => a.graphics.hidden = StyleKind::Place,
        Style::Strikethrough => a.graphics.strikethrough = StyleKind::Place,
        Style::ClearBold => a.graphics.bold = StyleKind::Clear,
        Style::ClearDim => a.graphics.dim = StyleKind::Clear,
        Style::ClearItalic => a.graphics.italic = StyleKind::Clear,
        Style::ClearUnderline => a.graphics.underline = StyleKind::Clear,
        Style::ClearBlinking => a.graphics.blinking = StyleKind::Clear,
        Style::ClearInverse => a.graphics.inverse = StyleKind::Clear,
        Style::ClearHidden => a.graphics.hidden = StyleKind::Clear,
        Style::ClearStrikethrough => a.graphics.strikethrough = StyleKind::Clear,
    }
}

fn set_color_of(a: &mut AnsiString, color: Color)
    ensures
        final(a)@ == (AnsiStringView { graphics: set_color(old(a)@.graphics, color), ..old(a)@ }),
{
    match color {
        Color::FgBlack => a.graphics.foreground = Some(ColorKind::Black),
        Color::FgRed => a.graphics.foreground = Some(ColorKind::Red),
        Color::FgGreen => a.graphics.foreground = Some(ColorKind::Green),
        Color::FgYellow => a.graphics.foreground = Some(ColorKind::Yellow),
        Color::FgBlue => a.graphics.foreground = Some(ColorKind::Blue),
        Color::FgMagenta => a.graphics.foreground = Some(ColorKind::Magenta),
        Color::FgCyan => a.graphics.foreground = Some(ColorKind::Cyan),
        Color::FgWhite => a.graphics.foreground = Some(ColorKind::White),
        Color::FgEightBit(n) => a.graphics.foreground = Some(ColorKind::EightBit(n)),
        Color::FgRgb(r, g, b) => a.graphics.foreground = Some(ColorKind::Rgb(r, g, b)),
        Color::FgDefault => a.graphics.foreground = Some(ColorKind::Default),
        Color::BgBlack => a.graphics.background = Some(ColorKind::Black),
        Color::BgRed => a.graphics.background = Some(ColorKind::Red),
        Color::BgGreen => a.graphics.background = Some(ColorKind::Green),
        Color::BgYellow => a.graphics.background = Some(ColorKind::Yellow),
        Color::BgBlue => a.graphics.background = Some(ColorKind::Blue),
        Color::BgMagenta => a.graphics.background = Some(ColorKind::Magenta),
        Color::BgCyan => a.graphics.background = Some(ColorKind::Cyan),
        Color::BgWhite => a.graphics.background = Some(ColorKind::White),
        Color::BgEightBit(n) => a.graphics.background = Some(ColorKind::EightBit(n)),
        Color::BgRgb(r, g, b) => a.graphics.background = Some(ColorKind::Rgb(r, g, b)),
        Color::BgDefault => a.graphics.background = Some(ColorKind::Default),
    }
}

/// Values that chain into an [`AnsiString`] and display themselves inline.
pub trait InlineAnsi: Sized {
    /// The [`AnsiString`] that the value stands for.
    spec fn ansi_of(&self) -> AnsiStringView;

    /// What [`InlineAnsi::write`] writes after a writer whose next code is `first`.
    spec fn written(&self, first: bool) -> Seq<char>;

    /// What [`InlineAnsi::standard_display`] gives.
    spec fn displayed(&self) -> Seq<char>;

    /// Turns the value into an [`AnsiString`].
    fn to_ansi(self) -> (r: AnsiString)
        ensures
            r@ == self.ansi_of(),
    ;

    /// Sets the text.
    fn text(self, text: &str) -> (r: AnsiString)
        ensures
            r@ == (AnsiStringView { text: text@, ..self.ansi_of() }),
    {
        let mut this = self.to_ansi();
        this.text = text.to_owned();
        this
    }

    /// Sets a style.
    fn style(self, style: Style) -> (r: AnsiString)
        ensures
            r@ == (AnsiStringView { graphics: set_style(self.ansi_of().graphics, style), ..self.ansi_of() }),
    {
        let mut this = self.to_ansi();
        set_style_of(&mut this, style);
        this
    }

    /// Sets a color.
    fn color(self, color: Color) -> (r: AnsiString)
        ensures
            r@ == (AnsiStringView { graphics: set_color(self.ansi_of().graphics, color), ..self.ansi_of() }),
    {
        let mut this = self.to_ansi();
        set_color_of(&mut this, color);
        this
    }

    /// Adds a custom code to place.
    fn custom(self, code: u8) -> (r: AnsiString)
        ensures
            r@ == (AnsiStringView {
                graphics: GraphicsView {
                    custom_places: self.ansi_of().graphics.custom_places.push(code),
                    ..self.ansi_of().graphics
                },
                ..self.ansi_of()
            }),
    {
        let mut this = self.to_ansi();
        this.graphics.custom_places.push(code);
        this
    }

    /// Writes the codes of the value.
    fn write<W: AnsiWriter>(&self, writer: &mut W) -> (r: Result<(), W::Error>)
        ensures
            W::infallible() ==> r is Ok,
            r is Ok ==> final(writer).out() == old(writer).out() + self.written(old(writer).first()),
    ;

    /// The value as its `Display` writes it.
    fn standard_display(&self) -> (r: String)
        ensures
            r@ == self.displayed(),
    ;
}

impl InlineAnsi for AnsiString {
    open spec fn ansi_of(&self) -> AnsiStringView {
        self@
    }

    open spec fn written(&self, first: bool) -> Seq<char> {
        codes_text(first, graphics_place_codes(self@.graphics))
    }

    open spec fn displayed(&self) -> Seq<char> {
        ansi_text(self@)
    }

    fn to_ansi(self) -> (r: AnsiString) {
        self
    }

    /// Writes the codes placed before the text.
    fn write<W: AnsiWriter>(&self, writer: &mut W) -> (r: Result<(), W::Error>) {
        self.graphics.place_ansi(writer)
    }

    /// The placed codes, the text and the cleared codes.
    fn standard_display(&self) -> (r: String) {
        self.to_string()
    }
}

impl InlineAnsi for Style {
    open spec fn ansi_of(&self) -> AnsiStringView {
        AnsiStringView { text: seq![], graphics: set_style(empty_graphics(), *self) }
    }

    open spec fn written(&self, first: bool) -> Seq<char> {
        codes_text(first, seq![display_style_code(*self)])
    }

    open spec fn displayed(&self) -> Seq<char> {
        render_codes(seq![display_style_code(*self)])
    }

    fn to_ansi(self) -> (r: AnsiString) {
        let mut a = AnsiString::new();
        set_style_of(&mut a, self);
        a
    }

    fn write<W: AnsiWriter>(&self, writer: &mut W) -> (r: Result<(), W::Error>) {
        writer.write_code(
            match self {
                Style::Reset => 0,
                Style::Bold => 1,
                Style::Dim => 2,
                Style::Italic => 3,
                Style::Underline => 4,
                Style::Blinking => 5,
                Style::Inverse => 7,
                Style::Hidden => 8,
                Style::Strikethrough => 9,
                Style::ClearBold | Style::ClearDim => 22,
                Style::ClearItalic => 23,
                Style::ClearUnderline => 24,
                Style::ClearBlinking => 25,
                Style::ClearInverse => 27,
                Style::ClearHidden => 28,
                Style::ClearStrikethrough => 29,
            },
        )
    }

    /// The escape, the code and the end.
    fn standard_display(&self) -> (r: String) {
        let mut fmt = AnsiFmt::new(String::new());
        let _ = fmt.escape();
        let _ = self.write(&mut fmt);
        let _ = fmt.end();
        let r = fmt.into_inner();
        assert(r@ =~= self.displayed());
        r
    }
}

impl InlineAnsi for Color {
    open spec fn ansi_of(&self) -> AnsiStringView {
        AnsiStringView { text: seq![], graphics: set_color(empty_graphics(), *self) }
    }

    open spec fn written(&self, first: bool) -> Seq<char> {
        codes_text(first, display_color_codes(*self))
    }

    open spec fn displayed(&self) -> Seq<char> {
        render_codes(display_color_codes(*self))
    }

    fn to_ansi(self) -> (r: AnsiString) {
        let mut a = AnsiString::new();
        set_color_of(&mut a, self);
        a
    }

    fn write<W: AnsiWriter>(&self, writer: &mut W) -> (r: Result<(), W::Error>) {
        match self {
            Color::FgBlack => writer.write_code(30),
            Color::FgRed => writer.write_code(31),
            Color::FgGreen => writer.write_code(32),
            Color::FgYellow => writer.write_code(33),
            Color::FgBlue => writer.write_code(34),
            Color::FgMagenta => writer.write_code(35),
            Color::FgCyan => writer.write_code(36),
            Color::FgWhite => writer.write_code(37),
            Color::FgEightBit(n) => writer.write_all(&[38, 2, *n]),
            Color::FgRgb(r, g, b) => writer.write_all(&[38, 5, *r, *g, *b]),
            Color::FgDefault => writer.write_code(39),
            Color::BgBlack => writer.write_code(40),
            Color::BgRed => writer.write_code(41),
            Color::BgGreen => writer.write_code(42),
            Color::BgYellow => writer.write_code(43),
            Color::BgBlue => writer.write_code(44),
            Color::BgMagenta => writer.write_code(45),
            Color::BgCyan => writer.write_code(46),
            Color::BgWhite => writer.write_code(47),
            Color::BgEightBit(n) => writer.write_all(&[48, 2, *n]),
            Color::BgRgb(r, g, b) => writer.write_all(&[48, 5, *r, *g, *b]),
            Color::BgDefault => writer.write_code(49),
        }
    }

    /// The escape, the codes and the end.
    fn standard_display(&self) -> (r: String) {
        let mut fmt = AnsiFmt::new(String::new());
        let _ = fmt.escape();
        let _ = self.write(&mut fmt);
        let _ = fmt.end();
        let r = fmt.into_inner();
        assert(r@ =~= self.displayed());
        r
    }
}

} // verus!
