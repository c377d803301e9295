//! [`SGRString`], a string with SGR codes placed before and cleaned after
//! it, and [`EasySGR`] for chaining codes into one.
use vstd::prelude::*;
use vstd::string::*;

use crate::discrete::{Color, Style, style_code, color_codes};
use crate::text::{render, render_codes};
use crate::writing::SGRBuilder;

pub mod discrete;
pub mod display;
pub mod inline;
pub mod laws;

verus! {

/// Component of [`SGRString`]: what [`SGRString::clean_all`] writes.
#[derive(Debug, Clone, Copy, PartialEq, Eq, Structural)]
pub enum CleanKind {
    /// Writes only the custom clean codes
    Unset,
    /// Resets all by writing `\x1b[0m`
    Reset,
    /// Undoes the effects of [`SGRString::place_all`]
    Reverse,
}

impl Default for CleanKind {
    fn default() -> (r: Self)
        ensures
            r == CleanKind::Unset,
    {
        CleanKind::Unset
    }
}

/// Component of [`SGRString`]: what to do with a style.
#[derive(Debug, Clone, Copy, PartialEq, Eq, Structural)]
pub enum StyleKind {
    /// Do nothing
    Unset,
    /// Apply the style
    Place,
    /// Apply what undoes the style; the equivalent in [`Style`] are the
    /// variants prefixed with `Not`
    Clean,
}

impl Default for StyleKind {
    fn default() -> (r: Self)
        ensures
            r == StyleKind::Unset,
    {
        StyleKind::Unset
    }
}

/// Component of [`SGRString`]: a foreground or background color.
#[derive(Debug, Clone, Copy, PartialEq, Eq, Structural)]
pub enum ColorKind {
    /// Does nothing; not to be confused with [`ColorKind::Default`]
    Unset,
    Black,
    Red,
    Green,
    Yellow,
    Blue,
    Magenta,
    Cyan,
    White,
    Byte(u8),
    Rgb(u8, u8, u8),
    /// Applies the default SGR color
    Default,
}

impl Default for ColorKind {
    fn default() -> (r: Self)
        ensures
            r == ColorKind::Unset,
    {
        ColorKind::Unset
    }
}

/// A String with SGR codes applied when it is written: the codes of its
/// colors, styles and custom places before the text, and the codes of its
/// clean after it.
#[derive(Debug)]
pub struct SGRString {
    /// The actual text
    pub text: String,
    /// The type of clean to apply when [`SGRString::clean_all`] is called
    pub clean: CleanKind,
    /// Custom codes written before the text
    pub custom_places: Vec<u8>,
    /// Custom codes written after the text
    pub custom_cleans: Vec<u8>,
    /// The color of the foreground
    pub foreground: ColorKind,
    /// The color of the background
    pub background: ColorKind,
    /// Whether the reset code `0` is placed first
    pub reset: bool,
    /// Refer to [`StyleKind`]
    pub bold: StyleKind,
    /// Refer to [`StyleKind`]
    pub dim: StyleKind,
    /// Refer to [`StyleKind`]
    pub italic: StyleKind,
    /// Refer to [`StyleKind`]
    pub underline: StyleKind,
    /// Refer to [`StyleKind`]
    pub blinking: StyleKind,
    /// Refer to [`StyleKind`]
    pub inverse: StyleKind,
    /// Refer to [`StyleKind`]
    pub hidden: StyleKind,
    /// Refer to [`StyleKind`]
    pub strikethrough: StyleKind,
}

/// The value of an [`SGRString`], with its text and codes as sequences.
pub struct SGRStringView {
    pub text: Seq<char>,
    pub clean: CleanKind,
    pub custom_places: Seq<u8>,
    pub custom_cleans: Seq<u8>,
    pub foreground: ColorKind,
    pub background: ColorKind,
    pub reset: bool,
    pub bold: StyleKind,
    pub dim: StyleKind,
    pub italic: StyleKind,
    pub underline: StyleKind,
    pub blinking: StyleKind,
    pub inverse: StyleKind,
    pub hidden: StyleKind,
    pub strikethrough: StyleKind,
}

impl View for SGRString {
    type V = SGRStringView;

    open spec fn view(&self) -> SGRStringView {
        SGRStringView {
            text: self.text@,
            clean: self.clean,
            custom_places: self.custom_places@,
            custom_cleans: self.custom_cleans@,
            foreground: self.foreground,
            background: self.background,
            reset: self.reset,
            bold: self.bold,
            dim: self.dim,
            italic: self.italic,
            underline: self.underline,
            blinking: self.blinking,
            inverse: self.inverse,
            hidden: self.hidden,
            strikethrough: self.strikethrough,
        }
    }
}

/// The empty [`SGRString`]: no text, no codes.
pub open spec fn default_view() -> SGRStringView {
    SGRStringView {
        text: seq![],
        clean: CleanKind::Unset,
        custom_places: seq![],
        custom_cleans: seq![],
        foreground: ColorKind::Unset,
        background: ColorKind::Unset,
        reset: false,
        bold: StyleKind::Unset,
        dim: StyleKind::Unset,
        italic: StyleKind::Unset,
        underline: StyleKind::Unset,
        blinking: StyleKind::Unset,
        inverse: StyleKind::Unset,
        hidden: StyleKind::Unset,
        strikethrough: StyleKind::Unset,
    }
}

/// An [`SGRString`] of the text alone.
pub open spec fn text_view(text: Seq<char>) -> SGRStringView {
    SGRStringView { text, ..default_view() }
}

/// The codes of a foreground color.
pub open spec fn foreground_codes(c: ColorKind) -> Seq<u8> {
    match c {
        ColorKind::Unset => seq![],
        ColorKind::Black => seq![30],
        ColorKind::Red => seq![31],
        ColorKind::Green => seq![32],
        ColorKind::Yellow => seq![33],
        ColorKind::Blue => seq![34],
        ColorKind::Magenta => seq![35],
        ColorKind::Cyan => seq![36],
        ColorKind::White => seq![37],
        ColorKind::Byte(n) => seq![38, 2, n],
        ColorKind::Rgb(r, g, b) => seq![38, 5, r, g, b],
        ColorKind::Default => seq![39],
    }
}

/// The codes of a background color.
pub open spec fn background_codes(c: ColorKind) -> Seq<u8> {
    match c {
        ColorKind::Unset => seq![],
        ColorKind::Black => seq![40],
        ColorKind::Red => seq![41],
        ColorKind::Green => seq![42],
        ColorKind::Yellow => seq![43],
        ColorKind::Blue => seq![44],
        ColorKind::Magenta => seq![45],
        ColorKind::Cyan => seq![46],
        ColorKind::White => seq![47],
        ColorKind::Byte(n) => seq![48, 2, n],
        ColorKind::Rgb(r, g, b) => seq![48, 5, r, g, b],
        ColorKind::Default => seq![49],
    }
}

/// The code a style kind writes: `place` to apply, `not` to undo.
pub open spec fn kind_codes(k: StyleKind, place: u8, not: u8) -> Seq<u8> {
    match k {
        StyleKind::Unset => seq![],
        StyleKind::Place => seq![place],
        StyleKind::Clean => seq![not],
    }
}

/// The codes that style kinds write, in order; each entry is a kind with
/// its code to apply and its code to undo.
pub open spec fn kinds_codes(entries: Seq<(StyleKind, u8, u8)>) -> Seq<u8>
    decreases entries.len(),
{
    if entries.len() == 0 {
        seq![]
    } else {
        let e = entries.last();
        kinds_codes(entries.drop_last()) + kind_codes(e.0, e.1, e.2)
    }
}

/// The styles of `v` with the codes that place them.
pub open spec fn place_entries(v: SGRStringView) -> Seq<(StyleKind, u8, u8)> {
    seq![
        (v.bold, 1u8, 22u8),
        (v.dim, 2u8, 22u8),
        (v.italic, 3u8, 23u8),
        (v.underline, 4u8, 24u8),
        (v.blinking, 5u8, 25u8),
        (v.inverse, 7u8, 27u8),
        (v.hidden, 8u8, 28u8),
        (v.strikethrough, 9u8, 29u8),
    ]
}

/// The styles of `v` with the codes that reverse their placing.
pub open spec fn clean_entries(v: SGRStringView) -> Seq<(StyleKind, u8, u8)> {
    seq![
        (v.bold, 22u8, 1u8),
        (v.dim, 22u8, 2u8),
        (v.italic, 23u8, 3u8),
        (v.underline, 24u8, 4u8),
        (v.blinking, 25u8, 5u8),
        (v.inverse, 27u8, 7u8),
        (v.hidden, 28u8, 8u8),
        (v.strikethrough, 29u8, 9u8),
    ]
}

/// The style codes placed before the text.
pub open spec fn place_style_codes(v: SGRStringView) -> Seq<u8> {
    kinds_codes(place_entries(v))
}

/// The style codes written after the text to reverse the placed ones.
pub open spec fn clean_style_codes(v: SGRStringView) -> Seq<u8> {
    kinds_codes(clean_entries(v))
}

/// The color codes written after the text to reverse the placed ones.
pub open spec fn clean_color_codes(v: SGRStringView) -> Seq<u8> {
    (if v.foreground != ColorKind::Unset { seq![39u8] } else { seq![] })
        + (if v.background != ColorKind::Unset { seq![49u8] } else { seq![] })
}

/// All codes placed before the text: reset, colors, styles and custom places.
pub open spec fn place_view_codes(v: SGRStringView) -> Seq<u8> {
    (if v.reset { seq![0u8] } else { seq![] }) + foreground_codes(v.foreground)
        + background_codes(v.background) + place_style_codes(v) + v.custom_places
}

/// All codes written after the text, as the clean kind says.
pub open spec fn clean_view_codes(v: SGRStringView) -> Seq<u8> {
    match v.clean {
        CleanKind::Reset => seq![0u8],
        CleanKind::Reverse => clean_color_codes(v) + clean_style_codes(v) + v.custom_cleans,
        CleanKind::Unset => v.custom_cleans,
    }
}

/// The text of an [`SGRString`] as its `Display` writes it.
pub open spec fn sgr_text(v: SGRStringView) -> Seq<char> {
    render_codes(place_view_codes(v)) + v.text + render_codes(clean_view_codes(v))
}

fn write_kind(builder: &mut SGRBuilder, k: StyleKind, place: u8, not: u8)
    ensures
        final(builder)@ == old(builder)@ + kind_codes(k, place, not),
{
    match k {
        StyleKind::Unset => {},
        StyleKind::Place => builder.write_code(place),
        StyleKind::Clean => builder.write_code(not),
    }
    assert(final(builder)@ =~= old(builder)@ + kind_codes(k, place, not));
}

/// Adds the codes of the style kinds, in order.
fn write_kinds(builder: &mut SGRBuilder, entries: &[(StyleKind, u8, u8)])
    ensures
        final(builder)@ == old(builder)@ + kinds_codes(entries@),
{
    let ghost start = builder@;
    let mut i: usize = 0;
    while i < entries.len()
        invariant
            i <= entries.len(),
            builder@ == start + kinds_codes(entries@.take(i as int)),
        decreases entries.len() - i,
    {
        let (k, place, not) = entries[i];
        write_kind(builder, k, place, not);
        assert(entries@.take(i + 1).drop_last() =~= entries@.take(i as int));
        i = i + 1;
        assert(builder@ =~= start + kinds_codes(entries@.take(i as int)));
    }
    assert(entries@.take(entries.len() as int) =~= entries@);
}

impl SGRString {
    /// The codes placed before the text.
    pub open spec fn place_codes(&self) -> Seq<u8> {
        place_view_codes(self@)
    }

    /// The codes written after the text.
    pub open spec fn clean_codes(&self) -> Seq<u8> {
        clean_view_codes(self@)
    }

    /// Adds all codes to place to the builder: the reset (if set), the colors,
    /// the styles and the custom places. Does not perform any IO.
    pub fn place_all(&self, builder: &mut SGRBuilder)
        ensures
            final(builder)@ == old(builder)@ + self.place_codes(),
    {
        if self.reset {
            builder.write_code(0);
        }
        self.place_colors(builder);
        self.place_styles(builder);
        self.place_custom(builder);
        assert(final(builder)@ =~= old(builder)@ + self.place_codes());
    }

    /// Adds the codes of the colors to the builder.
    pub fn place_colors(&self, builder: &mut SGRBuilder)
        ensures
            final(builder)@ == old(builder)@ + foreground_codes(self.foreground) + background_codes(self.background),
    {
        let ghost start = builder@;
        match self.foreground {
            ColorKind::Black => builder.write_code(30),
            ColorKind::Red => builder.write_code(31),
            ColorKind::Green => builder.write_code(32),
            ColorKind::Yellow => builder.write_code(33),
            ColorKind::Blue => builder.write_code(34),
            ColorKind::Magenta => builder.write_code(35),
            ColorKind::Cyan => builder.write_code(36),
            ColorKind::White => builder.write_code(37),
            ColorKind::Byte(n) => builder.write_codes(&[38, 2, n]),
            ColorKind::Rgb(r, g, b) => builder.write_codes(&[38, 5, r, g, b]),
            ColorKind::Default => builder.write_code(39),
            ColorKind::Unset => {},
        }
        assert(builder@ =~= start + foreground_codes(self.foreground));
        let ghost mid = builder@;
        match self.background {
            ColorKind::Black => builder.write_code(40),
            ColorKind::Red => builder.write_code(41),
            ColorKind::Green => builder.write_code(42),
            ColorKind::Yellow => builder.write_code(43),
            ColorKind::Blue => builder.write_code(44),
            ColorKind::Magenta => builder.write_code(45),
            ColorKind::Cyan => builder.write_code(46),
            ColorKind::White => builder.write_code(47),
            ColorKind::Byte(n) => builder.write_codes(&[48, 2, n]),
            ColorKind::Rgb(r, g, b) => builder.write_codes(&[48, 5, r, g, b]),
            ColorKind::Default => builder.write_code(49),
            ColorKind::Unset => {},
        }
        assert(builder@ =~= mid + background_codes(self.background));
    }

    /// Adds the codes of the styles to the builder.
    pub fn place_styles(&self, builder: &mut SGRBuilder)
        ensures
            final(builder)@ == old(builder)@ + place_style_codes(self@),
    {
        let entries = [
            (self.bold, 1u8, 22u8),
            (self.dim, 2u8, 22u8),
            (self.italic, 3u8, 23u8),
            (self.underline, 4u8, 24u8),
            (self.blinking, 5u8, 25u8),
            (self.inverse, 7u8, 27u8),
            (self.hidden, 8u8, 28u8),
            (self.strikethrough, 9u8, 29u8),
        ];
        assert(entries@ =~= place_entries(self@));
        write_kinds(builder, &entries);
    }

    /// Adds the custom codes to place to the builder.
    pub fn place_custom(&self, builder: &mut SGRBuilder)
        ensures
            final(builder)@ == old(builder)@ + self.custom_places@,
    {
        builder.write_codes(self.custom_places.as_slice());
    }

    /// Adds the codes of the clean to the builder: the reset code, or the codes
    /// that reverse [`SGRString::place_all`], or with no clean kind set the
    /// custom clean codes alone.
    pub fn clean_all(&self, builder: &mut SGRBuilder)
        ensures
            final(builder)@ == old(builder)@ + self.clean_codes(),
    {
        match self.clean {
            CleanKind::Reset => builder.write_code(0),
            CleanKind::Reverse => {
                self.clean_colors(builder);
                self.clean_styles(builder);
                self.clean_custom(builder);
            },
            CleanKind::Unset => self.clean_custom(builder),
        }
        assert(final(builder)@ =~= old(builder)@ + self.clean_codes());
    }

    /// Adds the codes that reverse [`SGRString::place_colors`].
    pub fn clean_colors(&self, builder: &mut SGRBuilder)
        ensures
            final(builder)@ == old(builder)@ + clean_color_codes(self@),
    {
        if self.foreground != ColorKind::Unset {
            builder.write_code(39);
        }
        if self.background != ColorKind::Unset {
            builder.write_code(49);
        }
        assert(final(builder)@ =~= old(builder)@ + clean_color_codes(self@));
    }

    /// Adds the codes that reverse [`SGRString::place_styles`].
    pub fn clean_styles(&self, builder: &mut SGRBuilder)
        ensures
            final(builder)@ == old(builder)@ + clean_style_codes(self@),
    {
        let entries = [
            (self.bold, 22u8, 1u8),
            (self.dim, 22u8, 2u8),
            (self.italic, 23u8, 3u8),
            (self.underline, 24u8, 4u8),
            (self.blinking, 25u8, 5u8),
            (self.inverse, 27u8, 7u8),
            (self.hidden, 28u8, 8u8),
            (self.strikethrough, 29u8, 9u8),
        ];
        assert(entries@ =~= clean_entries(self@));
        write_kinds(builder, &entries);
    }

    /// Adds the custom codes to clean to the builder.
    pub fn clean_custom(&self, builder: &mut SGRBuilder)
        ensures
            final(builder)@ == old(builder)@ + self.custom_cleans@,
    {
        builder.write_codes(self.custom_cleans.as_slice());
    }

    /// The string as its `Display` writes it: the placed codes, the text and
    /// the clean codes, each sequence left out when it has no codes.
    pub fn to_string(&self) -> (r: String)
        ensures
            r@ == sgr_text(self@),
    {
        let mut builder = SGRBuilder::new();
        self.place_all(&mut builder);
        let mut r = builder.end();
        r.append(self.text.as_str());
        self.clean_all(&mut builder);
        let after = builder.end();
        r.append(after.as_str());
        assert(r@ =~= sgr_text(self@));
        r
    }

    /// An [`SGRString`] of the text alone, with no codes.
    pub fn from(text: &str) -> (r: SGRString)
        ensures
            r@ == text_view(text@),
    {
        let mut r = SGRString::default();
        r.text = text.to_owned();
        r
    }
}

impl Default for SGRString {
    fn default() -> (r: Self)
        ensures
            r@ == default_view(),
    {
        SGRString {
            text: String::new(),
            clean: CleanKind::Unset,
            custom_places: Vec::new(),
            custom_cleans: Vec::new(),
            foreground: ColorKind::Unset,
            background: ColorKind::Unset,
            reset: false,
            bold: StyleKind::Unset,
            dim: StyleKind::Unset,
            italic: StyleKind::Unset,
            underline: StyleKind::Unset,
            blinking: StyleKind::Unset,
            inverse: StyleKind::Unset,
            hidden: StyleKind::Unset,
            strikethrough: StyleKind::Unset,
        }
    }
}

/// `v` with a style added.
pub open spec fn styled(v: SGRStringView, s: Style) -> SGRStringView {
    match s {
        Style::Reset => SGRStringView { reset: true, ..v },
        Style::Bold => SGRStringView { bold: StyleKind::Place, ..v },
        Style::Dim => SGRStringView { dim: StyleKind::Place, ..v },
        Style::Italic => SGRStringView { italic: StyleKind::Place, ..v },
        Style::Underline => SGRStringView { underline: StyleKind::Place, ..v },
        Style::Blinking => SGRStringView { blinking: StyleKind::Place, ..v },
        Style::Inverse => SGRStringView { inverse: StyleKind::Place, ..v },
        Style::Hidden => SGRStringView { hidden: StyleKind::Place, ..v },
        Style::Strikethrough => SGRStringView { strikethrough: StyleKind::Place, ..v },
        Style::NotBold => SGRStringView { bold: StyleKind::Clean, ..v },
        Style::NotDim => SGRStringView { dim: StyleKind::Clean, ..v },
        Style::NotItalic => SGRStringView { italic: StyleKind::Clean, ..v },
        Style::NotUnderline => SGRStringView { underline: StyleKind::Clean, ..v },
        Style::NotBlinking => SGRStringView { blinking: StyleKind::Clean, ..v },
        Style::NotInverse => SGRStringView { inverse: StyleKind::Clean, ..v },
        Style::NotHidden => SGRStringView { hidden: StyleKind::Clean, ..v },
        Style::NotStrikethrough => SGRStringView { strikethrough: StyleKind::Clean, ..v },
    }
}

/// `v` with a color added, to the foreground or the background.
pub open spec fn colored(v: SGRStringView, c: Color) -> SGRStringView {
    match c {
        Color::BlackFg => SGRStringView { foreground: ColorKind::Black, ..v },
        Color::RedFg => SGRStringView { foreground: ColorKind::Red, ..v },
        Color::GreenFg => SGRStringView { foreground: ColorKind::Green, ..v },
        Color::YellowFg => SGRStringView { foreground: ColorKind::Yellow, ..v },
        Color::BlueFg => SGRStringView { foreground: ColorKind::Blue, ..v },
        Color::MagentaFg => SGRStringView { foreground: ColorKind::Magenta, ..v },
        Color::CyanFg => SGRStringView { foreground: ColorKind::Cyan, ..v },
        Color::WhiteFg => SGRStringView { foreground: ColorKind::White, ..v },
        Color::ByteFg(n) => SGRStringView { foreground: ColorKind::Byte(n), ..v },
        Color::RgbFg(r, g, b) => SGRStringView { foreground: ColorKind::Rgb(r, g, b), ..v },
        Color::DefaultFg => SGRStringView { foreground: ColorKind::Default, ..v },
        Color::BlackBg => SGRStringView { background: ColorKind::Black, ..v },
        Color::RedBg => SGRStringView { background: ColorKind::Red, ..v },
        Color::GreenBg => SGRStringView { background: ColorKind::Green, ..v },
        Color::YellowBg => SGRStringView { background: ColorKind::Yellow, ..v },
        Color::BlueBg => SGRStringView { background: ColorKind::Blue, ..v },
        Color::MagentaBg => SGRStringView { background: ColorKind::Magenta, ..v },
        Color::CyanBg => SGRStringView { background: ColorKind::Cyan, ..v },
        Color::WhiteBg => SGRStringView { background: ColorKind::White, ..v },
        Color::ByteBg(n) => SGRStringView { background: ColorKind::Byte(n), ..v },
        Color::RgbBg(r, g, b) => SGRStringView { background: ColorKind::Rgb(r, g, b), ..v },
        Color::DefaultBg => SGRStringView { background: ColorKind::Default, ..v },
    }
}

/// Chaining SGR codes into an [`SGRString`]; every method returns one.
pub trait EasySGR: Sized {
    /// The [`SGRString`] that `self` stands for.
    spec fn sgr_view(&self) -> SGRStringView;

    /// Turns `self` into an [`SGRString`].
    fn to_sgr(self) -> (r: SGRString)
        ensures
            r@ == self.sgr_view(),
    ;

    /// Sets the text of the returned [`SGRString`].
    fn text(self, text: &str) -> (r: SGRString)
        ensures
            r@ == (SGRStringView { text: text@, ..self.sgr_view() }),
    {
        let mut this = self.to_sgr();
        this.text = text.to_owned();
        this
    }

    /// Adds a style to the returned [`SGRString`].
    fn style(self, style: Style) -> (r: SGRString)
        ensures
            r@ == styled(self.sgr_view(), style),
    {
        let mut this = self.to_sgr();
        match style {
            Style::Reset => this.reset = true,
            Style::Bold => this.bold = StyleKind::Place,
            Style::Dim => this.dim = StyleKind::Place,
            Style::Italic => this.italic = StyleKind::Place,
            Style::Underline => this.underline = StyleKind::Place,
            Style::Blinking => this.blinking = StyleKind::Place,
            Style::Inverse => this.inverse = StyleKind::Place,
            Style::Hidden => this.hidden = StyleKind::Place,
            Style::Strikethrough => this.strikethrough = StyleKind::Place,
            Style::NotBold => this.bold = StyleKind::Clean,
            Style::NotDim => this.dim = StyleKind::Clean,
            Style::NotItalic => this.italic = StyleKind::Clean,
            Style::NotUnderline => this.underline = StyleKind::Clean,
            Style::NotBlinking => this.blinking = StyleKind::Clean,
            Style::NotInverse => this.inverse = StyleKind::Clean,
            Style::NotHidden => this.hidden = StyleKind::Clean,
            Style::NotStrikethrough => this.strikethrough = StyleKind::Clean,
        }
        this
    }

    /// Adds a color, foreground or background, to the returned [`SGRString`].
    fn color(self, color: Color) -> (r: SGRString)
        ensures
            r@ == colored(self.sgr_view(), color),
    {
        let mut this = self.to_sgr();
        match color {
            Color::BlackFg => this.foreground = ColorKind::Black,
            Color::RedFg => this.foreground = ColorKind::Red,
            Color::GreenFg => this.foreground = ColorKind::Green,
            Color::YellowFg => this.foreground = ColorKind::Yellow,
            Color::BlueFg => this.foreground = ColorKind::Blue,
            Color::MagentaFg => this.foreground = ColorKind::Magenta,
            Color::CyanFg => this.foreground = ColorKind::Cyan,
            Color::WhiteFg => this.foreground = ColorKind::White,
            Color::ByteFg(n) => this.foreground = ColorKind::Byte(n),
            Color::RgbFg(r, g, b) => this.foreground = ColorKind::Rgb(r, g, b),
            Color::DefaultFg => this.foreground = ColorKind::Default,
            Color::BlackBg => this.background = ColorKind::Black,
            Color::RedBg => this.background = ColorKind::Red,
            Color::GreenBg => this.background = ColorKind::Green,
            Color::YellowBg => this.background = ColorKind::Yellow,
            Color::BlueBg => this.background = ColorKind::Blue,
            Color::MagentaBg => this.background = ColorKind::Magenta,
            Color::CyanBg => this.background = ColorKind::Cyan,
            Color::WhiteBg => this.background = ColorKind::White,
            Color::ByteBg(n) => this.background = ColorKind::Byte(n),
            Color::RgbBg(r, g, b) => this.background = ColorKind::Rgb(r, g, b),
            Color::DefaultBg => this.background = ColorKind::Default,
        }
        this
    }

    /// Adds a custom code to place before the text, as [`EasySGR::custom_place`] does.
    fn custom(self, code: u8) -> (r: SGRString)
        ensures
            r@ == (SGRStringView { custom_places: self.sgr_view().custom_places.push(code), ..self.sgr_view() }),
    {
        let mut this = self.to_sgr();
        this.custom_places.push(code);
        this
    }

    /// Sets the [`CleanKind`] of the returned [`SGRString`].
    fn clean(self, clean: CleanKind) -> (r: SGRString)
        ensures
            r@ == (SGRStringView { clean, ..self.sgr_view() }),
    {
        let mut this = self.to_sgr();
        this.clean = clean;
        this
    }

    /// Adds a custom code to be written before the text.
    fn custom_place(self, code: u8) -> (r: SGRString)
        ensures
            r@ == (SGRStringView { custom_places: self.sgr_view().custom_places.push(code), ..self.sgr_view() }),
    {
        let mut this = self.to_sgr();
        this.custom_places.push(code);
        this
    }

    /// Adds a custom code to be written after the text.
    fn custom_clean(self, code: u8) -> (r: SGRString)
        ensures
            r@ == (SGRStringView { custom_cleans: self.sgr_view().custom_cleans.push(code), ..self.sgr_view() }),
    {
        let mut this = self.to_sgr();
        this.custom_cleans.push(code);
        this
    }
}

impl EasySGR for SGRString {
    open spec fn sgr_view(&self) -> SGRStringView {
        self@
    }

    fn to_sgr(self) -> (r: SGRString) {
        self
    }
}

impl<'a> EasySGR for &'a str {
    open spec fn sgr_view(&self) -> SGRStringView {
        text_view((*self)@)
    }

    fn to_sgr(self) -> (r: SGRString) {
        let mut r = SGRString::default();
        r.text = self.to_owned();
        r
    }
}

impl EasySGR for String {
    open spec fn sgr_view(&self) -> SGRStringView {
        text_view(self@)
    }

    fn to_sgr(self) -> (r: SGRString) {
        let mut r = SGRString::default();
        r.text = self;
        r
    }
}

impl<'a> EasySGR for &'a String {
    open spec fn sgr_view(&self) -> SGRStringView {
        text_view((*self)@)
    }

    fn to_sgr(self) -> (r: SGRString) {
        let mut r = SGRString::default();
        r.text = self.clone();
        r
    }
}

impl EasySGR for Style {
    open spec fn sgr_view(&self) -> SGRStringView {
        styled(default_view(), *self)
    }

    fn to_sgr(self) -> (r: SGRString) {
        SGRString::default().style(self)
    }
}

impl EasySGR for Color {
    open spec fn sgr_view(&self) -> SGRStringView {
        colored(default_view(), *self)
    }

    fn to_sgr(self) -> (r: SGRString) {
        SGRString::default().color(self)
    }
}

pub(crate) proof fn lemma_styles_codes(v: SGRStringView)
    ensures
        place_style_codes(v) == kind_codes(v.bold, 1, 22) + kind_codes(v.dim, 2, 22)
            + kind_codes(v.italic, 3, 23) + kind_codes(v.underline, 4, 24)
            + kind_codes(v.blinking, 5, 25) + kind_codes(v.inverse, 7, 27)
            + kind_codes(v.hidden, 8, 28) + kind_codes(v.strikethrough, 9, 29),
{
    let e = place_entries(v);
    reveal_with_fuel(kinds_codes, 9);
    assert(e.drop_last() =~= e.take(7));
    assert(e.take(7).drop_last() =~= e.take(6));
    assert(e.take(6).drop_last() =~= e.take(5));
    assert(e.take(5).drop_last() =~= e.take(4));
    assert(e.take(4).drop_last() =~= e.take(3));
    assert(e.take(3).drop_last() =~= e.take(2));
    assert(e.take(2).drop_last() =~= e.take(1));
    assert(e.take(1).drop_last() =~= e.take(0));
    assert(e.take(0) =~= Seq::<(StyleKind, u8, u8)>::empty());
}

/// A style made into an [`SGRString`] is written just as the style itself:
/// its one code, and nothing after the empty text.
pub proof fn law_style_as_sgr(s: Style)
    ensures
        sgr_text(s.sgr_view()) == render_codes(seq![style_code(s)]),
{
    let v = s.sgr_view();
    lemma_styles_codes(v);
    assert(place_view_codes(v) =~= seq![style_code(s)]);
    assert(clean_view_codes(v) =~= Seq::<u8>::empty());
    assert(render_codes(Seq::<u8>::empty()) =~= Seq::<char>::empty());
    assert(sgr_text(v) =~= render_codes(seq![style_code(s)]));
}

/// A color made into an [`SGRString`] is written just as the color itself.
pub proof fn law_color_as_sgr(c: Color)
    ensures
        sgr_text(c.sgr_view()) == render_codes(color_codes(c)),
{
    let v = c.sgr_view();
    lemma_styles_codes(v);
    assert(place_view_codes(v) =~= color_codes(c));
    assert(clean_view_codes(v) =~= Seq::<u8>::empty());
    assert(sgr_text(v) =~= render_codes(color_codes(c)));
}

} // verus!
