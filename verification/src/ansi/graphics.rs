//! [`Graphics`]: colors, styles and custom codes to place before a text and
//! to clear after it; and [`AnsiString`], a text with its graphics.
use vstd::prelude::*;
use vstd::string::*;

use super::writer::{Ansi, AnsiWriter};
use crate::text::{codes_text, lemma_codes_text_concat, render, render_codes};

verus! {

/// What is written after the text.
#[derive(Debug, Clone, Copy, PartialEq, Eq, Structural)]
pub enum ClearKind {
    /// Nothing
    Skip,
    /// The reset code `0`
    Full,
    /// The codes that undo the placed ones
    Clean,
}

impl Default for ClearKind {
    fn default() -> (r: Self)
        ensures
            r == ClearKind::Skip,
    {
        ClearKind::Skip
    }
}

/// A foreground or background color.
#[derive(Debug, Clone, Copy, PartialEq, Eq, Structural)]
pub enum ColorKind {
    Black,
    Red,
    Green,
    Yellow,
    Blue,
    Magenta,
    Cyan,
    White,
    EightBit(u8),
    Rgb(u8, u8, u8),
    Default,
}

impl Default for ColorKind {
    fn default() -> (r: Self)
        ensures
            r == ColorKind::Default,
    {
        ColorKind::Default
    }
}

/// What is done with a style: nothing, place it, clear it, or both.
#[derive(Debug, Clone, Copy, PartialEq, Eq, Structural)]
pub enum StyleKind {
    Empty,
    Place,
    Clear,
    Both,
}

impl Default for StyleKind {
    fn default() -> (r: Self)
        ensures
            r == StyleKind::Empty,
    {
        StyleKind::Empty
    }
}

/// The kind after also asking for `other`: an empty kind becomes `other`,
/// placing and clearing together become both, anything else stays.
pub open spec fn shifted(k: StyleKind, other: StyleKind) -> StyleKind {
    match k {
        StyleKind::Empty => other,
        StyleKind::Place => if other == StyleKind::Clear { StyleKind::Both } else { k },
        StyleKind::Clear => if other == StyleKind::Place { StyleKind::Both } else { k },
        StyleKind::Both => k,
    }
}

/// Shifting by nothing changes nothing, and from nothing gives what was
/// asked; asking again for the same kind changes nothing; placing and
/// clearing, asked in either order, give both; both stays both.
pub proof fn law_shift(k: StyleKind, other: StyleKind)
    ensures
        shifted(StyleKind::Empty, other) == other,
        shifted(k, StyleKind::Empty) == k,
        shifted(k, k) == k,
        shifted(shifted(k, other), other) == shifted(k, other),
        shifted(StyleKind::Place, StyleKind::Clear) == StyleKind::Both,
        shifted(StyleKind::Clear, StyleKind::Place) == StyleKind::Both,
        shifted(StyleKind::Both, other) == StyleKind::Both,
        (shifted(k, other) == StyleKind::Empty) == (k == StyleKind::Empty && other == StyleKind::Empty),
{
}

impl StyleKind {
    /// The kind after also asking for `other`.
    pub fn shift(&self, other: StyleKind) -> (r: Self)
        ensures
            r == shifted(*self, other),
    {
        match self {
            StyleKind::Empty => other,
            StyleKind::Place => if other == StyleKind::Clear { StyleKind::Both } else { *self },
            StyleKind::Clear => if other == StyleKind::Place { StyleKind::Both } else { *self },
            StyleKind::Both => *self,
        }
    }

    /// Whether nothing is done with the style.
    pub fn is_none(&self) -> (r: bool)
        ensures
            r == (*self == StyleKind::Empty),
    {
        match self {
            StyleKind::Empty => true,
            _ => false,
        }
    }
}

/// Codes to place before a text and to clear after it.
#[derive(Debug)]
pub struct Graphics {
    pub custom_places: Vec<u8>,
    pub custom_clears: Vec<u8>,
    pub foreground: Option<ColorKind>,
    pub background: Option<ColorKind>,
    pub clear: ClearKind,
    pub reset: StyleKind,
    pub bold: StyleKind,
    pub dim: StyleKind,
    pub italic: StyleKind,
    pub underline: StyleKind,
    pub blinking: StyleKind,
    pub inverse: StyleKind,
    pub hidden: StyleKind,
    pub strikethrough: StyleKind,
}

/// The value of [`Graphics`], with its custom codes as sequences.
pub struct GraphicsView {
    pub custom_places: Seq<u8>,
    pub custom_clears: Seq<u8>,
    pub foreground: Option<ColorKind>,
    pub background: Option<ColorKind>,
    pub clear: ClearKind,
    pub reset: StyleKind,
    pub bold: StyleKind,
    pub dim: StyleKind,
    pub italic: StyleKind,
    pub underline: StyleKind,
    pub blinking: StyleKind,
    pub inverse: StyleKind,
    pub hidden: StyleKind,
    pub strikethrough: StyleKind,
}

impl View for Graphics {
    type V = GraphicsView;

    open spec fn view(&self) -> GraphicsView {
        GraphicsView {
            custom_places: self.custom_places@,
            custom_clears: self.custom_clears@,
            foreground: self.foreground,
            background: self.background,
            clear: self.clear,
            reset: self.reset,
            bold: self.bold,
            dim: self.dim,
            italic: self.italic,
            underline: self.underline,
            blinking: self.blinking,
            inverse: self.inverse,
            hidden: self.hidden,
            strikethrough: self.strikethrough,
        }
    }
}

/// Graphics with nothing to place or clear.
pub open spec fn empty_graphics() -> GraphicsView {
    GraphicsView {
        custom_places: seq![],
        custom_clears: seq![],
        foreground: None,
        background: None,
        clear: ClearKind::Skip,
        reset: StyleKind::Empty,
        bold: StyleKind::Empty,
        dim: StyleKind::Empty,
        italic: StyleKind::Empty,
        underline: StyleKind::Empty,
        blinking: StyleKind::Empty,
        inverse: StyleKind::Empty,
        hidden: StyleKind::Empty,
        strikethrough: StyleKind::Empty,
    }
}

/// The codes of a color: `base` plus its number for the eight colors,
/// `base + 8` for 8-bit and RGB colors, `base + 9` for the default.
pub open spec fn color_kind_codes(c: ColorKind, base: u8) -> Seq<u8> {
    match c {
        ColorKind::Black => seq![base],
        ColorKind::Red => seq![(base + 1) as u8],
        ColorKind::Green => seq![(base + 2) as u8],
        ColorKind::Yellow => seq![(base + 3) as u8],
        ColorKind::Blue => seq![(base + 4) as u8],
        ColorKind::Magenta => seq![(base + 5) as u8],
        ColorKind::Cyan => seq![(base + 6) as u8],
        ColorKind::White => seq![(base + 7) as u8],
        ColorKind::EightBit(n) => seq![(base + 8) as u8, 2, n],
        ColorKind::Rgb(r, g, b) => seq![(base + 8) as u8, 5, r, g, b],
        ColorKind::Default => seq![(base + 9) as u8],
    }
}

/// The codes of an optional color.
pub open spec fn option_color_codes(c: Option<ColorKind>, base: u8) -> Seq<u8> {
    match c {
        Some(k) => color_kind_codes(k, base),
        None => seq![],
    }
}

/// The code placing a style writes: `place` when placed (or both), `clear` when cleared.
pub open spec fn place_kind_codes(k: StyleKind, place: u8, clear: u8) -> Seq<u8> {
    match k {
        StyleKind::Empty => seq![],
        StyleKind::Place | StyleKind::Both => seq![place],
        StyleKind::Clear => seq![clear],
    }
}

/// The codes that the style kinds write, in order.
pub open spec fn entries_codes(entries: Seq<(StyleKind, u8, u8)>) -> Seq<u8>
    decreases entries.len(),
{
    if entries.len() == 0 {
        seq![]
    } else {
        let e = entries.last();
        entries_codes(entries.drop_last()) + place_kind_codes(e.0, e.1, e.2)
    }
}

/// The styles with their codes to place and to clear.
pub open spec fn style_entries(g: GraphicsView) -> Seq<(StyleKind, u8, u8)> {
    seq![
        (g.bold, 1u8, 22u8),
        (g.dim, 2u8, 22u8),
        (g.italic, 3u8, 23u8),
        (g.underline, 4u8, 24u8),
        (g.blinking, 5u8, 25u8),
        (g.inverse, 7u8, 27u8),
        (g.hidden, 8u8, 28u8),
        (g.strikethrough, 9u8, 29u8),
    ]
}

/// The styles with the codes that undo them: placing writes the clear code.
pub open spec fn undo_entries(g: GraphicsView) -> Seq<(StyleKind, u8, u8)> {
    seq![
        (g.bold, 22u8, 1u8),
        (g.dim, 22u8, 2u8),
        (g.italic, 23u8, 3u8),
        (g.underline, 24u8, 4u8),
        (g.blinking, 25u8, 5u8),
        (g.inverse, 27u8, 7u8),
        (g.hidden, 28u8, 8u8),
        (g.strikethrough, 29u8, 9u8),
    ]
}

/// The codes placed before the text: colors, styles, custom places.
pub open spec fn graphics_place_codes(g: GraphicsView) -> Seq<u8> {
    option_color_codes(g.foreground, 30) + option_color_codes(g.background, 40)
        + entries_codes(style_entries(g)) + g.custom_places
}

/// The codes that undo the placed ones.
pub open spec fn graphics_clean_codes(g: GraphicsView) -> Seq<u8> {
    (if g.foreground is Some { seq![39u8] } else { seq![] })
        + (if g.background is Some { seq![49u8] } else { seq![] })
        + entries_codes(undo_entries(g)) + g.custom_clears
}

/// The codes written after the text, as the clear kind says.
pub open spec fn graphics_clear_codes(g: GraphicsView) -> Seq<u8> {
    match g.clear {
        ClearKind::Skip => seq![],
        ClearKind::Full => seq![0u8],
        ClearKind::Clean => graphics_clean_codes(g),
    }
}

/// Whether nothing is to be placed (the reset counts, though it is not written).
pub open spec fn graphics_no_places(g: GraphicsView) -> bool {
    &&& g.custom_places.len() == 0
    &&& g.foreground is None
    &&& g.background is None
    &&& g.reset == StyleKind::Empty
    &&& g.bold == StyleKind::Empty
    &&& g.dim == StyleKind::Empty
    &&& g.italic == StyleKind::Empty
    &&& g.underline == StyleKind::Empty
    &&& g.blinking == StyleKind::Empty
    &&& g.inverse == StyleKind::Empty
    &&& g.hidden == StyleKind::Empty
    &&& g.strikethrough == StyleKind::Empty
}

/// Whether nothing is to be cleared: the clear is skipped, or there are no
/// custom clears, no foreground and no styles (the background is not looked at).
pub open spec fn graphics_no_clears(g: GraphicsView) -> bool {
    ||| g.clear == ClearKind::Skip
    ||| {
        &&& g.custom_clears.len() == 0
        &&& g.foreground is None
        &&& g.bold == StyleKind::Empty
        &&& g.dim == StyleKind::Empty
        &&& g.italic == StyleKind::Empty
        &&& g.underline == StyleKind::Empty
        &&& g.blinking == StyleKind::Empty
        &&& g.inverse == StyleKind::Empty
        &&& g.hidden == StyleKind::Empty
        &&& g.strikethrough == StyleKind::Empty
    }
}

proof fn lemma_empty_entries(entries: Seq<(StyleKind, u8, u8)>)
    requires
        forall|k: int| 0 <= k < entries.len() ==> (#[trigger] entries[k]).0 == StyleKind::Empty,
    ensures
        entries_codes(entries) == Seq::<u8>::empty(),
    decreases entries.len(),
{
    if entries.len() > 0 {
        assert(entries.last() == entries[entries.len() - 1]);
        lemma_empty_entries(entries.drop_last());
    }
}

/// When there is nothing to place, nothing is written before the text.
pub proof fn law_nothing_to_place(g: GraphicsView)
    requires
        graphics_no_places(g),
    ensures
        graphics_place_codes(g) == Seq::<u8>::empty(),
{
    lemma_empty_entries(style_entries(g));
    assert(graphics_place_codes(g) =~= Seq::<u8>::empty());
}

/// When there is nothing to clear, nothing is written after the text, unless
/// the clear is a full reset, or a clean with a background, which the test
/// for nothing to clear does not look at.
pub proof fn law_nothing_to_clear(g: GraphicsView)
    requires
        graphics_no_clears(g),
        g.clear != ClearKind::Full,
        g.clear == ClearKind::Clean ==> g.background is None,
    ensures
        graphics_clear_codes(g) == Seq::<u8>::empty(),
{
    if g.clear == ClearKind::Clean {
        lemma_empty_entries(undo_entries(g));
        assert(graphics_clean_codes(g) =~= Seq::<u8>::empty());
    }
}

proof fn lemma_contains_concat(a: Seq<u8>, b: Seq<u8>, x: u8)
    ensures
        (a + b).contains(x) == (a.contains(x) || b.contains(x)),
{
    if a.contains(x) {
        let i = choose|i: int| 0 <= i < a.len() && a[i] == x;
        assert((a + b)[i] == x);
    }
    if b.contains(x) {
        let j = choose|j: int| 0 <= j < b.len() && b[j] == x;
        assert((a + b)[a.len() + j] == x);
    }
    if (a + b).contains(x) {
        let k = choose|k: int| 0 <= k < (a + b).len() && (a + b)[k] == x;
        if k < a.len() {
            assert(a[k] == x);
        } else {
            assert(b[k - a.len()] == x);
        }
    }
}

proof fn lemma_entries_avoid(entries: Seq<(StyleKind, u8, u8)>, x: u8)
    requires
        forall|k: int| 0 <= k < entries.len() ==> (#[trigger] entries[k]).1 != x && entries[k].2 != x,
    ensures
        !entries_codes(entries).contains(x),
    decreases entries.len(),
{
    if entries.len() > 0 {
        let e = entries.last();
        assert(e == entries[entries.len() - 1]);
        lemma_entries_avoid(entries.drop_last(), x);
        lemma_contains_concat(entries_codes(entries.drop_last()), place_kind_codes(e.0, e.1, e.2), x);
    }
}

proof fn lemma_clean_contains(g: GraphicsView, x: u8)
    requires
        g.clear == ClearKind::Clean,
        !g.custom_clears.contains(x),
        x == 39 || x == 49,
    ensures
        graphics_clear_codes(g).contains(x) == (
            (x == 39 && g.foreground is Some) || (x == 49 && g.background is Some)),
{
    let fg: Seq<u8> = if g.foreground is Some { seq![39u8] } else { seq![] };
    let bg: Seq<u8> = if g.background is Some { seq![49u8] } else { seq![] };
    let st = entries_codes(undo_entries(g));
    lemma_entries_avoid(undo_entries(g), x);
    assert(graphics_clear_codes(g) == fg + bg + st + g.custom_clears);
    lemma_contains_concat(fg, bg, x);
    lemma_contains_concat(fg + bg, st, x);
    lemma_contains_concat(fg + bg + st, g.custom_clears, x);
    if g.foreground is Some {
        assert(fg[0] == 39);
    }
    if g.background is Some {
        assert(bg[0] == 49);
    }
}

/// A cleaning clear undoes the foreground (`39`) exactly when one is set and
/// the background (`49`) exactly when one is set, each whatever the other is;
/// no style writes either code.
pub proof fn law_clean_undoes_colors(g: GraphicsView)
    requires
        g.clear == ClearKind::Clean,
        !g.custom_clears.contains(39),
        !g.custom_clears.contains(49),
    ensures
        graphics_clear_codes(g).contains(39) == (g.foreground is Some),
        graphics_clear_codes(g).contains(49) == (g.background is Some),
{
    lemma_clean_contains(g, 39);
    lemma_clean_contains(g, 49);
}

/// A true color is placed as its base code (`38` for the foreground, `48`
/// for the background), `5`, then its red, green and blue numbers in that
/// order; a 256-color as its base code, `2` and its number. The foreground
/// comes first, and the background first when there is no foreground.
pub proof fn law_color_numbers_in_order(g: GraphicsView, r: u8, gr: u8, b: u8, n: u8)
    ensures
        graphics_place_codes(GraphicsView { foreground: Some(ColorKind::Rgb(r, gr, b)), ..g }).take(5)
            == seq![38u8, 5, r, gr, b],
        graphics_place_codes(GraphicsView { foreground: Some(ColorKind::EightBit(n)), ..g }).take(3)
            == seq![38u8, 2, n],
        graphics_place_codes(GraphicsView { foreground: None, background: Some(ColorKind::Rgb(r, gr, b)), ..g }).take(5)
            == seq![48u8, 5, r, gr, b],
        graphics_place_codes(GraphicsView { foreground: None, background: Some(ColorKind::EightBit(n)), ..g }).take(3)
            == seq![48u8, 2, n],
{
    assert(graphics_place_codes(GraphicsView { foreground: Some(ColorKind::Rgb(r, gr, b)), ..g }).take(5)
        =~= seq![38u8, 5, r, gr, b]);
    assert(graphics_place_codes(GraphicsView { foreground: Some(ColorKind::EightBit(n)), ..g }).take(3)
        =~= seq![38u8, 2, n]);
    assert(graphics_place_codes(GraphicsView { foreground: None, background: Some(ColorKind::Rgb(r, gr, b)), ..g }).take(5)
        =~= seq![48u8, 5, r, gr, b]);
    assert(graphics_place_codes(GraphicsView { foreground: None, background: Some(ColorKind::EightBit(n)), ..g }).take(3)
        =~= seq![48u8, 2, n]);
}

fn write_color<W: AnsiWriter>(writer: &mut W, c: ColorKind, base: u8) -> (r: Result<(), W::Error>)
    requires
        base == 30 || base == 40,
    ensures
        W::infallible() ==> r is Ok,
        r is Ok ==> final(writer).out() == old(writer).out() + codes_text(old(writer).first(), color_kind_codes(c, base)),
        r is Ok ==> !final(writer).first(),
{
    match c {
        ColorKind::Black => writer.write_code(base),
        ColorKind::Red => writer.write_code(base + 1),
        ColorKind::Green => writer.write_code(base + 2),
        ColorKind::Yellow => writer.write_code(base + 3),
        ColorKind::Blue => writer.write_code(base + 4),
        ColorKind::Magenta => writer.write_code(base + 5),
        ColorKind::Cyan => writer.write_code(base + 6),
        ColorKind::White => writer.write_code(base + 7),
        ColorKind::EightBit(n) => writer.write_all(&[base + 8, 2, n]),
        ColorKind::Rgb(r, g, b) => writer.write_all(&[base + 8, 5, r, g, b]),
        ColorKind::Default => writer.write_code(base + 9),
    }
}

fn write_entries<W: AnsiWriter>(writer: &mut W, entries: &[(StyleKind, u8, u8)]) -> (r: Result<(), W::Error>)
    ensures
        W::infallible() ==> r is Ok,
        r is Ok ==> final(writer).out() == old(writer).out() + codes_text(old(writer).first(), entries_codes(entries@)),
        r is Ok ==> final(writer).first() == (old(writer).first() && entries_codes(entries@).len() == 0),
{
    let ghost start = writer.out();
    let ghost f = writer.first();
    let mut i: usize = 0;
    assert(entries@.take(0) =~= Seq::<(StyleKind, u8, u8)>::empty());
    while i < entries.len()
        invariant
            i <= entries.len(),
            writer.out() == start + codes_text(f, entries_codes(entries@.take(i as int))),
            writer.first() == (f && entries_codes(entries@.take(i as int)).len() == 0),
        decreases entries.len() - i,
    {
        let (k, place, clear) = entries[i];
        let ghost prev = entries_codes(entries@.take(i as int));
        let ghost before = writer.out();
        let ghost fb = writer.first();
        match k {
            StyleKind::Empty => {},
            StyleKind::Place | StyleKind::Both => {
                let r = writer.write_code(place);
                if r.is_err() {
                    return r;
                }
            },
            StyleKind::Clear => {
                let r = writer.write_code(clear);
                if r.is_err() {
                    return r;
                }
            },
        }
        proof {
            let add = place_kind_codes(k, place, clear);
            assert(entries@.take(i + 1).drop_last() =~= entries@.take(i as int));
            assert(entries_codes(entries@.take(i + 1)) == prev + add);
            lemma_codes_text_concat(f, prev, add);
            if add.len() == 0 {
                assert(writer.out() =~= before);
                assert(codes_text(fb, add) =~= Seq::<char>::empty());
            }
            assert(writer.out() =~= start + codes_text(f, entries_codes(entries@.take(i + 1))));
        }
        i = i + 1;
    }
    assert(entries@.take(entries.len() as int) =~= entries@);
    Ok(())
}

/// Writes a list of codes after another through the writer's state.
proof fn lemma_then(f: bool, a: Seq<u8>, b: Seq<u8>, start: Seq<char>, mid: Seq<char>, end: Seq<char>)
    requires
        mid == start + codes_text(f, a),
        end == mid + codes_text(f && a.len() == 0, b),
    ensures
        end == start + codes_text(f, a + b),
{
    lemma_codes_text_concat(f, a, b);
    assert(end =~= start + codes_text(f, a + b));
}

impl Graphics {
    /// Graphics with nothing to place or clear.
    pub fn new() -> (r: Self)
        ensures
            r@ == empty_graphics(),
    {
        Graphics {
            custom_places: Vec::new(),
            custom_clears: Vec::new(),
            foreground: None,
            background: None,
            clear: ClearKind::Skip,
            reset: StyleKind::Empty,
            bold: StyleKind::Empty,
            dim: StyleKind::Empty,
            italic: StyleKind::Empty,
            underline: StyleKind::Empty,
            blinking: StyleKind::Empty,
            inverse: StyleKind::Empty,
            hidden: StyleKind::Empty,
            strikethrough: StyleKind::Empty,
        }
    }

    /// Sets what is cleared.
    pub fn clear(self, clear_kind: ClearKind) -> (r: Self)
        ensures
            r@ == (GraphicsView { clear: clear_kind, ..self@ }),
    {
        let mut this = self;
        this.clear = clear_kind;
        this
    }

    /// Sets the foreground color.
    pub fn foreground(self, color: ColorKind) -> (r: Self)
        ensures
            r@ == (GraphicsView { foreground: Some(color), ..self@ }),
    {
        let mut this = self;
        this.foreground = Some(color);
        this
    }

    /// Sets the background color.
    pub fn background(self, color: ColorKind) -> (r: Self)
        ensures
            r@ == (GraphicsView { background: Some(color), ..self@ }),
    {
        let mut this = self;
        this.background = Some(color);
        this
    }

    /// A copy of the graphics.
    pub fn copy(&self) -> (r: Self)
        ensures
            r@ == self@,
    {
        Graphics {
            custom_places: self.custom_places.clone(),
            custom_clears: self.custom_clears.clone(),
            foreground: self.foreground,
            background: self.background,
            clear: self.clear,
            reset: self.reset,
            bold: self.bold,
            dim: self.dim,
            italic: self.italic,
            underline: self.underline,
            blinking: self.blinking,
            inverse: self.inverse,
            hidden: self.hidden,
            strikethrough: self.strikethrough,
        }
    }
}

impl Default for Graphics {
    fn default() -> (r: Self)
        ensures
            r@ == empty_graphics(),
    {
        Graphics::new()
    }
}

impl Ansi for Graphics {
    open spec fn place_codes(&self) -> Seq<u8> {
        graphics_place_codes(self@)
    }

    open spec fn clear_codes(&self) -> Seq<u8> {
        graphics_clear_codes(self@)
    }

    fn place_ansi<W: AnsiWriter>(&self, writer: &mut W) -> (r: Result<(), W::Error>) {
        let ghost f = writer.first();
        let ghost s0 = writer.out();
        let ghost fg = option_color_codes(self.foreground, 30);
        let ghost bg = option_color_codes(self.background, 40);
        if let Some(color) = self.foreground {
            write_color(writer, color, 30)?;
        }
        assert(writer.out() =~= s0 + codes_text(f, fg));
        let ghost s1 = writer.out();
        if let Some(color) = self.background {
            write_color(writer, color, 40)?;
        }
        assert(writer.out() =~= s1 + codes_text(f && fg.len() == 0, bg));
        proof { lemma_then(f, fg, bg, s0, s1, writer.out()); }
        let ghost s2 = writer.out();
        let entries = [
            (self.bold, 1u8, 22u8),
            (self.dim, 2u8, 22u8),
            (self.italic, 3u8, 23u8),
            (self.underline, 4u8, 24u8),
            (self.blinking, 5u8, 25u8),
            (self.inverse, 7u8, 27u8),
            (self.hidden, 8u8, 28u8),
            (self.strikethrough, 9u8, 29u8),
        ];
        assert(entries@ =~= style_entries(self@));
        write_entries(writer, &entries)?;
        proof { lemma_then(f, fg + bg, entries_codes(style_entries(self@)), s0, s2, writer.out()); }
        let ghost s3 = writer.out();
        writer.write_all(self.custom_places.as_slice())?;
        proof {
            lemma_then(f, fg + bg + entries_codes(style_entries(self@)), self.custom_places@, s0, s3, writer.out());
        }
        Ok(())
    }

    fn clear_ansi<W: AnsiWriter>(&self, writer: &mut W) -> (r: Result<(), W::Error>)
        ensures
            self.clear == ClearKind::Skip ==> r is Ok && *final(writer) == *old(writer),
    {
        match self.clear {
            ClearKind::Skip => {
                assert(codes_text(writer.first(), seq![]) =~= Seq::<char>::empty());
                assert(writer.out() =~= writer.out() + codes_text(writer.first(), seq![]));
                Ok(())
            },
            ClearKind::Full => writer.write_code(0),
            ClearKind::Clean => {
                let ghost f = writer.first();
                let ghost s0 = writer.out();
                let ghost fg: Seq<u8> = if self.foreground is Some { seq![39u8] } else { seq![] };
                let ghost bg: Seq<u8> = if self.background is Some { seq![49u8] } else { seq![] };
                if self.foreground.is_some() {
                    writer.write_code(39)?;
                }
                assert(writer.out() =~= s0 + codes_text(f, fg));
                let ghost s1 = writer.out();
                if self.background.is_some() {
                    writer.write_code(49)?;
                }
                assert(writer.out() =~= s1 + codes_text(f && fg.len() == 0, bg));
                proof { lemma_then(f, fg, bg, s0, s1, writer.out()); }
                let ghost s2 = writer.out();
                let entries = [
                    (self.bold, 22u8, 1u8),
                    (self.dim, 22u8, 2u8),
                    (self.italic, 23u8, 3u8),
                    (self.underline, 24u8, 4u8),
                    (self.blinking, 25u8, 5u8),
                    (self.inverse, 27u8, 7u8),
                    (self.hidden, 28u8, 8u8),
                    (self.strikethrough, 29u8, 9u8),
                ];
                assert(entries@ =~= undo_entries(self@));
                write_entries(writer, &entries)?;
                proof { lemma_then(f, fg + bg, entries_codes(undo_entries(self@)), s0, s2, writer.out()); }
                let ghost s3 = writer.out();
                writer.write_all(self.custom_clears.as_slice())?;
                proof {
                    lemma_then(f, fg + bg + entries_codes(undo_entries(self@)), self.custom_clears@, s0, s3, writer.out());
                }
                Ok(())
            },
        }
    }

    fn no_places(&self) -> (r: bool)
        ensures
            r == graphics_no_places(self@),
    {
        self.custom_places.len() == 0 && self.foreground.is_none() && self.background.is_none()
            && self.reset.is_none() && self.bold.is_none() && self.dim.is_none()
            && self.italic.is_none() && self.underline.is_none() && self.blinking.is_none()
            && self.inverse.is_none() && self.hidden.is_none() && self.strikethrough.is_none()
    }

    fn no_clears(&self) -> (r: bool)
        ensures
            r == graphics_no_clears(self@),
    {
        self.clear == ClearKind::Skip || (self.custom_clears.len() == 0
            && self.foreground.is_none() && self.foreground.is_none() && self.bold.is_none()
            && self.dim.is_none() && self.italic.is_none() && self.underline.is_none()
            && self.blinking.is_none() && self.inverse.is_none() && self.hidden.is_none()
            && self.strikethrough.is_none())
    }
}

/// A text with the graphics placed before it and cleared after it.
#[derive(Debug)]
pub struct AnsiString {
    /// The text
    pub text: String,
    /// The codes around the text
    pub graphics: Graphics,
}

/// The value of an [`AnsiString`].
pub struct AnsiStringView {
    pub text: Seq<char>,
    pub graphics: GraphicsView,
}

impl View for AnsiString {
    type V = AnsiStringView;

    open spec fn view(&self) -> AnsiStringView {
        AnsiStringView { text: self.text@, graphics: self.graphics@ }
    }
}

/// The text of an [`AnsiString`] as its `Display` writes it: the placed codes
/// in one sequence, the text, and the cleared codes in another.
pub open spec fn ansi_text(a: AnsiStringView) -> Seq<char> {
    render_codes(graphics_place_codes(a.graphics)) + a.text + render_codes(graphics_clear_codes(a.graphics))
}

impl AnsiString {
    /// An empty string without graphics.
    pub fn new() -> (r: Self)
        ensures
            r@ == (AnsiStringView { text: seq![], graphics: empty_graphics() }),
    {
        AnsiString { text: String::new(), graphics: Graphics::new() }
    }

    /// The text without graphics.
    pub fn from(text: &str) -> (r: Self)
        ensures
            r@ == (AnsiStringView { text: text@, graphics: empty_graphics() }),
    {
        AnsiString { text: text.to_owned(), graphics: Graphics::new() }
    }

    /// Sets the text.
    pub fn text(self, text: &str) -> (r: Self)
        ensures
            r@ == (AnsiStringView { text: text@, ..self@ }),
    {
        let mut this = self;
        this.text = text.to_owned();
        this
    }

    /// Adds a custom code to place before the text.
    pub fn custom_place(self, code: u8) -> (r: Self)
        ensures
            r@ == (AnsiStringView {
                graphics: GraphicsView { custom_places: self@.graphics.custom_places.push(code), ..self@.graphics },
                ..self@
            }),
    {
        let mut this = self;
        this.graphics.custom_places.push(code);
        this
    }

    /// Adds a custom code to clear after the text.
    pub fn custom_clear(self, code: u8) -> (r: Self)
        ensures
            r@ == (AnsiStringView {
                graphics: GraphicsView { custom_clears: self@.graphics.custom_clears.push(code), ..self@.graphics },
                ..self@
            }),
    {
        let mut this = self;
        this.graphics.custom_clears.push(code);
        this
    }

    /// Sets what is cleared after the text.
    pub fn set_clear(self, clear: ClearKind) -> (r: Self)
        ensures
            r@ == (AnsiStringView { graphics: GraphicsView { clear, ..self@.graphics }, ..self@ }),
    {
        let mut this = self;
        this.graphics.clear = clear;
        this
    }

    /// Sets the foreground color.
    pub fn foreground(self, color: ColorKind) -> (r: Self)
        ensures
            r@ == (AnsiStringView { graphics: GraphicsView { foreground: Some(color), ..self@.graphics }, ..self@ }),
    {
        let mut this = self;
        this.graphics.foreground = Some(color);
        this
    }

    /// Sets the background color.
    pub fn background(self, color: ColorKind) -> (r: Self)
        ensures
            r@ == (AnsiStringView { graphics: GraphicsView { background: Some(color), ..self@.graphics }, ..self@ }),
    {
        let mut this = self;
        this.graphics.background = Some(color);
        this
    }

    /// The string as its `Display` writes it: the placed codes, the text and
    /// the cleared codes, each sequence left out when it has no codes.
    pub fn to_string(&self) -> (r: String)
        ensures
            r@ == ansi_text(self@),
    {
        let mut places = super::writer::AnsiFmt::new(String::new());
        let _ = self.graphics.place_ansi(&mut places);
        let place_codes = places.into_inner();
        let mut clears = super::writer::AnsiFmt::new(String::new());
        let _ = self.graphics.clear_ansi(&mut clears);
        let clear_codes = clears.into_inner();
        let mut r = String::new();
        if place_codes.as_str().unicode_len() > 0 {
            crate::text::push_char(&mut r, '\u{1b}');
            crate::text::push_char(&mut r, '[');
            r.append(place_codes.as_str());
            crate::text::push_char(&mut r, 'm');
        }
        r.append(self.text.as_str());
        if clear_codes.as_str().unicode_len() > 0 {
            crate::text::push_char(&mut r, '\u{1b}');
            crate::text::push_char(&mut r, '[');
            r.append(clear_codes.as_str());
            crate::text::push_char(&mut r, 'm');
        }
        proof {
            crate::text::lemma_codes_text_empty(graphics_place_codes(self@.graphics));
            crate::text::lemma_codes_text_empty(graphics_clear_codes(self@.graphics));
        }
        assert(r@ =~= ansi_text(self@));
        r
    }
}

impl Clone for AnsiString {
    fn clone(&self) -> (r: Self)
        ensures
            r@ == self@,
    {
        AnsiString { text: self.text.clone(), graphics: self.graphics.copy() }
    }
}

impl Default for AnsiString {
    fn default() -> (r: Self)
        ensures
            r@ == (AnsiStringView { text: seq![], graphics: empty_graphics() }),
    {
        AnsiString::new()
    }
}

} // verus!
