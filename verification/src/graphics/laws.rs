//! What chaining styles and colors into an [`SGRString`] promises of every
//! string: an undo acts on the attribute its style sets, a reversing clean
//! undoes exactly what was placed, and colors keep their numbers in order.
use vstd::prelude::*;

use super::{
    clean_entries, clean_style_codes, clean_view_codes, colored, kind_codes, kinds_codes,
    lemma_styles_codes, place_view_codes, sgr_text, styled, text_view, CleanKind, ColorKind,
    SGRStringView, StyleKind,
};
use crate::discrete::{style_code, Color, Style};
use crate::text::render_codes;

verus! {

/// The style that an undoing style undoes: `NotBold` undoes `Bold`, and so on.
pub open spec fn undone_style(s: Style) -> Option<Style> {
    match s {
        Style::NotBold => Some(Style::Bold),
        Style::NotDim => Some(Style::Dim),
        Style::NotItalic => Some(Style::Italic),
        Style::NotUnderline => Some(Style::Underline),
        Style::NotBlinking => Some(Style::Blinking),
        Style::NotInverse => Some(Style::Inverse),
        Style::NotHidden => Some(Style::Hidden),
        Style::NotStrikethrough => Some(Style::Strikethrough),
        _ => None,
    }
}

/// A style and its undo set the same attribute: whichever comes last wins,
/// and nothing else is touched by the pair.
#[verifier::rlimit(60)]
pub proof fn law_undo_same_attribute(v: SGRStringView, s: Style)
    requires
        undone_style(s) is Some,
    ensures
        styled(styled(v, undone_style(s)->0), s) == styled(v, s),
        styled(styled(v, s), undone_style(s)->0) == styled(v, undone_style(s)->0),
{
    match s {
        Style::NotBold => {},
        Style::NotDim => {},
        Style::NotItalic => {},
        Style::NotUnderline => {},
        Style::NotBlinking => {},
        Style::NotInverse => {},
        Style::NotHidden => {},
        Style::NotStrikethrough => {},
        _ => {},
    }
}

proof fn lemma_clean_styles_codes(v: SGRStringView)
    ensures
        clean_style_codes(v) == kind_codes(v.bold, 22, 1) + kind_codes(v.dim, 22, 2)
            + kind_codes(v.italic, 23, 3) + kind_codes(v.underline, 24, 4)
            + kind_codes(v.blinking, 25, 5) + kind_codes(v.inverse, 27, 7)
            + kind_codes(v.hidden, 28, 8) + kind_codes(v.strikethrough, 29, 9),
{
    let e = clean_entries(v);
    reveal_with_fuel(kinds_codes, 9);
    assert(e.drop_last() =~= e.take(7));
    assert(e.take(7).drop_last() =~= e.take(6));
    assert(e.take(6).drop_last() =~= e.take(5));
    assert(e.take(5).drop_last() =~= e.take(4));
    assert(e.take(4).drop_last() =~= e.take(3));
    assert(e.take(3).drop_last() =~= e.take(2));
    assert(e.take(2).drop_last() =~= e.take(1));
    assert(e.take(1).drop_last() =~= e.take(0));
    assert(e.take(0) =~= Seq::<(StyleKind, u8, u8)>::empty());
}

/// A text with a reversing clean.
pub open spec fn reversed_text(t: Seq<char>) -> SGRStringView {
    SGRStringView { clean: CleanKind::Reverse, ..text_view(t) }
}

/// With a reversing clean, a style is written before the text and the code
/// of its undo after it, and an undo is written before the text and the code
/// of the style it undoes after it: `NotDim` gives `\x1b[22m`, the text,
/// then `\x1b[2m`.
pub proof fn law_reverse_undoes_style(t: Seq<char>, s: Style)
    requires
        undone_style(s) is Some,
    ensures
        sgr_text(styled(reversed_text(t), s))
            == render_codes(seq![style_code(s)]) + t + render_codes(seq![style_code(undone_style(s)->0)]),
        sgr_text(styled(reversed_text(t), undone_style(s)->0))
            == render_codes(seq![style_code(undone_style(s)->0)]) + t + render_codes(seq![style_code(s)]),
{
    let p = undone_style(s)->0;
    let a = styled(reversed_text(t), s);
    let b = styled(reversed_text(t), p);
    lemma_styles_codes(a);
    lemma_styles_codes(b);
    lemma_clean_styles_codes(a);
    lemma_clean_styles_codes(b);
    assert(place_view_codes(a) =~= seq![style_code(s)]);
    assert(clean_view_codes(a) =~= seq![style_code(p)]);
    assert(place_view_codes(b) =~= seq![style_code(p)]);
    assert(clean_view_codes(b) =~= seq![style_code(s)]);
}

proof fn lemma_concat_contains(a: Seq<u8>, b: Seq<u8>, x: u8)
    ensures
        (a + b).contains(x) == (a.contains(x) || b.contains(x)),
{
    if a.contains(x) {
        let i = choose|i: int| 0 <= i < a.len() && a[i] == x;
        assert((a + b)[i] == x);
    }
    if b.contains(x) {
        let j = choose|j: int| 0 <= j < b.len() && b[j] == x;
        assert((a + b)[a.len() + j] == x);
    }
    if (a + b).contains(x) {
        let k = choose|k: int| 0 <= k < (a + b).len() && (a + b)[k] == x;
        if k < a.len() {
            assert(a[k] == x);
        } else {
            assert(b[k - a.len()] == x);
        }
    }
}

proof fn lemma_kind_codes_avoid(k: StyleKind, place: u8, not: u8, x: u8)
    requires
        place != x,
        not != x,
    ensures
        !kind_codes(k, place, not).contains(x),
{
}

proof fn lemma_clean_styles_avoid(v: SGRStringView, x: u8)
    requires
        x == 39 || x == 49,
    ensures
        !clean_style_codes(v).contains(x),
{
    lemma_clean_styles_codes(v);
    let k1 = kind_codes(v.bold, 22, 1);
    let k2 = kind_codes(v.dim, 22, 2);
    let k3 = kind_codes(v.italic, 23, 3);
    let k4 = kind_codes(v.underline, 24, 4);
    let k5 = kind_codes(v.blinking, 25, 5);
    let k6 = kind_codes(v.inverse, 27, 7);
    let k7 = kind_codes(v.hidden, 28, 8);
    let k8 = kind_codes(v.strikethrough, 29, 9);
    lemma_kind_codes_avoid(v.bold, 22, 1, x);
    lemma_kind_codes_avoid(v.dim, 22, 2, x);
    lemma_kind_codes_avoid(v.italic, 23, 3, x);
    lemma_kind_codes_avoid(v.underline, 24, 4, x);
    lemma_kind_codes_avoid(v.blinking, 25, 5, x);
    lemma_kind_codes_avoid(v.inverse, 27, 7, x);
    lemma_kind_codes_avoid(v.hidden, 28, 8, x);
    lemma_kind_codes_avoid(v.strikethrough, 29, 9, x);
    lemma_concat_contains(k1, k2, x);
    lemma_concat_contains(k1 + k2, k3, x);
    lemma_concat_contains(k1 + k2 + k3, k4, x);
    lemma_concat_contains(k1 + k2 + k3 + k4, k5, x);
    lemma_concat_contains(k1 + k2 + k3 + k4 + k5, k6, x);
    lemma_concat_contains(k1 + k2 + k3 + k4 + k5 + k6, k7, x);
    lemma_concat_contains(k1 + k2 + k3 + k4 + k5 + k6 + k7, k8, x);
}

proof fn lemma_reverse_contains(v: SGRStringView, x: u8)
    requires
        v.clean == CleanKind::Reverse,
        !v.custom_cleans.contains(x),
        x == 39 || x == 49,
    ensures
        clean_view_codes(v).contains(x) == (
            (x == 39 && v.foreground != ColorKind::Unset) || (x == 49 && v.background != ColorKind::Unset)),
{
    let fg: Seq<u8> = if v.foreground != ColorKind::Unset { seq![39u8] } else { seq![] };
    let bg: Seq<u8> = if v.background != ColorKind::Unset { seq![49u8] } else { seq![] };
    let st = clean_style_codes(v);
    lemma_clean_styles_avoid(v, x);
    assert(clean_view_codes(v) == fg + bg + st + v.custom_cleans);
    lemma_concat_contains(fg, bg, x);
    lemma_concat_contains(fg + bg, st, x);
    lemma_concat_contains(fg + bg + st, v.custom_cleans, x);
    if v.foreground != ColorKind::Unset {
        assert(fg[0] == 39);
    }
    if v.background != ColorKind::Unset {
        assert(bg[0] == 49);
    }
}

/// With a reversing clean, the foreground is undone (`39`) exactly when a
/// foreground is set and the background (`49`) exactly when a background is
/// set, each whatever the other is; no style writes either code.
pub proof fn law_reverse_cleans_colors(v: SGRStringView)
    requires
        v.clean == CleanKind::Reverse,
        !v.custom_cleans.contains(39),
        !v.custom_cleans.contains(49),
    ensures
        clean_view_codes(v).contains(39) == (v.foreground != ColorKind::Unset),
        clean_view_codes(v).contains(49) == (v.background != ColorKind::Unset),
{
    lemma_reverse_contains(v, 39);
    lemma_reverse_contains(v, 49);
}

/// A true color is placed as its base code (`38` or `48`), `5`, then its red,
/// green and blue numbers in that order; a 256-color as its base code, `2`
/// and its number. The foreground comes first, unless there is none.
pub proof fn law_color_numbers_in_order(v: SGRStringView, r: u8, g: u8, b: u8, n: u8)
    requires
        !v.reset,
    ensures
        place_view_codes(colored(v, Color::RgbFg(r, g, b))).take(5) == seq![38u8, 5, r, g, b],
        place_view_codes(colored(v, Color::ByteFg(n))).take(3) == seq![38u8, 2, n],
        v.foreground == ColorKind::Unset ==>
            place_view_codes(colored(v, Color::RgbBg(r, g, b))).take(5) == seq![48u8, 5, r, g, b],
        v.foreground == ColorKind::Unset ==>
            place_view_codes(colored(v, Color::ByteBg(n))).take(3) == seq![48u8, 2, n],
{
    assert(place_view_codes(colored(v, Color::RgbFg(r, g, b))).take(5) =~= seq![38u8, 5, r, g, b]);
    assert(place_view_codes(colored(v, Color::ByteFg(n))).take(3) =~= seq![38u8, 2, n]);
    if v.foreground == ColorKind::Unset {
        assert(place_view_codes(colored(v, Color::RgbBg(r, g, b))).take(5) =~= seq![48u8, 5, r, g, b]);
        assert(place_view_codes(colored(v, Color::ByteBg(n))).take(3) =~= seq![48u8, 2, n]);
    }
}

} // verus!
