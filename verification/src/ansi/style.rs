//! Styles that write their own sequence and chain into [`Graphics`].
use vstd::prelude::*;

use super::graphics::{empty_graphics, Graphics};
use crate::ansi::inline::Style as InlineStyle;
use crate::ansi::inline::{inline_style_code, style_graphics, DisplayedAnsi};
use super::writer::{AnsiFmt, AnsiWriter};
use crate::text::render_codes;

verus! {

/// A style code.
#[derive(Debug, Clone, Copy, PartialEq, Eq, Structural)]
pub enum Style {
    Reset,
    Bold,
    Dim,
    Italic,
    Underline,
    Blinking,
    Inverse,
    Hidden,
    Strikethrough,
    ClearBold,
    ClearDim,
    ClearItalic,
    ClearUnderline,
    ClearBlinking,
    ClearInverse,
    ClearHidden,
    ClearStrikethrough,
}

impl Default for Style {
    fn default() -> (r: Self)
        ensures
            r == Style::Reset,
    {
        Style::Reset
    }
}

/// The inline style of the same name.
pub open spec fn as_inline(s: Style) -> InlineStyle {
    match s {
        Style::Reset => InlineStyle::Reset,
        Style::Bold => InlineStyle::Bold,
        Style::Dim => InlineStyle::Dim,
        Style::Italic => InlineStyle::Italic,
        Style::Underline => InlineStyle::Underline,
        Style::Blinking => InlineStyle::Blinking,
        Style::Inverse => InlineStyle::Inverse,
        Style::Hidden => InlineStyle::Hidden,
        Style::Strikethrough => InlineStyle::Strikethrough,
        Style::ClearBold => InlineStyle::ClearBold,
        Style::ClearDim => InlineStyle::ClearDim,
        Style::ClearItalic => InlineStyle::ClearItalic,
        Style::ClearUnderline => InlineStyle::ClearUnderline,
        Style::ClearBlinking => InlineStyle::ClearBlinking,
        Style::ClearInverse => InlineStyle::ClearInverse,
        Style::ClearHidden => InlineStyle::ClearHidden,
        Style::ClearStrikethrough => InlineStyle::ClearStrikethrough,
    }
}

impl Style {
    /// The inline style of the same name.
    pub fn to_inline(&self) -> (r: InlineStyle)
        ensures
            r == as_inline(*self),
    {
        match self {
            Style::Reset => InlineStyle::Reset,
            Style::Bold => InlineStyle::Bold,
            Style::Dim => InlineStyle::Dim,
            Style::Italic => InlineStyle::Italic,
            Style::Underline => InlineStyle::Underline,
            Style::Blinking => InlineStyle::Blinking,
            Style::Inverse => InlineStyle::Inverse,
            Style::Hidden => InlineStyle::Hidden,
            Style::Strikethrough => InlineStyle::Strikethrough,
            Style::ClearBold => InlineStyle::ClearBold,
            Style::ClearDim => InlineStyle::ClearDim,
            Style::ClearItalic => InlineStyle::ClearItalic,
            Style::ClearUnderline => InlineStyle::ClearUnderline,
            Style::ClearBlinking => InlineStyle::ClearBlinking,
            Style::ClearInverse => InlineStyle::ClearInverse,
            Style::ClearHidden => InlineStyle::ClearHidden,
            Style::ClearStrikethrough => InlineStyle::ClearStrikethrough,
        }
    }

    /// Graphics with this style and then `other` asked for.
    pub fn style(self, other: Self) -> (r: Graphics)
        ensures
            r@ == style_graphics(style_graphics(empty_graphics(), as_inline(self)), as_inline(other)),
    {
        Graphics::new().style(self.to_inline()).style(other.to_inline())
    }

    /// The style's sequence, as its `Display` writes it.
    pub fn to_string(&self) -> (r: String)
        ensures
            r@ == render_codes(seq![inline_style_code(as_inline(*self))]),
    {
        let mut fmt = AnsiFmt::new(String::new());
        let _ = fmt.escape();
        let _ = fmt.write_code(self.to_inline().code());
        let _ = fmt.end();
        let r = fmt.into_inner();
        assert(r@ =~= render_codes(seq![inline_style_code(as_inline(*self))]));
        r
    }
}

} // verus!
