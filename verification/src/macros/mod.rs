//! The string handling behind the formatting macros: unwrapping string
//! literals and replacing SGR keywords such as `{[bold red]}` by escape sequences.
use vstd::prelude::*;

pub mod expand;
pub mod laws;
pub mod parse;
pub mod sgr;

use parse::{create_raw_string, raw_literal, sgr_curly_spec, sgr_string_curly, unwrap_spec, unwrap_string, unwrapped_view, Error, UnwrappedLiteral};

verus! {

/// What a string literal token becomes in a macro's output.
#[derive(Debug, PartialEq, Eq)]
pub enum ParsedLiteral {
    /// A normal string literal with this value.
    String(String),
    /// A raw string literal token, kept as it was.
    RawString(String),
    /// The token is not a string literal; it is passed on as it is.
    InvalidToken,
    /// The literal cannot be turned into an SGR string.
    InvalidString(Error),
}

/// What an unwrapped literal with these characters becomes, with `{{`
/// merged into `{` where `merge` is set.
pub open spec fn parsed_spec(content: Seq<char>, hashes: Option<nat>, merge: bool) -> ParsedLiteralView {
    match hashes {
        None => match sgr_curly_spec(content, merge) {
            Ok(s) => ParsedLiteralView::String(s),
            Err(e) => ParsedLiteralView::InvalidString(e),
        },
        Some(n) => ParsedLiteralView::RawString(raw_literal(content, n)),
    }
}

/// What the literal token with source text `token` becomes.
pub open spec fn token_parsed(token: Seq<char>, merge: bool) -> ParsedLiteralView {
    match unwrap_spec(token) {
        None => ParsedLiteralView::InvalidToken,
        Some(u) => parsed_spec(u.0, u.1, merge),
    }
}

/// The value of a [`ParsedLiteral`], with its strings as characters.
pub enum ParsedLiteralView {
    String(Seq<char>),
    RawString(Seq<char>),
    InvalidToken,
    InvalidString(Error),
}

impl View for ParsedLiteral {
    type V = ParsedLiteralView;

    open spec fn view(&self) -> ParsedLiteralView {
        match self {
            ParsedLiteral::String(s) => ParsedLiteralView::String(s@),
            ParsedLiteral::RawString(s) => ParsedLiteralView::RawString(s@),
            ParsedLiteral::InvalidToken => ParsedLiteralView::InvalidToken,
            ParsedLiteral::InvalidString(e) => ParsedLiteralView::InvalidString(*e),
        }
    }
}

impl ParsedLiteral {
    /// A normal string has its keywords substituted and becomes a new
    /// literal (`{{` merged into `{` where `merge_curly` is set); a raw
    /// string is written back as it was.
    pub fn parse(unwrapped: &UnwrappedLiteral, merge_curly: bool) -> (r: ParsedLiteral)
        ensures
            r@ == parsed_spec(unwrapped_view(*unwrapped).0, unwrapped_view(*unwrapped).1, merge_curly),
    {
        match unwrapped {
            UnwrappedLiteral::String(s) => match sgr_string_curly(s, merge_curly) {
                Ok(s) => ParsedLiteral::String(s),
                Err(e) => ParsedLiteral::InvalidString(e),
            },
            UnwrappedLiteral::RawString(s, i) => ParsedLiteral::RawString(create_raw_string(s, *i)),
        }
    }

    /// What the literal token with source text `token` becomes.
    pub fn from_token(token: &str, merge_curly: bool) -> (r: ParsedLiteral)
        ensures
            r@ == token_parsed(token@, merge_curly),
    {
        match unwrap_string(token) {
            None => ParsedLiteral::InvalidToken,
            Some(u) => ParsedLiteral::parse(&u, merge_curly),
        }
    }
}

/// The formatting macro a literal is written for.
#[derive(Debug, Clone, Copy, PartialEq, Eq, Structural)]
pub enum MacroKind {
    EPrint,
    EPrintln,
    Format,
    FormatArgs,
    Print,
    Println,
    Sgr,
    Write,
    Writeln,
}

/// The name of the standard macro that a kind stands for; empty for `Sgr`,
/// which produces a literal of its own.
pub open spec fn macro_name(kind: MacroKind) -> Seq<char> {
    match kind {
        MacroKind::EPrint => seq!['e', 'p', 'r', 'i', 'n', 't'],
        MacroKind::EPrintln => seq!['e', 'p', 'r', 'i', 'n', 't', 'l', 'n'],
        MacroKind::Format => seq!['f', 'o', 'r', 'm', 'a', 't'],
        MacroKind::FormatArgs => seq!['f', 'o', 'r', 'm', 'a', 't', '_', 'a', 'r', 'g', 's'],
        MacroKind::Print => seq!['p', 'r', 'i', 'n', 't'],
        MacroKind::Println => seq!['p', 'r', 'i', 'n', 't', 'l', 'n'],
        MacroKind::Sgr => seq![],
        MacroKind::Write => seq!['w', 'r', 'i', 't', 'e'],
        MacroKind::Writeln => seq!['w', 'r', 'i', 't', 'e', 'l', 'n'],
    }
}

impl MacroKind {
    /// Returns the name of the macro, or an empty string for [`MacroKind::Sgr`].
    pub fn name(&self) -> (r: &'static str)
        ensures
            r@ == macro_name(*self),
    {
        let r = match self {
            MacroKind::EPrint => "eprint",
            MacroKind::EPrintln => "eprintln",
            MacroKind::Format => "format",
            MacroKind::FormatArgs => "format_args",
            MacroKind::Print => "print",
            MacroKind::Println => "println",
            MacroKind::Sgr => "",
            MacroKind::Write => "write",
            MacroKind::Writeln => "writeln",
        };
        proof {
            reveal_strlit("eprint");
            reveal_strlit("eprintln");
            reveal_strlit("format");
            reveal_strlit("format_args");
            reveal_strlit("print");
            reveal_strlit("println");
            reveal_strlit("");
            reveal_strlit("write");
            reveal_strlit("writeln");
        }
        r
    }
}

} // verus!
