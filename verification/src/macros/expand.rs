//! How a formatting macro's input tokens become its expansion.
//!
//! The tokens are taken by what the expansion reads of them: a literal by its
//! source text, any other token by its kind. The expansion passes input tokens
//! on by their index, so the token values themselves need not be held here.
use vstd::prelude::*;

use super::parse::Error;
use super::{token_parsed, MacroKind, ParsedLiteral, ParsedLiteralView};
use crate::number::IntErrorKind;

verus! {

/// A token of a macro's input.
#[derive(Debug, PartialEq, Eq)]
pub enum Token {
    /// A literal, by its source text (such as `"text"` or `r#"text"#`).
    Literal(String),
    /// An identifier.
    Ident,
    /// A punctuation character.
    Punct,
    /// A delimited group of tokens.
    Group,
}

/// The value of a [`Token`].
pub enum TokenView {
    Literal(Seq<char>),
    Ident,
    Punct,
    Group,
}

impl View for Token {
    type V = TokenView;

    open spec fn view(&self) -> TokenView {
        match self {
            Token::Literal(s) => TokenView::Literal(s@),
            Token::Ident => TokenView::Ident,
            Token::Punct => TokenView::Punct,
            Token::Group => TokenView::Group,
        }
    }
}

/// A piece of a macro's expansion.
#[derive(Debug, PartialEq, Eq)]
pub enum Unit {
    /// The input token at this index, passed on unchanged.
    Input(usize),
    /// A new string literal with this value.
    Literal(String),
    /// The source text of a raw string literal.
    Raw(String),
    /// A error report with this message, spanned at the input token of
    /// the index given, or else at the macro's call site.
    CompileError(String, Option<usize>),
}

/// The value of a [`Unit`].
pub enum UnitView {
    Input(usize),
    Literal(Seq<char>),
    Raw(Seq<char>),
    CompileError(Seq<char>, Option<usize>),
}

impl View for Unit {
    type V = UnitView;

    open spec fn view(&self) -> UnitView {
        match self {
            Unit::Input(i) => UnitView::Input(*i),
            Unit::Literal(s) => UnitView::Literal(s@),
            Unit::Raw(s) => UnitView::Raw(s@),
            Unit::CompileError(m, at) => UnitView::CompileError(m@, *at),
        }
    }
}

/// The values of a sequence of units.
pub open spec fn unit_views(units: Seq<Unit>) -> Seq<UnitView> {
    units.map_values(|u: Unit| u@)
}

/// The values of a sequence of tokens.
pub open spec fn token_views(tokens: Seq<Token>) -> Seq<TokenView> {
    tokens.map_values(|t: Token| t@)
}

/// A macro's expansion: its units, standing alone or handed to the standard
/// macro of a kind, as in `std::format!(...)`.
#[derive(Debug, PartialEq, Eq)]
pub struct Expansion {
    /// The standard macro that the units are handed to, if any.
    pub call: Option<MacroKind>,
    /// The units.
    pub units: Vec<Unit>,
}

/// The leading tokens that a macro's input is made of.
#[derive(Debug, Clone, Copy, PartialEq, Eq, Structural)]
pub enum StreamKind {
    /// A literal (for all kinds but `Write` and `Writeln`).
    Standard,
    /// A writer (for `Write` and `Writeln`), then with `true` a punctuation
    /// and a literal.
    Writer(bool),
    /// No tokens at all.
    Empty,
}

/// How many leading tokens a stream kind holds.
pub open spec fn kind_len(k: StreamKind) -> nat {
    match k {
        StreamKind::Standard => 1,
        StreamKind::Writer(false) => 1,
        StreamKind::Writer(true) => 3,
        StreamKind::Empty => 0,
    }
}

/// Whether a macro kind takes a writer first.
pub open spec fn takes_writer(kind: MacroKind) -> bool {
    kind == MacroKind::Write || kind == MacroKind::Writeln
}

/// The stream kind of `toks` for a macro of `kind`; where the leading tokens
/// do not fit the kind, the number of tokens read before that was seen.
pub open spec fn stream_kind_spec(kind: MacroKind, toks: Seq<TokenView>) -> Result<StreamKind, nat> {
    if toks.len() == 0 {
        Ok(StreamKind::Empty)
    } else if !takes_writer(kind) {
        if toks[0] is Literal {
            Ok(StreamKind::Standard)
        } else {
            Err(1)
        }
    } else if !(toks[0] is Ident) {
        Err(1)
    } else if toks.len() == 1 {
        Ok(StreamKind::Writer(false))
    } else if !(toks[1] is Punct) {
        Err(2)
    } else if toks.len() == 2 {
        Err(2)
    } else if toks[2] is Literal {
        Ok(StreamKind::Writer(true))
    } else {
        Err(3)
    }
}

impl StreamKind {
    /// Splits off the leading tokens of a macro's input.
    ///
    /// Where they do not fit the kind, the error holds how many tokens were read.
    pub fn from_kind(kind: MacroKind, tokens: &Vec<Token>) -> (r: Result<StreamKind, usize>)
        ensures
            match (r, stream_kind_spec(kind, token_views(tokens@))) {
                (Ok(a), Ok(b)) => a == b,
                (Err(a), Err(b)) => a == b,
                _ => false,
            },
            r is Ok ==> kind_len(r->Ok_0) <= tokens.len(),
    {
        let ghost toks = token_views(tokens@);
        if tokens.len() == 0 {
            return Ok(StreamKind::Empty);
        }
        assert(toks[0] == tokens@[0]@);
        let writer = match kind {
            MacroKind::Write | MacroKind::Writeln => true,
            _ => false,
        };
        if !writer {
            return match &tokens[0] {
                Token::Literal(_) => Ok(StreamKind::Standard),
                _ => Err(1),
            };
        }
        match &tokens[0] {
            Token::Ident => {},
            _ => return Err(1),
        }
        if tokens.len() == 1 {
            return Ok(StreamKind::Writer(false));
        }
        assert(toks[1] == tokens@[1]@);
        match &tokens[1] {
            Token::Punct => {},
            _ => return Err(2),
        }
        if tokens.len() == 2 {
            return Err(2);
        }
        assert(toks[2] == tokens@[2]@);
        match &tokens[2] {
            Token::Literal(_) => Ok(StreamKind::Writer(true)),
            _ => Err(3),
        }
    }
}

/// A macro's input split into its leading tokens and the rest.
#[derive(Debug, Clone, Copy, PartialEq, Eq, Structural)]
pub struct StreamParts {
    /// The leading tokens.
    pub kind: StreamKind,
    /// The index of the first of the remaining tokens.
    pub rest: usize,
}

impl StreamParts {
    /// Splits the input of a macro of `kind`. Where its leading tokens do not
    /// fit the kind, the error passes all the tokens on.
    pub fn from_parts(kind: MacroKind, tokens: &Vec<Token>) -> (r: Result<StreamParts, Vec<Unit>>)
        ensures
            match stream_kind_spec(kind, token_views(tokens@)) {
                Ok(k) => r == Ok::<StreamParts, Vec<Unit>>(StreamParts { kind: k, rest: kind_len(k) as usize })
                    && kind_len(k) <= tokens.len(),
                Err(_) => r matches Err(u) && unit_views(u@) == inputs(0, tokens.len() as nat),
            },
    {
        match StreamKind::from_kind(kind, tokens) {
            Ok(k) => {
                let rest: usize = match k {
                    StreamKind::Standard => 1,
                    StreamKind::Writer(false) => 1,
                    StreamKind::Writer(true) => 3,
                    StreamKind::Empty => 0,
                };
                Ok(StreamParts { kind: k, rest })
            },
            Err(_) => {
                let mut units: Vec<Unit> = Vec::new();
                push_inputs(&mut units, 0, tokens.len());
                assert(unit_views(units@) =~= inputs(0, tokens.len() as nat));
                Err(units)
            },
        }
    }
}

/// The input tokens from index `from` to `to`, passed on.
pub open spec fn inputs(from: nat, to: nat) -> Seq<UnitView> {
    Seq::new((to - from) as nat, |i: int| UnitView::Input((from + i) as usize))
}

/// The index of the literal in a stream kind, if it has one.
pub open spec fn literal_index(k: StreamKind) -> Option<usize> {
    match k {
        StreamKind::Standard => Some(0),
        StreamKind::Writer(true) => Some(2),
        _ => None,
    }
}

/// The tokens passed on in front of a new literal: the writer and its
/// punctuation, for a writer.
pub open spec fn literal_prefix(k: StreamKind) -> Seq<UnitView> {
    match k {
        StreamKind::Writer(_) => inputs(0, 2),
        _ => seq![],
    }
}

/// The message of a failed integer parse.
pub open spec fn int_error_message(e: IntErrorKind) -> Seq<char> {
    match e {
        IntErrorKind::Empty => "cannot parse integer from empty string"@,
        IntErrorKind::InvalidDigit => "invalid digit or keyword found"@,
        IntErrorKind::PosOverflow => "number too large to fit in u8"@,
    }
}

/// What an error in the literal at index `at` becomes: a error report
/// at the literal, or for an error left to the compiler the literal itself.
pub open spec fn error_units(e: Error, at: Option<usize>) -> Seq<UnitView> {
    match e {
        Error::ParseInt(k) => seq![UnitView::CompileError(int_error_message(k), at)],
        Error::MissingBracket => seq![UnitView::CompileError("Missing a close bracket"@, at)],
        Error::InvalidColorLen => seq![UnitView::CompileError("Incorrect number of digits found"@, at)],
        Error::CompilerPassOff => match at {
            Some(i) => seq![UnitView::Input(i)],
            None => seq![],
        },
    }
}

/// The message given where the `sgr` macro has no literal.
pub open spec fn missing_literal_message() -> Seq<char> {
    "missing string literal"@
}

/// The units that a macro of `kind` makes of the tokens `toks`: `Ok` for an
/// expansion, `Err` for one that reports an error.
///
/// Tokens that do not fit the kind are all passed on. A literal that is a
/// string becomes a new literal, a raw string is passed on as source text, and
/// any other literal is passed on as it was; the writer and its punctuation
/// stand in front of a new literal, and the tokens after the literal follow.
pub open spec fn args_spec(kind: MacroKind, toks: Seq<TokenView>, merge: bool) -> Result<Seq<UnitView>, Seq<UnitView>> {
    match stream_kind_spec(kind, toks) {
        Err(_) => Err(inputs(0, toks.len())),
        Ok(k) => {
            let rest = inputs(kind_len(k), toks.len());
            match literal_index(k) {
                None => if k is Writer {
                    Ok(seq![UnitView::Input(0)])
                } else if kind == MacroKind::Sgr {
                    Err(seq![UnitView::CompileError(missing_literal_message(), None)])
                } else {
                    Ok(seq![])
                },
                Some(li) => match token_parsed(toks[li as int]->Literal_0, merge) {
                    ParsedLiteralView::String(s) => Ok(literal_prefix(k) + seq![UnitView::Literal(s)] + rest),
                    ParsedLiteralView::RawString(src) => Ok(literal_prefix(k) + seq![UnitView::Raw(src)] + rest),
                    ParsedLiteralView::InvalidToken => Ok(seq![UnitView::Input(li)] + rest),
                    ParsedLiteralView::InvalidString(e) => Err(error_units(e, Some(li))),
                },
            }
        },
    }
}

/// Appends the input tokens from index `from` to `to` to `units`.
fn push_inputs(units: &mut Vec<Unit>, from: usize, to: usize)
    requires
        from <= to,
    ensures
        unit_views(final(units)@) == unit_views(old(units)@) + inputs(from as nat, to as nat),
{
    let ghost start = unit_views(units@);
    let mut i = from;
    while i < to
        invariant
            from <= i <= to,
            unit_views(units@) == start + inputs(from as nat, i as nat),
        decreases to - i,
    {
        let ghost before = units@;
        units.push(Unit::Input(i));
        proof {
            assert(unit_views(units@) =~= unit_views(before).push(UnitView::Input(i)));
            assert(inputs(from as nat, (i + 1) as nat) =~= inputs(from as nat, i as nat).push(UnitView::Input(i)));
            assert(unit_views(units@) =~= start + inputs(from as nat, (i + 1) as nat));
        }
        i = i + 1;
    }
}

/// A error report with `message`, spanned at the input token `at`, or at
/// the call site.
pub fn error_report(message: &str, at: Option<usize>) -> (r: Unit)
    ensures
        r@ == UnitView::CompileError(message@, at),
{
    Unit::CompileError(message.to_owned(), at)
}

/// The message of a failed integer parse.
fn int_error_text(e: IntErrorKind) -> (r: &'static str)
    ensures
        r@ == int_error_message(e),
{
    proof {
        reveal_strlit("cannot parse integer from empty string");
        reveal_strlit("invalid digit or keyword found");
        reveal_strlit("number too large to fit in u8");
    }
    match e {
        IntErrorKind::Empty => "cannot parse integer from empty string",
        IntErrorKind::InvalidDigit => "invalid digit or keyword found",
        IntErrorKind::PosOverflow => "number too large to fit in u8",
    }
}

impl Error {
    /// The units that report this error, found in the literal at index `at`:
    /// a error report with a message, or the literal itself where the
    /// compiler reports the error.
    pub fn into_units(self, at: Option<usize>) -> (r: Vec<Unit>)
        ensures
            unit_views(r@) == error_units(self, at),
    {
        let mut r: Vec<Unit> = Vec::new();
        match self {
            Error::ParseInt(k) => r.push(error_report(int_error_text(k), at)),
            Error::MissingBracket => {
                proof {
                    reveal_strlit("Missing a close bracket");
                }
                r.push(error_report("Missing a close bracket", at));
            },
            Error::InvalidColorLen => {
                proof {
                    reveal_strlit("Incorrect number of digits found");
                }
                r.push(error_report("Incorrect number of digits found", at));
            },
            Error::CompilerPassOff => match at {
                Some(i) => r.push(Unit::Input(i)),
                None => {},
            },
        }
        proof {
            assert(unit_views(r@) =~= error_units(self, at));
        }
        r
    }
}

/// Builds the units of a macro of `kind` from its input tokens (see
/// [`args_spec`]), with `{{` in a string literal merged into `{` where
/// `merge_curly` is set.
pub fn build_args(kind: MacroKind, tokens: &Vec<Token>, merge_curly: bool) -> (r: Result<Vec<Unit>, Vec<Unit>>)
    ensures
        match (r, args_spec(kind, token_views(tokens@), merge_curly)) {
            (Ok(a), Ok(b)) => unit_views(a@) == b,
            (Err(a), Err(b)) => unit_views(a@) == b,
            _ => false,
        },
{
    let ghost toks = token_views(tokens@);
    let n = tokens.len();
    let mut units: Vec<Unit> = Vec::new();
    let parts = match StreamParts::from_parts(kind, tokens) {
        Ok(p) => p,
        Err(all) => return Err(all),
    };
    let k = parts.kind;
    let consumed = parts.rest;
    let li: usize = match k {
        StreamKind::Standard => 0,
        StreamKind::Writer(true) => 2,
        StreamKind::Writer(false) => {
            units.push(Unit::Input(0));
            assert(unit_views(units@) =~= seq![UnitView::Input(0)]);
            return Ok(units);
        },
        StreamKind::Empty => {
            let sgr = match kind {
                MacroKind::Sgr => true,
                _ => false,
            };
            if sgr {
                proof {
                    reveal_strlit("missing string literal");
                }
                units.push(error_report("missing string literal", None));
                assert(unit_views(units@) =~= seq![UnitView::CompileError(missing_literal_message(), None)]);
                return Err(units);
            }
            assert(unit_views(units@) =~= seq![]);
            return Ok(units);
        },
    };
    assert(toks[li as int] == tokens@[li as int]@);
    let text = match &tokens[li] {
        Token::Literal(t) => t.as_str(),
        _ => {
            assert(false);
            ""
        },
    };
    let parsed = ParsedLiteral::from_token(text, merge_curly);
    match parsed {
        ParsedLiteral::InvalidString(e) => {
            let r = e.into_units(Some(li));
            return Err(r);
        },
        ParsedLiteral::InvalidToken => {
            units.push(Unit::Input(li));
        },
        ParsedLiteral::String(s) => {
            if consumed == 3 {
                push_inputs(&mut units, 0, 2);
            }
            units.push(Unit::Literal(s));
        },
        ParsedLiteral::RawString(src) => {
            if consumed == 3 {
                push_inputs(&mut units, 0, 2);
            }
            units.push(Unit::Raw(src));
        },
    }
    let ghost front = unit_views(units@);
    push_inputs(&mut units, consumed, n);
    proof {
        let rest = inputs(kind_len(k), toks.len());
        assert(toks.len() == n);
        match token_parsed(toks[li as int]->Literal_0, merge_curly) {
            ParsedLiteralView::String(s) => {
                assert(front =~= literal_prefix(k) + seq![UnitView::Literal(s)]);
            },
            ParsedLiteralView::RawString(src) => {
                assert(front =~= literal_prefix(k) + seq![UnitView::Raw(src)]);
            },
            ParsedLiteralView::InvalidToken => {
                assert(front =~= seq![UnitView::Input(li)]);
            },
            _ => {},
        }
    }
    Ok(units)
}

/// Builds the expansion of a macro of `kind` from its input tokens: for `sgr`
/// the units alone, for the others the units handed to the standard macro of
/// that name. `{{` is kept as it is in either.
pub fn build_macro(kind: MacroKind, tokens: &Vec<Token>) -> (r: Expansion)
    ensures
        r.call == (if kind == MacroKind::Sgr { None } else { Some(kind) }),
        match args_spec(kind, token_views(tokens@), false) {
            Ok(u) => unit_views(r.units@) == u,
            Err(u) => unit_views(r.units@) == u,
        },
{
    let units = match build_args(kind, tokens, false) {
        Ok(u) => u,
        Err(u) => u,
    };
    match kind {
        MacroKind::Sgr => Expansion { call: None, units },
        _ => create_macro(kind, units),
    }
}

/// The call of the standard macro of `kind` with `units` as its arguments.
pub fn create_macro(kind: MacroKind, units: Vec<Unit>) -> (r: Expansion)
    ensures
        r.call == Some(kind),
        r.units@ == units@,
{
    Expansion { call: Some(kind), units }
}

/// A writer macro hands its writer and the punctuation after it on in front
/// of its new literal, whether the literal is a normal or a raw string, and
/// then every token after the literal, in order.
pub proof fn law_writer_in_front(kind: MacroKind, toks: Seq<TokenView>, merge: bool)
    requires
        takes_writer(kind),
        toks.len() >= 3,
        toks[0] is Ident,
        toks[1] is Punct,
        toks[2] is Literal,
        token_parsed(toks[2]->Literal_0, merge) is String || token_parsed(toks[2]->Literal_0, merge) is RawString,
    ensures
        args_spec(kind, toks, merge) matches Ok(u) && {
            &&& u.len() == toks.len()
            &&& u[0] == UnitView::Input(0)
            &&& u[1] == UnitView::Input(1)
            &&& match token_parsed(toks[2]->Literal_0, merge) {
                ParsedLiteralView::String(v) => u[2] == UnitView::Literal(v),
                ParsedLiteralView::RawString(src) => u[2] == UnitView::Raw(src),
                _ => false,
            }
            &&& forall|k: int| 3 <= k < toks.len() ==> u[k] == UnitView::Input(k as usize)
        },
{
    assert(stream_kind_spec(kind, toks) == Ok::<StreamKind, nat>(StreamKind::Writer(true)));
    let rest = inputs(3, toks.len());
    match token_parsed(toks[2]->Literal_0, merge) {
        ParsedLiteralView::String(v) => {
            let u = literal_prefix(StreamKind::Writer(true)) + seq![UnitView::Literal(v)] + rest;
            assert forall|k: int| 3 <= k < toks.len() implies u[k] == UnitView::Input(k as usize) by {
                assert(u[k] == rest[k - 3]);
            }
        },
        ParsedLiteralView::RawString(src) => {
            let u = literal_prefix(StreamKind::Writer(true)) + seq![UnitView::Raw(src)] + rest;
            assert forall|k: int| 3 <= k < toks.len() implies u[k] == UnitView::Input(k as usize) by {
                assert(u[k] == rest[k - 3]);
            }
        },
        _ => {},
    }
}

/// A macro without a writer hands its new literal on first, whether it is a
/// normal or a raw string, and then every token after it, in order.
pub proof fn law_literal_first(kind: MacroKind, toks: Seq<TokenView>, merge: bool)
    requires
        !takes_writer(kind),
        toks.len() >= 1,
        toks[0] is Literal,
        token_parsed(toks[0]->Literal_0, merge) is String || token_parsed(toks[0]->Literal_0, merge) is RawString,
    ensures
        args_spec(kind, toks, merge) matches Ok(u) && {
            &&& u.len() == toks.len()
            &&& match token_parsed(toks[0]->Literal_0, merge) {
                ParsedLiteralView::String(v) => u[0] == UnitView::Literal(v),
                ParsedLiteralView::RawString(src) => u[0] == UnitView::Raw(src),
                _ => false,
            }
            &&& forall|k: int| 1 <= k < toks.len() ==> u[k] == UnitView::Input(k as usize)
        },
{
    assert(stream_kind_spec(kind, toks) == Ok::<StreamKind, nat>(StreamKind::Standard));
    let rest = inputs(1, toks.len());
    match token_parsed(toks[0]->Literal_0, merge) {
        ParsedLiteralView::String(v) => {
            let u = literal_prefix(StreamKind::Standard) + seq![UnitView::Literal(v)] + rest;
            assert forall|k: int| 1 <= k < toks.len() implies u[k] == UnitView::Input(k as usize) by {
                assert(u[k] == rest[k - 1]);
            }
        },
        ParsedLiteralView::RawString(src) => {
            let u = literal_prefix(StreamKind::Standard) + seq![UnitView::Raw(src)] + rest;
            assert forall|k: int| 1 <= k < toks.len() implies u[k] == UnitView::Input(k as usize) by {
                assert(u[k] == rest[k - 1]);
            }
        },
        _ => {},
    }
}

} // verus!
