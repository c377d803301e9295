//! Reading [`Sequence`], [`Style`] and [`Color`] values from their names.
use vstd::prelude::*;

use super::{Color, Sequence, Style};
use crate::macros::parse::{is_word, range_views, ranges_within, split_commas, split_commas_ranges};
use crate::number::{parse_radix, parse_uint, IntErrorKind};
use crate::text::{append_usize, chars_of, nat_decimal};

verus! {

/// An error encountered while trying to parse a string into a [`Sequence`].
#[derive(Debug, Clone, Copy, PartialEq, Eq, Structural)]
pub struct ParseSeqError;

/// An error encountered while trying to parse a string into a [`Style`].
#[derive(Debug, Clone, Copy, PartialEq, Eq, Structural)]
pub struct ParseStyleError;

/// An error encountered while trying to parse a string into a [`Color`];
/// the strings are the whole string that was parsed.
#[derive(Debug, PartialEq, Eq)]
pub enum ParseColorError {
    /// A string that is completely invalid
    Invalid(String),
    /// Missing the number, i.e. `ByteFg` or `RgbBg`
    MissingNum(String),
    /// Brace error, i.e. `ByteFg20)` or `ByteFg(20`
    Brace(String),
    /// A number of a byte or RGB color is not a `u8`; for an RGB color, the
    /// first comma separated piece that is not one decides the kind
    ParseIntError(IntErrorKind),
    /// Wrong number of integers, i.e. `RgbFg(20)` or `RgbFg(20,30,40,50)`
    Len(usize),
}

/// The message of a failed integer parse, as `ParseIntError` displays it.
pub open spec fn int_error_text(k: IntErrorKind) -> Seq<char> {
    match k {
        IntErrorKind::Empty => "cannot parse integer from empty string"@,
        IntErrorKind::InvalidDigit => "invalid digit found in string"@,
        IntErrorKind::PosOverflow => "number too large to fit in target type"@,
    }
}

/// The message of a [`ParseColorError`].
pub open spec fn color_error_text(e: ParseColorError) -> Seq<char> {
    match e {
        ParseColorError::Invalid(s) => "Invalid string: "@ + s@,
        ParseColorError::MissingNum(s) => "Missing number: "@ + s@,
        ParseColorError::Brace(s) => "Missing braces: "@ + s@,
        ParseColorError::ParseIntError(k) => "Error parsing int: "@ + int_error_text(k),
        ParseColorError::Len(n) => "Found wrong number of items in string: "@ + nat_decimal(n as nat)
            + ". Needed 2"@,
    }
}

impl ParseColorError {
    /// The message of the error, as its `Display` writes it.
    pub fn to_string(&self) -> (r: String)
        ensures
            r@ == color_error_text(*self),
    {
        match self {
            ParseColorError::Invalid(s) => {
                let mut r = "Invalid string: ".to_owned();
                r.append(s.as_str());
                r
            },
            ParseColorError::MissingNum(s) => {
                let mut r = "Missing number: ".to_owned();
                r.append(s.as_str());
                r
            },
            ParseColorError::Brace(s) => {
                let mut r = "Missing braces: ".to_owned();
                r.append(s.as_str());
                r
            },
            ParseColorError::ParseIntError(k) => {
                let mut r = "Error parsing int: ".to_owned();
                let m = match k {
                    IntErrorKind::Empty => "cannot parse integer from empty string",
                    IntErrorKind::InvalidDigit => "invalid digit found in string",
                    IntErrorKind::PosOverflow => "number too large to fit in target type",
                };
                r.append(m);
                r
            },
            ParseColorError::Len(n) => {
                let mut r = "Found wrong number of items in string: ".to_owned();
                append_usize(*n, &mut r);
                r.append(". Needed 2");
                r
            },
        }
    }
}

/// The kind of a [`ParseColorError`], without its string.
#[derive(Debug, Clone, Copy, PartialEq, Eq, Structural)]
pub enum ColorErrorKind {
    Invalid,
    MissingNum,
    Brace,
    ParseIntError(IntErrorKind),
    Len(usize),
}

/// Whether `e` is the error of kind `k` for the string `s`.
pub open spec fn color_error_is(e: ParseColorError, s: Seq<char>, k: ColorErrorKind) -> bool {
    match k {
        ColorErrorKind::Invalid => e matches ParseColorError::Invalid(t) && t@ == s,
        ColorErrorKind::MissingNum => e matches ParseColorError::MissingNum(t) && t@ == s,
        ColorErrorKind::Brace => e matches ParseColorError::Brace(t) && t@ == s,
        ColorErrorKind::ParseIntError(i) => e == ParseColorError::ParseIntError(i),
        ColorErrorKind::Len(n) => e == ParseColorError::Len(n),
    }
}

/// The sequence part named `s`.
pub open spec fn sequence_named(s: Seq<char>) -> Option<Sequence> {
    if s == "Esc"@ { Some(Sequence::Esc) }
    else if s == "End"@ { Some(Sequence::End) }
    else { None }
}

/// The style named `s`.
pub open spec fn style_named(s: Seq<char>) -> Option<Style> {
    if s == "Reset"@ { Some(Style::Reset) }
    else if s == "Bold"@ { Some(Style::Bold) }
    else if s == "Dim"@ { Some(Style::Dim) }
    else if s == "Italic"@ { Some(Style::Italic) }
    else if s == "Underline"@ { Some(Style::Underline) }
    else if s == "Blinking"@ { Some(Style::Blinking) }
    else if s == "Inverse"@ { Some(Style::Inverse) }
    else if s == "Hidden"@ { Some(Style::Hidden) }
    else if s == "Strikethrough"@ { Some(Style::Strikethrough) }
    else if s == "NotBold"@ { Some(Style::NotBold) }
    else if s == "NotDim"@ { Some(Style::NotDim) }
    else if s == "NotItalic"@ { Some(Style::NotItalic) }
    else if s == "NotUnderline"@ { Some(Style::NotUnderline) }
    else if s == "NotBlinking"@ { Some(Style::NotBlinking) }
    else if s == "NotInverse"@ { Some(Style::NotInverse) }
    else if s == "NotHidden"@ { Some(Style::NotHidden) }
    else if s == "NotStrikethrough"@ { Some(Style::NotStrikethrough) }
    else { None }
}

/// The color without a number named `s`.
pub open spec fn standard_color_named(s: Seq<char>) -> Option<Color> {
    if s == "BlackFg"@ { Some(Color::BlackFg) }
    else if s == "RedFg"@ { Some(Color::RedFg) }
    else if s == "GreenFg"@ { Some(Color::GreenFg) }
    else if s == "YellowFg"@ { Some(Color::YellowFg) }
    else if s == "BlueFg"@ { Some(Color::BlueFg) }
    else if s == "MagentaFg"@ { Some(Color::MagentaFg) }
    else if s == "CyanFg"@ { Some(Color::CyanFg) }
    else if s == "WhiteFg"@ { Some(Color::WhiteFg) }
    else if s == "DefaultFg"@ { Some(Color::DefaultFg) }
    else if s == "BlackBg"@ { Some(Color::BlackBg) }
    else if s == "RedBg"@ { Some(Color::RedBg) }
    else if s == "GreenBg"@ { Some(Color::GreenBg) }
    else if s == "YellowBg"@ { Some(Color::YellowBg) }
    else if s == "BlueBg"@ { Some(Color::BlueBg) }
    else if s == "MagentaBg"@ { Some(Color::MagentaBg) }
    else if s == "CyanBg"@ { Some(Color::CyanBg) }
    else if s == "WhiteBg"@ { Some(Color::WhiteBg) }
    else if s == "DefaultBg"@ { Some(Color::DefaultBg) }
    else { None }
}

/// What stands between `(` and `)` after a color's name.
pub open spec fn paren_inner(rest: Seq<char>) -> Result<Seq<char>, ColorErrorKind> {
    if rest.len() == 0 {
        Err(ColorErrorKind::MissingNum)
    } else if rest[0] != '(' || rest.len() < 2 || rest.last() != ')' {
        Err(ColorErrorKind::Brace)
    } else {
        Ok(rest.subrange(1, rest.len() - 1))
    }
}

/// The number of a byte color, such as the `(20)` of `ByteFg(20)`.
pub open spec fn byte_spec(rest: Seq<char>) -> Result<u8, ColorErrorKind> {
    match paren_inner(rest) {
        Err(e) => Err(e),
        Ok(inner) => match parse_uint(inner, 10, 255) {
            Ok(n) => Ok(n as u8),
            Err(k) => Err(ColorErrorKind::ParseIntError(k)),
        },
    }
}

/// The pieces read as `u8` numbers, in order; the first piece that is not
/// one decides the error.
pub open spec fn number_parts(parts: Seq<Seq<char>>) -> Result<Seq<u8>, IntErrorKind>
    decreases parts.len(),
{
    if parts.len() == 0 {
        Ok(seq![])
    } else {
        match number_parts(parts.drop_last()) {
            Err(e) => Err(e),
            Ok(init) => match parse_uint(parts.last(), 10, 255) {
                Ok(n) => Ok(init.push(n as u8)),
                Err(k) => Err(k),
            },
        }
    }
}

/// The numbers of an RGB color, such as the `(1,2,3)` of `RgbFg(1,2,3)`: the
/// comma separated pieces, each a `u8`, of which there must be three.
pub open spec fn rgb_spec(rest: Seq<char>) -> Result<(u8, u8, u8), ColorErrorKind> {
    match paren_inner(rest) {
        Err(e) => Err(e),
        Ok(inner) => match number_parts(split_commas(inner)) {
            Err(k) => Err(ColorErrorKind::ParseIntError(k)),
            Ok(ns) => if ns.len() == 3 {
                Ok((ns[0], ns[1], ns[2]))
            } else {
                Err(ColorErrorKind::Len(ns.len() as usize))
            },
        },
    }
}

/// A piece that is not a number makes all the pieces fail with its error.
proof fn lemma_number_error_extends(parts: Seq<Seq<char>>, k: int)
    requires
        0 <= k < parts.len(),
        number_parts(parts.take(k + 1)) is Err,
    ensures
        number_parts(parts) == number_parts(parts.take(k + 1)),
    decreases parts.len() - k,
{
    if k + 1 == parts.len() {
        assert(parts.take(k + 1) =~= parts);
    } else {
        assert(parts.drop_last().take(k + 1) =~= parts.take(k + 1));
        lemma_number_error_extends(parts.drop_last(), k);
    }
}

/// Whether `s` starts with the five characters of `lit`.
pub open spec fn starts_with5(s: Seq<char>, lit: Seq<char>) -> bool {
    s.len() >= 5 && s.subrange(0, 5) == lit
}

/// Whether `s` starts with the six characters of `lit`.
pub open spec fn starts_with6(s: Seq<char>, lit: Seq<char>) -> bool {
    s.len() >= 6 && s.subrange(0, 6) == lit
}

/// The color that `s` names: a color without a number by its name, or
/// `RgbFg(r,g,b)`, `RgbBg(r,g,b)`, `ByteFg(n)` and `ByteBg(n)`.
pub open spec fn color_named(s: Seq<char>) -> Result<Color, ColorErrorKind> {
    match standard_color_named(s) {
        Some(c) => Ok(c),
        None => if starts_with5(s, "RgbFg"@) {
            match rgb_spec(s.skip(5)) {
                Ok((r, g, b)) => Ok(Color::RgbFg(r, g, b)),
                Err(e) => Err(e),
            }
        } else if starts_with5(s, "RgbBg"@) {
            match rgb_spec(s.skip(5)) {
                Ok((r, g, b)) => Ok(Color::RgbBg(r, g, b)),
                Err(e) => Err(e),
            }
        } else if starts_with6(s, "ByteFg"@) {
            match byte_spec(s.skip(6)) {
                Ok(n) => Ok(Color::ByteFg(n)),
                Err(e) => Err(e),
            }
        } else if starts_with6(s, "ByteBg"@) {
            match byte_spec(s.skip(6)) {
                Ok(n) => Ok(Color::ByteBg(n)),
                Err(e) => Err(e),
            }
        } else {
            Err(ColorErrorKind::Invalid)
        },
    }
}

impl Sequence {
    /// Reads a sequence part from its name, `Esc` or `End`.
    pub fn parse_name(s: &str) -> (r: Result<Sequence, ParseSeqError>)
        ensures
            match sequence_named(s@) {
                Some(q) => r == Ok::<Sequence, ParseSeqError>(q),
                None => r == Err::<Sequence, ParseSeqError>(ParseSeqError),
            },
    {
        let v = chars_of(s);
        let n = v.len();
        assert(v@.subrange(0, n as int) =~= s@);
        if is_word(&v, 0, n, "Esc") {
            Ok(Sequence::Esc)
        } else if is_word(&v, 0, n, "End") {
            Ok(Sequence::End)
        } else {
            Err(ParseSeqError)
        }
    }
}

impl std::str::FromStr for Sequence {
    type Err = ParseSeqError;

    fn from_str(s: &str) -> (r: Result<Self, Self::Err>)
        ensures
            match sequence_named(s@) {
                Some(q) => r == Ok::<Sequence, ParseSeqError>(q),
                None => r == Err::<Sequence, ParseSeqError>(ParseSeqError),
            },
    {
        Sequence::parse_name(s)
    }
}

impl Style {
    /// Reads a style from its name, such as `Bold` or `NotItalic`.
    pub fn parse_name(s: &str) -> (r: Result<Style, ParseStyleError>)
        ensures
            match style_named(s@) {
                Some(q) => r == Ok::<Style, ParseStyleError>(q),
                None => r == Err::<Style, ParseStyleError>(ParseStyleError),
            },
    {
        let v = chars_of(s);
        let n = v.len();
        assert(v@.subrange(0, n as int) =~= s@);
        if is_word(&v, 0, n, "Reset") { Ok(Style::Reset) }
        else if is_word(&v, 0, n, "Bold") { Ok(Style::Bold) }
        else if is_word(&v, 0, n, "Dim") { Ok(Style::Dim) }
        else if is_word(&v, 0, n, "Italic") { Ok(Style::Italic) }
        else if is_word(&v, 0, n, "Underline") { Ok(Style::Underline) }
        else if is_word(&v, 0, n, "Blinking") { Ok(Style::Blinking) }
        else if is_word(&v, 0, n, "Inverse") { Ok(Style::Inverse) }
        else if is_word(&v, 0, n, "Hidden") { Ok(Style::Hidden) }
        else if is_word(&v, 0, n, "Strikethrough") { Ok(Style::Strikethrough) }
        else if is_word(&v, 0, n, "NotBold") { Ok(Style::NotBold) }
        else if is_word(&v, 0, n, "NotDim") { Ok(Style::NotDim) }
        else if is_word(&v, 0, n, "NotItalic") { Ok(Style::NotItalic) }
        else if is_word(&v, 0, n, "NotUnderline") { Ok(Style::NotUnderline) }
        else if is_word(&v, 0, n, "NotBlinking") { Ok(Style::NotBlinking) }
        else if is_word(&v, 0, n, "NotInverse") { Ok(Style::NotInverse) }
        else if is_word(&v, 0, n, "NotHidden") { Ok(Style::NotHidden) }
        else if is_word(&v, 0, n, "NotStrikethrough") { Ok(Style::NotStrikethrough) }
        else { Err(ParseStyleError) }
    }
}

impl std::str::FromStr for Style {
    type Err = ParseStyleError;

    fn from_str(s: &str) -> (r: Result<Self, Self::Err>)
        ensures
            match style_named(s@) {
                Some(q) => r == Ok::<Style, ParseStyleError>(q),
                None => r == Err::<Style, ParseStyleError>(ParseStyleError),
            },
    {
        Style::parse_name(s)
    }
}

/// Reads what follows a color's name as `(..)` and returns the index range of
/// what stands between the parentheses.
fn paren_range(v: &Vec<char>, from: usize) -> (r: Result<(usize, usize), ColorErrorKind>)
    requires
        from <= v.len(),
    ensures
        match paren_inner(v@.subrange(from as int, v.len() as int)) {
            Ok(inner) => r matches Ok((a, b)) && from <= a <= b <= v.len() && v@.subrange(a as int, b as int) == inner,
            Err(e) => r == Err::<(usize, usize), ColorErrorKind>(e),
        },
{
    let ghost rest = v@.subrange(from as int, v.len() as int);
    let n = v.len();
    if from == n {
        Err(ColorErrorKind::MissingNum)
    } else if v[from] != '(' || n - from < 2 || v[n - 1] != ')' {
        Err(ColorErrorKind::Brace)
    } else {
        assert(rest.subrange(1, rest.len() - 1) =~= v@.subrange(from + 1, n - 1));
        Ok((from + 1, n - 1))
    }
}

/// Reads the `(n)` of a byte color starting at `from`.
pub fn resolve_byte(v: &Vec<char>, from: usize) -> (r: Result<u8, ColorErrorKind>)
    requires
        from <= v.len(),
    ensures
        r == byte_spec(v@.subrange(from as int, v.len() as int)),
{
    let (a, b) = paren_range(v, from)?;
    match parse_radix(v, a, b, 10, 255) {
        Ok(n) => Ok(n as u8),
        Err(k) => Err(ColorErrorKind::ParseIntError(k)),
    }
}

/// Reads the `(r,g,b)` of an RGB color starting at `from`.
pub fn resolve_rgb(v: &Vec<char>, from: usize) -> (r: Result<(u8, u8, u8), ColorErrorKind>)
    requires
        from <= v.len(),
    ensures
        r == rgb_spec(v@.subrange(from as int, v.len() as int)),
{
    let (a, b) = paren_range(v, from)?;
    let rs = split_commas_ranges(v, a, b);
    let ghost parts = range_views(v@, rs@);
    let mut ns: Vec<u8> = Vec::new();
    let mut k: usize = 0;
    while k < rs.len()
        invariant
            k <= rs.len(),
            parts == range_views(v@, rs@),
            ranges_within(rs@, a as int, b as int),
            b <= v.len(),
            number_parts(parts.take(k as int)) == Ok::<Seq<u8>, IntErrorKind>(ns@),
            parts == split_commas(v@.subrange(a as int, b as int)),
            paren_inner(v@.subrange(from as int, v.len() as int)) == Ok::<Seq<char>, ColorErrorKind>(v@.subrange(a as int, b as int)),
        decreases rs.len() - k,
    {
        let (x, y) = rs[k];
        assert(a <= rs@[k as int].0 <= rs@[k as int].1 <= b);
        assert(parts.take(k + 1).drop_last() =~= parts.take(k as int));
        assert(parts.take(k + 1).last() == v@.subrange(x as int, y as int));
        match parse_radix(v, x, y, 10, 255) {
            Ok(n) => ns.push(n as u8),
            Err(e) => {
                proof {
                    assert(number_parts(parts.take(k + 1)) == Err::<Seq<u8>, IntErrorKind>(e));
                    lemma_number_error_extends(parts, k as int);
                }
                return Err(ColorErrorKind::ParseIntError(e));
            },
        }
        k = k + 1;
    }
    assert(parts.take(rs.len() as int) =~= parts);
    if ns.len() == 3 {
        Ok((ns[0], ns[1], ns[2]))
    } else {
        Err(ColorErrorKind::Len(ns.len()))
    }
}

/// The [`ParseColorError`] of a kind, for the string `s`.
fn color_error(s: &str, k: ColorErrorKind) -> (e: ParseColorError)
    ensures
        color_error_is(e, s@, k),
{
    match k {
        ColorErrorKind::Invalid => ParseColorError::Invalid(s.to_owned()),
        ColorErrorKind::MissingNum => ParseColorError::MissingNum(s.to_owned()),
        ColorErrorKind::Brace => ParseColorError::Brace(s.to_owned()),
        ColorErrorKind::ParseIntError(i) => ParseColorError::ParseIntError(i),
        ColorErrorKind::Len(n) => ParseColorError::Len(n),
    }
}

impl Color {
    /// The color without a number named by the characters `v`.
    fn standard_named(v: &Vec<char>) -> (r: Option<Color>)
        ensures
            r == standard_color_named(v@),
    {
        let n = v.len();
        assert(v@.subrange(0, n as int) =~= v@);
        if is_word(v, 0, n, "BlackFg") { Some(Color::BlackFg) }
        else if is_word(v, 0, n, "RedFg") { Some(Color::RedFg) }
        else if is_word(v, 0, n, "GreenFg") { Some(Color::GreenFg) }
        else if is_word(v, 0, n, "YellowFg") { Some(Color::YellowFg) }
        else if is_word(v, 0, n, "BlueFg") { Some(Color::BlueFg) }
        else if is_word(v, 0, n, "MagentaFg") { Some(Color::MagentaFg) }
        else if is_word(v, 0, n, "CyanFg") { Some(Color::CyanFg) }
        else if is_word(v, 0, n, "WhiteFg") { Some(Color::WhiteFg) }
        else if is_word(v, 0, n, "DefaultFg") { Some(Color::DefaultFg) }
        else if is_word(v, 0, n, "BlackBg") { Some(Color::BlackBg) }
        else if is_word(v, 0, n, "RedBg") { Some(Color::RedBg) }
        else if is_word(v, 0, n, "GreenBg") { Some(Color::GreenBg) }
        else if is_word(v, 0, n, "YellowBg") { Some(Color::YellowBg) }
        else if is_word(v, 0, n, "BlueBg") { Some(Color::BlueBg) }
        else if is_word(v, 0, n, "MagentaBg") { Some(Color::MagentaBg) }
        else if is_word(v, 0, n, "CyanBg") { Some(Color::CyanBg) }
        else if is_word(v, 0, n, "WhiteBg") { Some(Color::WhiteBg) }
        else if is_word(v, 0, n, "DefaultBg") { Some(Color::DefaultBg) }
        else { None }
    }

    /// Reads a color from its name: `RedFg`, `DefaultBg` and the other colors
    /// without a number, or `RgbFg(r,g,b)`, `RgbBg(r,g,b)`, `ByteFg(n)`, `ByteBg(n)`.
    pub fn parse_name(s: &str) -> (r: Result<Color, ParseColorError>)
        ensures
            match color_named(s@) {
                Ok(c) => r == Ok::<Color, ParseColorError>(c),
                Err(k) => r matches Err(e) && color_error_is(e, s@, k),
            },
    {
        let v = chars_of(s);
        let n = v.len();
        if let Some(c) = Color::standard_named(&v) {
            return Ok(c);
        }
        let res = if n >= 5 && is_word(&v, 0, 5, "RgbFg") {
            assert(v@.skip(5) =~= v@.subrange(5, n as int));
            match resolve_rgb(&v, 5) {
                Ok((r, g, b)) => Ok(Color::RgbFg(r, g, b)),
                Err(e) => Err(e),
            }
        } else if n >= 5 && is_word(&v, 0, 5, "RgbBg") {
            assert(v@.skip(5) =~= v@.subrange(5, n as int));
            match resolve_rgb(&v, 5) {
                Ok((r, g, b)) => Ok(Color::RgbBg(r, g, b)),
                Err(e) => Err(e),
            }
        } else if n >= 6 && is_word(&v, 0, 6, "ByteFg") {
            assert(v@.skip(6) =~= v@.subrange(6, n as int));
            match resolve_byte(&v, 6) {
                Ok(b) => Ok(Color::ByteFg(b)),
                Err(e) => Err(e),
            }
        } else if n >= 6 && is_word(&v, 0, 6, "ByteBg") {
            assert(v@.skip(6) =~= v@.subrange(6, n as int));
            match resolve_byte(&v, 6) {
                Ok(b) => Ok(Color::ByteBg(b)),
                Err(e) => Err(e),
            }
        } else {
            Err(ColorErrorKind::Invalid)
        };
        match res {
            Ok(c) => Ok(c),
            Err(k) => Err(color_error(s, k)),
        }
    }
}

impl std::str::FromStr for Color {
    type Err = ParseColorError;

    fn from_str(s: &str) -> (r: Result<Self, Self::Err>)
        ensures
            match color_named(s@) {
                Ok(c) => r == Ok::<Color, ParseColorError>(c),
                Err(k) => r matches Err(e) && color_error_is(e, s@, k),
            },
    {
        Color::parse_name(s)
    }
}

} // verus!
