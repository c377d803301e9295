//! Unwrapping string literals and substituting SGR keywords.
use vstd::prelude::*;
use vstd::string::*;

use crate::number::{parse_radix, parse_uint, IntErrorKind};
use crate::text::{append_decimal, chars_of, decimal, escape_chars, push_char};

verus! {

/// The inside of a string literal token: a normal string, or a raw string
/// with the number of `#` on each side.
#[derive(Copy, Clone, Debug, PartialEq, Eq)]
pub enum UnwrappedLiteral<'a> {
    String(&'a str),
    RawString(&'a str, usize),
}

/// The number of `#` at the start of `s`.
pub open spec fn leading_hashes(s: Seq<char>) -> nat
    decreases s.len(),
{
    if s.len() > 0 && s[0] == '#' {
        1 + leading_hashes(s.drop_first())
    } else {
        0
    }
}

/// The number of `#` at the end of `s`.
pub open spec fn trailing_hashes(s: Seq<char>) -> nat
    decreases s.len(),
{
    if s.len() > 0 && s.last() == '#' {
        1 + trailing_hashes(s.drop_last())
    } else {
        0
    }
}

/// `s` without the `#` at both of its ends.
pub open spec fn trim_hashes(s: Seq<char>) -> Seq<char> {
    let l = leading_hashes(s);
    if l == s.len() {
        seq![]
    } else {
        s.subrange(l as int, s.len() - trailing_hashes(s))
    }
}

/// `s` between a first and a last `"`, if it starts and ends with one
/// (two distinct characters).
pub open spec fn between_quotes(s: Seq<char>) -> Option<Seq<char>> {
    if s.len() >= 2 && s[0] == '"' && s.last() == '"' {
        Some(s.subrange(1, s.len() - 1))
    } else {
        None
    }
}

/// What [`unwrap_string`] finds in a literal token, as characters:
/// `Some((content, None))` for a normal string, `Some((content, Some(n)))` for
/// a raw string with `n` hashes on each side.
pub open spec fn unwrap_spec(s: Seq<char>) -> Option<(Seq<char>, Option<nat>)> {
    if s.len() > 0 && s[0] == 'r' {
        let t = s.drop_first();
        let trimmed = trim_hashes(t);
        let diff = (t.len() - trimmed.len()) as nat;
        if diff % 2 == 0 {
            match between_quotes(trimmed) {
                Some(c) => Some((c, Some(diff / 2))),
                None => None,
            }
        } else {
            None
        }
    } else {
        match between_quotes(s) {
            Some(c) => Some((c, None)),
            None => None,
        }
    }
}

/// The characters that an unwrapped literal stands for.
pub open spec fn unwrapped_view(u: UnwrappedLiteral) -> (Seq<char>, Option<nat>) {
    match u {
        UnwrappedLiteral::String(c) => (c@, None),
        UnwrappedLiteral::RawString(c, n) => (c@, Some(n as nat)),
    }
}

fn count_leading_hashes(v: &Vec<char>, from: usize) -> (n: usize)
    requires
        from <= v.len(),
    ensures
        n == leading_hashes(v@.subrange(from as int, v.len() as int)),
        from + n <= v.len(),
{
    let mut k = from;
    while k < v.len() && v[k] == '#'
        invariant
            from <= k <= v.len(),
            forall|j: int| from <= j < k ==> v@[j] == '#',
        decreases v.len() - k,
    {
        k = k + 1;
    }
    proof {
        lemma_leading_run(v@.subrange(from as int, v.len() as int), (k - from) as int);
    }
    k - from
}

proof fn lemma_leading_run(s: Seq<char>, k: int)
    requires
        0 <= k <= s.len(),
        forall|j: int| 0 <= j < k ==> s[j] == '#',
        k < s.len() ==> s[k] != '#',
    ensures
        leading_hashes(s) == k,
    decreases s.len(),
{
    if k > 0 {
        assert forall|j: int| 0 <= j < k - 1 implies s.drop_first()[j] == '#' by {
            assert(s.drop_first()[j] == s[j + 1]);
        }
        if k - 1 < s.drop_first().len() {
            assert(s.drop_first()[k - 1] == s[k]);
        }
        lemma_leading_run(s.drop_first(), k - 1);
    }
}

proof fn lemma_trailing_run(s: Seq<char>, k: int)
    requires
        0 <= k <= s.len(),
        forall|j: int| s.len() - k <= j < s.len() ==> s[j] == '#',
        k < s.len() ==> s[s.len() - k - 1] != '#',
    ensures
        trailing_hashes(s) == k,
    decreases s.len(),
{
    if k > 0 {
        assert forall|j: int| s.drop_last().len() - (k - 1) <= j < s.drop_last().len() implies s.drop_last()[j] == '#' by {
            assert(s.drop_last()[j] == s[j]);
        }
        lemma_trailing_run(s.drop_last(), k - 1);
    }
}

fn count_trailing_hashes(v: &Vec<char>, from: usize) -> (n: usize)
    requires
        from <= v.len(),
    ensures
        n == trailing_hashes(v@.subrange(from as int, v.len() as int)),
        from + n <= v.len(),
{
    let mut k = v.len();
    while k > from && v[k - 1] == '#'
        invariant
            from <= k <= v.len(),
            forall|j: int| k <= j < v.len() ==> v@[j] == '#',
        decreases k,
    {
        k = k - 1;
    }
    proof {
        let s = v@.subrange(from as int, v.len() as int);
        assert forall|j: int| s.len() - (v.len() - k) <= j < s.len() implies s[j] == '#' by {
            assert(s[j] == v@[from + j]);
        }
        lemma_trailing_run(s, (v.len() - k) as int);
    }
    v.len() - k
}

/// Unwraps a string literal token: a normal literal `"..."` gives its
/// content; a raw literal `r#"..."#` gives its content and half the number of
/// `#` around it, when that number is even (the two sides are not compared:
/// `r##"x"` gives `x` with one).
pub fn unwrap_string<'a>(s: &'a str) -> (r: Option<UnwrappedLiteral<'a>>)
    ensures
        match unwrap_spec(s@) {
            None => r is None,
            Some(u) => r matches Some(w) && unwrapped_view(w) == u,
        },
{
    let v = chars_of(s);
    let len = v.len();
    if len > 0 && v[0] == 'r' {
        let ghost t = v@.drop_first();
        assert(t =~= v@.subrange(1, len as int));
        let lead = count_leading_hashes(&v, 1);
        let (from, to) = if 1 + lead == len {
            (len, len)
        } else {
            let trail = count_trailing_hashes(&v, 1);
            proof {
                lemma_runs_disjoint(t, lead as int, trail as int);
            }
            (1 + lead, len - trail)
        };
        let ghost trimmed = trim_hashes(t);
        assert(trimmed =~= v@.subrange(from as int, to as int));
        let diff = (len - 1) - (to - from);
        if diff % 2 != 0 {
            return None;
        }
        if to - from >= 2 && v[from] == '"' && v[to - 1] == '"' {
            let c = s.substring_char(from + 1, to - 1);
            assert(c@ =~= trimmed.subrange(1, trimmed.len() - 1));
            Some(UnwrappedLiteral::RawString(c, diff / 2))
        } else {
            None
        }
    } else {
        if len >= 2 && v[0] == '"' && v[len - 1] == '"' {
            let c = s.substring_char(1, len - 1);
            Some(UnwrappedLiteral::String(c))
        } else {
            None
        }
    }
}

/// When `s` is not all `#`, its leading and trailing runs do not overlap.
proof fn lemma_runs_disjoint(s: Seq<char>, lead: int, trail: int)
    requires
        lead == leading_hashes(s),
        trail == trailing_hashes(s),
        lead != s.len(),
    ensures
        lead + trail < s.len(),
    decreases s.len(),
{
    lemma_leading_bound(s);
    lemma_trailing_bound(s);
    if lead > 0 {
        lemma_runs_disjoint_shift(s, lead, trail);
    } else {
        if trail == s.len() {
            assert(s.len() > 0);
            lemma_trailing_all(s);
            assert(s[0] == '#');
        }
    }
}

proof fn lemma_runs_disjoint_shift(s: Seq<char>, lead: int, trail: int)
    requires
        lead == leading_hashes(s),
        trail == trailing_hashes(s),
        lead != s.len(),
        lead > 0,
    ensures
        lead + trail < s.len(),
{
    lemma_leading_all(s);
    lemma_trailing_all(s);
    lemma_leading_bound(s);
    lemma_trailing_bound(s);
    // s[lead] is not '#', and every index from s.len() - trail is.
    assert(s[lead] != '#');
    if lead + trail >= s.len() {
        assert(s[lead] == '#');
    }
}

proof fn lemma_leading_bound(s: Seq<char>)
    ensures
        leading_hashes(s) <= s.len(),
    decreases s.len(),
{
    if s.len() > 0 && s[0] == '#' {
        lemma_leading_bound(s.drop_first());
    }
}

proof fn lemma_trailing_bound(s: Seq<char>)
    ensures
        trailing_hashes(s) <= s.len(),
    decreases s.len(),
{
    if s.len() > 0 && s.last() == '#' {
        lemma_trailing_bound(s.drop_last());
    }
}

proof fn lemma_leading_all(s: Seq<char>)
    ensures
        forall|j: int| 0 <= j < leading_hashes(s) ==> s[j] == '#',
        leading_hashes(s) < s.len() ==> s[leading_hashes(s) as int] != '#',
    decreases s.len(),
{
    lemma_leading_bound(s);
    if s.len() > 0 && s[0] == '#' {
        lemma_leading_all(s.drop_first());
        assert forall|j: int| 0 <= j < leading_hashes(s) implies s[j] == '#' by {
            if j > 0 {
                assert(s[j] == s.drop_first()[j - 1]);
            }
        }
        if leading_hashes(s) < s.len() {
            assert(s[leading_hashes(s) as int] == s.drop_first()[leading_hashes(s) - 1]);
        }
    }
}

proof fn lemma_trailing_all(s: Seq<char>)
    ensures
        forall|j: int| s.len() - trailing_hashes(s) <= j < s.len() ==> s[j] == '#',
    decreases s.len(),
{
    lemma_trailing_bound(s);
    if s.len() > 0 && s.last() == '#' {
        lemma_trailing_all(s.drop_last());
        assert forall|j: int| s.len() - trailing_hashes(s) <= j < s.len() implies s[j] == '#' by {
            if j < s.len() - 1 {
                assert(s[j] == s.drop_last()[j]);
            }
        }
    }
}

/// `n` copies of `#`.
pub open spec fn hashes(n: nat) -> Seq<char> {
    Seq::new(n, |i: int| '#')
}

/// The raw string literal token with content `s` and `n` hashes on each side.
pub open spec fn raw_literal(s: Seq<char>, n: nat) -> Seq<char> {
    seq!['r'] + hashes(n) + seq!['"'] + s + seq!['"'] + hashes(n)
}

/// Creates a raw string literal token, `r#"..."#`, with `i` hashes on each side.
pub fn create_raw_string(s: &str, i: usize) -> (r: String)
    ensures
        r@ == raw_literal(s@, i as nat),
{
    let mut buf = String::new();
    push_char(&mut buf, 'r');
    let mut k: usize = 0;
    while k < i
        invariant
            k <= i,
            buf@ == seq!['r'] + hashes(k as nat),
        decreases i - k,
    {
        push_char(&mut buf, '#');
        k = k + 1;
        assert(buf@ =~= seq!['r'] + hashes(k as nat));
    }
    push_char(&mut buf, '"');
    buf.append(s);
    push_char(&mut buf, '"');
    let ghost before = buf@;
    let mut k: usize = 0;
    while k < i
        invariant
            k <= i,
            buf@ == before + hashes(k as nat),
        decreases i - k,
    {
        push_char(&mut buf, '#');
        k = k + 1;
        assert(buf@ =~= before + hashes(k as nat));
    }
    assert(buf@ =~= raw_literal(s@, i as nat));
    buf
}

/// Unwrapping the raw literal that [`create_raw_string`] makes gives back its
/// content and its number of hashes.
pub proof fn law_raw_string_roundtrip(s: Seq<char>, n: nat)
    ensures
        unwrap_spec(raw_literal(s, n)) == Some((s, Some(n))),
{
    let lit = raw_literal(s, n);
    let t = lit.drop_first();
    let inner = seq!['"'] + s + seq!['"'];
    assert(t =~= hashes(n) + inner + hashes(n));
    assert forall|j: int| 0 <= j < n implies t[j] == '#' by {}
    assert(t[n as int] == '"');
    lemma_leading_run(t, n as int);
    assert forall|j: int| t.len() - n <= j < t.len() implies t[j] == '#' by {}
    assert(t[t.len() - n - 1] == '"');
    lemma_trailing_run(t, n as int);
    assert(trim_hashes(t) =~= inner);
    assert(((2 * n) as nat) % 2 == 0) by (nonlinear_arith);
    assert(((2 * n) as nat) / 2 == n) by (nonlinear_arith);
    assert(inner.subrange(1, inner.len() - 1) =~= s);
}


/// Why a literal cannot be turned into an SGR string.
#[derive(Debug, Clone, Copy, PartialEq, Eq, Structural)]
pub enum Error {
    /// A number in a color keyword could not be read.
    ParseInt(IntErrorKind),
    /// A keyword block `{[...}` lacks its closing `]`.
    MissingBracket,
    /// A color keyword has a number of parts, or of hex digits, that no color has.
    InvalidColorLen,
    /// The literal holds an escape that is left for the compiler to report.
    CompilerPassOff,
}

/// Another name for [`Error`].
pub type ParseError = Error;

impl From<IntErrorKind> for Error {
    fn from(value: IntErrorKind) -> (r: Self)
        ensures
            r == Error::ParseInt(value),
    {
        Error::ParseInt(value)
    }
}

impl vstd::std_specs::convert::FromSpecImpl<IntErrorKind> for Error {
    open spec fn obeys_from_spec() -> bool {
        true
    }

    open spec fn from_spec(v: IntErrorKind) -> Self {
        Error::ParseInt(v)
    }
}

/// Whether `c` is an ASCII character.
pub open spec fn is_ascii_char(c: char) -> bool {
    c <= '\u{7f}'
}

/// Whether `v` is the value of a character (a Unicode scalar value).
pub open spec fn valid_scalar(v: nat) -> bool {
    v <= 0x10FFFF && !(0xD800 <= v && v <= 0xDFFF)
}

/// The character with value `v`, if there is one.
pub open spec fn scalar_char(v: nat) -> Option<char> {
    if valid_scalar(v) {
        Some(v as char)
    } else {
        None
    }
}

/// The first index at or after `from` where `s` holds `c`.
pub open spec fn find_from(s: Seq<char>, from: int, c: char) -> Option<int>
    decreases s.len() - from,
{
    if from < 0 || from >= s.len() {
        None
    } else if s[from] == c {
        Some(from)
    } else {
        find_from(s, from + 1, c)
    }
}

/// The whitespace that a line-continuation escape skips.
pub open spec fn is_escape_space(c: char) -> bool {
    c == ' ' || c == '\n' || c == '\r' || c == '\t'
}

/// The first index at or after `from` that does not hold such whitespace,
/// or the length of `s`.
pub open spec fn skip_escape_space(s: Seq<char>, from: int) -> int
    decreases s.len() - from,
{
    if from < 0 || from >= s.len() {
        s.len() as int
    } else if !is_escape_space(s[from]) {
        from
    } else {
        skip_escape_space(s, from + 1)
    }
}

/// The character of a `\x..` escape whose two characters start at `q`.
pub open spec fn seven_bit_spec(s: Seq<char>, q: int) -> Option<char> {
    if 0 <= q && q + 1 < s.len() && is_ascii_char(s[q]) && is_ascii_char(s[q + 1]) {
        match parse_uint(seq![s[q], s[q + 1]], 16, 0xFFFF_FFFF) {
            Ok(v) => scalar_char(v),
            Err(_) => None,
        }
    } else {
        None
    }
}

/// The character of a `\u{..}` escape whose `{` stands at `q`, and the index after its `}`.
pub open spec fn unicode_spec(s: Seq<char>, q: int) -> Option<(char, int)> {
    if 0 <= q && q + 1 < s.len() {
        match find_from(s, q + 2, '}') {
            None => None,
            Some(k) => match parse_uint(s.subrange(q + 1, k), 16, 0xFFFF_FFFF) {
                Ok(v) => match scalar_char(v) {
                    Some(c) => Some((c, k + 1)),
                    None => None,
                },
                Err(_) => None,
            },
        }
    } else {
        None
    }
}

/// An escape whose backslash stands just before `p`: the characters it
/// stands for and the index after it.
#[verifier::opaque]
pub open spec fn escape_spec(s: Seq<char>, p: int) -> Result<(Seq<char>, int), Error> {
    if p < 0 || p >= s.len() {
        Err(Error::CompilerPassOff)
    } else {
        let c = s[p];
        if c == '\'' {
            Ok((seq!['\''], p + 1))
        } else if c == '"' {
            Ok((seq!['"'], p + 1))
        } else if c == 'x' {
            match seven_bit_spec(s, p + 1) {
                Some(ch) => Ok((seq![ch], p + 3)),
                None => Err(Error::CompilerPassOff),
            }
        } else if c == 'n' {
            Ok((seq!['\n'], p + 1))
        } else if c == 'r' {
            Ok((seq!['\r'], p + 1))
        } else if c == 't' {
            Ok((seq!['\t'], p + 1))
        } else if c == '\\' {
            Ok((seq!['\\'], p + 1))
        } else if c == '0' {
            Ok((seq!['\0'], p + 1))
        } else if c == 'u' {
            match unicode_spec(s, p + 1) {
                Some((ch, j)) => Ok((seq![ch], j)),
                None => Err(Error::CompilerPassOff),
            }
        } else if c == '\n' {
            Ok((seq![], skip_escape_space(s, p + 1)))
        } else {
            Err(Error::CompilerPassOff)
        }
    }
}

/// Unicode whitespace, as `char::is_whitespace` defines it.
pub open spec fn is_whitespace(c: char) -> bool {
    ||| ('\t' <= c && c <= '\r')
    ||| c == ' '
    ||| c == '\u{85}'
    ||| c == '\u{A0}'
    ||| c == '\u{1680}'
    ||| ('\u{2000}' <= c && c <= '\u{200A}')
    ||| c == '\u{2028}'
    ||| c == '\u{2029}'
    ||| c == '\u{202F}'
    ||| c == '\u{205F}'
    ||| c == '\u{3000}'
}

/// The words of `s`: its maximal runs of characters that are not whitespace.
pub open spec fn words(s: Seq<char>) -> Seq<Seq<char>>
    decreases s.len(),
{
    if s.len() == 0 {
        seq![]
    } else {
        let init = words(s.drop_last());
        let c = s.last();
        if is_whitespace(c) {
            init
        } else if s.len() >= 2 && !is_whitespace(s[s.len() - 2]) {
            init.update(init.len() - 1, init.last().push(c))
        } else {
            init.push(seq![c])
        }
    }
}

/// The pieces of `s` between its commas (one more piece than commas).
pub open spec fn split_commas(s: Seq<char>) -> Seq<Seq<char>>
    decreases s.len(),
{
    if s.len() == 0 {
        seq![seq![]]
    } else {
        let init = split_commas(s.drop_last());
        if s.last() == ',' {
            init.push(seq![])
        } else {
            init.update(init.len() - 1, init.last().push(s.last()))
        }
    }
}

/// The character pieces that index ranges of `v` select.
pub open spec fn range_views(v: Seq<char>, rs: Seq<(usize, usize)>) -> Seq<Seq<char>> {
    rs.map_values(|r: (usize, usize)| v.subrange(r.0 as int, r.1 as int))
}

/// Whether every range is ordered and lies within `lo..hi`.
pub open spec fn ranges_within(rs: Seq<(usize, usize)>, lo: int, hi: int) -> bool {
    forall|k: int| 0 <= k < rs.len() ==> lo <= #[trigger] rs[k].0 <= rs[k].1 <= hi
}

/// The code of a simple keyword.
pub open spec fn common_code(w: Seq<char>) -> Option<u8> {
    if w == "reset"@ { Some(0) }
    else if w == "bold"@ { Some(1) }
    else if w == "dim"@ { Some(2) }
    else if w == "italic"@ { Some(3) }
    else if w == "underline"@ { Some(4) }
    else if w == "blink"@ { Some(5) }
    else if w == "inverse"@ { Some(7) }
    else if w == "hide"@ { Some(8) }
    else if w == "strike"@ { Some(9) }
    else if w == "!bold"@ || w == "!dim"@ { Some(22) }
    else if w == "!italic"@ { Some(23) }
    else if w == "!underline"@ { Some(24) }
    else if w == "!blink"@ { Some(25) }
    else if w == "!inverse"@ { Some(27) }
    else if w == "!hide"@ { Some(28) }
    else if w == "!strike"@ { Some(29) }
    else if w == "black"@ { Some(30) }
    else if w == "red"@ { Some(31) }
    else if w == "green"@ { Some(32) }
    else if w == "yellow"@ { Some(33) }
    else if w == "blue"@ { Some(34) }
    else if w == "magenta"@ { Some(35) }
    else if w == "cyan"@ { Some(36) }
    else if w == "white"@ { Some(37) }
    else if w == "default"@ { Some(39) }
    else if w == "on-black"@ { Some(40) }
    else if w == "on-red"@ { Some(41) }
    else if w == "on-green"@ { Some(42) }
    else if w == "on-yellow"@ { Some(43) }
    else if w == "on-blue"@ { Some(44) }
    else if w == "on-magenta"@ { Some(45) }
    else if w == "on-cyan"@ { Some(46) }
    else if w == "on-white"@ { Some(47) }
    else if w == "on-default"@ { Some(49) }
    else { None }
}

/// The number of bytes that UTF-8 takes for `c`.
pub open spec fn utf8_width(c: char) -> nat {
    if c <= '\u{7f}' {
        1
    } else if c <= '\u{7ff}' {
        2
    } else if c <= '\u{ffff}' {
        3
    } else {
        4
    }
}

/// The number of bytes that UTF-8 takes for `s`.
pub open spec fn utf8_length(s: Seq<char>) -> nat
    decreases s.len(),
{
    if s.len() == 0 {
        0
    } else {
        utf8_length(s.drop_last()) + utf8_width(s.last())
    }
}

/// An 8-bit number in `radix`, as a color component.
pub open spec fn color_part(s: Seq<char>, radix: nat) -> Result<u8, Error> {
    match parse_uint(s, radix, 255) {
        Ok(n) => Ok(n as u8),
        Err(k) => Err(Error::ParseInt(k)),
    }
}

/// The codes after `38;` or `48;` for a 256-color index.
pub open spec fn indexed_codes(n: u8) -> Seq<char> {
    seq!['5', ';'] + decimal(n)
}

/// The codes after `38;` or `48;` for a true color.
pub open spec fn rgb_codes(r: u8, g: u8, b: u8) -> Seq<char> {
    seq!['2', ';'] + decimal(r) + seq![';'] + decimal(g) + seq![';'] + decimal(b)
}

/// A color written in hex after `#`: two digits for a 256-color index, six for
/// a true color, counted in bytes.
pub open spec fn hex_body(h: Seq<char>) -> Result<Seq<char>, Error> {
    let b = utf8_length(h);
    if b == 2 {
        if h.len() == 2 {
            match color_part(h, 16) {
                Ok(n) => Ok(indexed_codes(n)),
                Err(e) => Err(e),
            }
        } else {
            Err(Error::ParseInt(IntErrorKind::InvalidDigit))
        }
    } else if b == 6 {
        if h.len() == 6 {
            match color_part(h.subrange(0, 2), 16) {
                Err(e) => Err(e),
                Ok(r) => match color_part(h.subrange(2, 4), 16) {
                    Err(e) => Err(e),
                    Ok(g) => match color_part(h.subrange(4, 6), 16) {
                        Err(e) => Err(e),
                        Ok(bl) => Ok(rgb_codes(r, g, bl)),
                    },
                },
            }
        } else {
            Err(Error::ParseInt(IntErrorKind::InvalidDigit))
        }
    } else {
        Err(Error::InvalidColorLen)
    }
}

/// The decimal values of the pieces, read in order; the first piece that is
/// not a number decides the error.
pub open spec fn parse_parts(parts: Seq<Seq<char>>) -> Result<Seq<u8>, Error>
    decreases parts.len(),
{
    if parts.len() == 0 {
        Ok(seq![])
    } else {
        match parse_parts(parts.drop_last()) {
            Err(e) => Err(e),
            Ok(a) => match color_part(parts.last(), 10) {
                Err(e) => Err(e),
                Ok(n) => Ok(a.push(n)),
            },
        }
    }
}

/// A color written in decimal: one number for a 256-color index, three
/// numbers separated by commas for a true color.
pub open spec fn decimal_body(r: Seq<char>) -> Result<Seq<char>, Error> {
    match parse_parts(split_commas(r)) {
        Err(e) => Err(e),
        Ok(ns) => if ns.len() == 1 {
            Ok(indexed_codes(ns[0]))
        } else if ns.len() == 3 {
            Ok(rgb_codes(ns[0], ns[1], ns[2]))
        } else {
            Err(Error::InvalidColorLen)
        },
    }
}

/// The codes of a color after its `on-`: hex after `#`, else decimal.
pub open spec fn color_body(rest: Seq<char>) -> Result<Seq<char>, Error> {
    if rest.len() > 0 && rest[0] == '#' {
        hex_body(rest.drop_first())
    } else {
        decimal_body(rest)
    }
}

/// A color keyword: `on-` makes it a background, `#` makes it hex.
pub open spec fn complex_color_spec(w: Seq<char>) -> Result<Seq<char>, Error> {
    let bg = w.len() >= 3 && w[0] == 'o' && w[1] == 'n' && w[2] == '-';
    let rest = if bg { w.skip(3) } else { w };
    let head = if bg { seq!['4', '8', ';'] } else { seq!['3', '8', ';'] };
    match color_body(rest) {
        Ok(b) => Ok(head + b),
        Err(e) => Err(e),
    }
}

/// The codes of one keyword.
pub open spec fn keyword_spec(w: Seq<char>) -> Result<Seq<char>, Error> {
    match common_code(w) {
        Some(n) => Ok(decimal(n)),
        None => complex_color_spec(w),
    }
}

/// The codes of the keywords separated by `;`; the first bad keyword decides the error.
pub open spec fn keywords_spec(ws: Seq<Seq<char>>) -> Result<Seq<char>, Error>
    decreases ws.len(),
{
    if ws.len() == 0 {
        Ok(seq![])
    } else if ws.len() == 1 {
        keyword_spec(ws[0])
    } else {
        match keywords_spec(ws.drop_last()) {
            Err(e) => Err(e),
            Ok(a) => match keyword_spec(ws.last()) {
                Err(e) => Err(e),
                Ok(b) => Ok(a + seq![';'] + b),
            },
        }
    }
}

/// A curly bracket whose `{` stands just before `p`: what it becomes and the index after it.
/// `{}` stays; `{{` stays, or becomes `{` where `merge` is set; `{[...]}` becomes
/// an SGR sequence (`{[]}` the reset); any other `{...}` stays, as does a `{`
/// that is never closed.
#[verifier::opaque]
pub open spec fn param_spec(s: Seq<char>, p: int, merge: bool) -> Result<(Seq<char>, int), Error> {
    if p < 0 || p >= s.len() {
        Ok((seq!['{'], s.len() as int))
    } else {
        let ch = s[p];
        if ch == '}' {
            Ok((seq!['{', '}'], p + 1))
        } else if ch == '{' {
            if merge {
                Ok((seq!['{'], p + 1))
            } else {
                Ok((seq!['{', '{'], p + 1))
            }
        } else {
            match find_from(s, p + 1, '}') {
                None => Ok((seq!['{'] + s.subrange(p, s.len() as int), s.len() as int)),
                Some(k) => if ch == '[' {
                    let content = s.subrange(p + 1, k);
                    if content.len() == 0 || content.last() != ']' {
                        Err(Error::MissingBracket)
                    } else {
                        let ws = words(content.drop_last());
                        if ws.len() == 0 {
                            Ok((escape_chars() + seq!['0', 'm'], k + 1))
                        } else {
                            match keywords_spec(ws) {
                                Ok(b) => Ok((escape_chars() + b + seq!['m'], k + 1)),
                                Err(e) => Err(e),
                            }
                        }
                    }
                } else {
                    Ok((seq!['{'] + s.subrange(p, k + 1), k + 1))
                },
            }
        }
    }
}

/// `o` in front of an output that may have failed.
pub open spec fn prepend(o: Seq<char>, r: Result<Seq<char>, Error>) -> Result<Seq<char>, Error> {
    match r {
        Ok(rest) => Ok(o + rest),
        Err(e) => Err(e),
    }
}

/// One step of reading `s` at index `i`: what the character there (with
/// what follows it, for an escape or a curly bracket) becomes, and the index after it.
pub open spec fn step_spec(s: Seq<char>, i: int, merge: bool) -> Result<(Seq<char>, int), Error> {
    let c = s[i];
    if c == '\\' {
        escape_spec(s, i + 1)
    } else if c == '{' {
        param_spec(s, i + 1, merge)
    } else if c == '}' {
        if i + 1 < s.len() && s[i + 1] == '}' {
            Ok((seq!['}', '}'], i + 2))
        } else {
            Ok((seq!['}'], i + 1))
        }
    } else {
        Ok((seq![c], i + 1))
    }
}

/// The SGR string of `s` from index `i` on: escapes are resolved, keyword
/// blocks become SGR sequences, `}}` stays, and all else is copied.
pub open spec fn sgr_from(s: Seq<char>, i: int, merge: bool) -> Result<Seq<char>, Error>
    decreases s.len() - i,
{
    if i < 0 || i >= s.len() {
        Ok(seq![])
    } else {
        match step_spec(s, i, merge) {
            Err(e) => Err(e),
            Ok((o, j)) => if i < j && j <= s.len() {
                prepend(o, sgr_from(s, j, merge))
            } else {
                Err(Error::CompilerPassOff)
            },
        }
    }
}

/// The SGR string of `s`, with `{{` kept as it is.
pub open spec fn sgr_spec(s: Seq<char>) -> Result<Seq<char>, Error> {
    sgr_from(s, 0, false)
}

/// The SGR string of `s`, with `{{` merged into `{` where `merge` is set.
pub open spec fn sgr_curly_spec(s: Seq<char>, merge: bool) -> Result<Seq<char>, Error> {
    sgr_from(s, 0, merge)
}

/// A result with its string taken by its characters.
pub open spec fn result_view(r: Result<String, Error>) -> Result<Seq<char>, Error> {
    match r {
        Ok(s) => Ok(s@),
        Err(e) => Err(e),
    }
}


pub(crate) fn find_char(v: &Vec<char>, from: usize, c: char) -> (r: Option<usize>)
    ensures
        match find_from(v@, from as int, c) {
            Some(k) => r == Some(k as usize) && from <= k < v.len(),
            None => r is None,
        },
    decreases v.len() - from,
{
    if from >= v.len() {
        None
    } else if v[from] == c {
        Some(from)
    } else {
        find_char(v, from + 1, c)
    }
}

fn skip_space(v: &Vec<char>, from: usize) -> (r: usize)
    ensures
        r == skip_escape_space(v@, from as int),
        from <= v.len() ==> from <= r <= v.len(),
        from > v.len() ==> r == v.len(),
    decreases v.len() - from,
{
    if from >= v.len() {
        v.len()
    } else if !(v[from] == ' ' || v[from] == '\n' || v[from] == '\r' || v[from] == '\t') {
        from
    } else {
        skip_space(v, from + 1)
    }
}

/// The character with value `v`, by the standard library's `char::from_u32`;
/// its contract claims `Some` exactly for the Unicode scalar values (at most
/// `0x10FFFF` and not a surrogate), holding the character of that value.
#[verifier::external_body]
fn char_from_u32(v: u32) -> (r: Option<char>)
    ensures
        r == scalar_char(v as nat),
{
    char::from_u32(v)
}

/// Reads the two characters of a `\x..` escape starting at `q`.
fn parse_7bit(v: &Vec<char>, q: usize) -> (r: Option<char>)
    ensures
        r == seven_bit_spec(v@, q as int),
{
    if q < v.len() && q + 1 < v.len() && v[q] <= '\u{7f}' && v[q + 1] <= '\u{7f}' {
        let h = parse_radix(v, q, q + 2, 16, 0xFFFF_FFFF);
        assert(v@.subrange(q as int, q + 2) =~= seq![v@[q as int], v@[q + 1]]);
        match h {
            Ok(n) => char_from_u32(n),
            Err(_) => None,
        }
    } else {
        None
    }
}

/// Reads a `\u{..}` escape whose `{` stands at `q`: the character and the
/// index after the closing `}`.
fn parse_24bit(v: &Vec<char>, q: usize) -> (r: Option<(char, usize)>)
    ensures
        match unicode_spec(v@, q as int) {
            Some((c, j)) => r == Some((c, j as usize)) && q < j <= v.len(),
            None => r is None,
        },
{
    if q < v.len() && q + 1 < v.len() {
        match find_char(v, q + 2, '}') {
            None => None,
            Some(k) => match parse_radix(v, q + 1, k, 16, 0xFFFF_FFFF) {
                Ok(n) => match char_from_u32(n) {
                    Some(c) => Some((c, k + 1)),
                    None => None,
                },
                Err(_) => None,
            },
        }
    } else {
        None
    }
}

/// Resolves the escape whose backslash stands just before `p`, appending
/// what it stands for to `buf`; returns the index after it.
fn parse_escape(v: &Vec<char>, p: usize, buf: &mut String) -> (r: Result<usize, Error>)
    ensures
        match escape_spec(v@, p as int) {
            Ok((o, j)) => r == Ok::<usize, Error>(j as usize) && final(buf)@ == old(buf)@ + o
                && p < j <= v.len(),
            Err(e) => r == Err::<usize, Error>(e),
        },
{
    reveal(escape_spec);
    if p >= v.len() {
        return Err(Error::CompilerPassOff);
    }
    let c = v[p];
    let ghost start = buf@;
    if c == '\'' {
        push_char(buf, '\'');
        Ok(p + 1)
    } else if c == '"' {
        push_char(buf, '"');
        Ok(p + 1)
    } else if c == 'x' {
        match parse_7bit(v, p + 1) {
            Some(ch) => {
                push_char(buf, ch);
                Ok(p + 3)
            },
            None => Err(Error::CompilerPassOff),
        }
    } else if c == 'n' {
        push_char(buf, '\n');
        Ok(p + 1)
    } else if c == 'r' {
        push_char(buf, '\r');
        Ok(p + 1)
    } else if c == 't' {
        push_char(buf, '\t');
        Ok(p + 1)
    } else if c == '\\' {
        push_char(buf, '\\');
        Ok(p + 1)
    } else if c == '0' {
        push_char(buf, '\0');
        Ok(p + 1)
    } else if c == 'u' {
        match parse_24bit(v, p + 1) {
            Some((ch, j)) => {
                push_char(buf, ch);
                Ok(j)
            },
            None => Err(Error::CompilerPassOff),
        }
    } else if c == '\n' {
        let j = skip_space(v, p + 1);
        assert(buf@ =~= start + seq![]);
        Ok(j)
    } else {
        Err(Error::CompilerPassOff)
    }
}


fn is_whitespace_char(c: char) -> (r: bool)
    ensures
        r == is_whitespace(c),
{
    ('\t' <= c && c <= '\r') || c == ' ' || c == '\u{85}' || c == '\u{A0}' || c == '\u{1680}'
        || ('\u{2000}' <= c && c <= '\u{200A}') || c == '\u{2028}' || c == '\u{2029}'
        || c == '\u{202F}' || c == '\u{205F}' || c == '\u{3000}'
}

/// The index ranges of the words of `v[start..end]`.
fn split_words(v: &Vec<char>, start: usize, end: usize) -> (rs: Vec<(usize, usize)>)
    requires
        start <= end <= v.len(),
    ensures
        range_views(v@, rs@) == words(v@.subrange(start as int, end as int)),
        ranges_within(rs@, start as int, end as int),
{
    let mut rs: Vec<(usize, usize)> = Vec::new();
    let mut in_word = false;
    let mut ws: usize = start;
    let mut i: usize = start;
    while i < end
        invariant
            start <= i <= end <= v.len(),
            in_word ==> start <= ws < i && !is_whitespace(v@[i - 1]),
            !in_word ==> (i == start || is_whitespace(v@[i - 1])),
            ranges_within(rs@, start as int, i as int),
            range_views(v@, if in_word { rs@.push((ws, i)) } else { rs@ })
                == words(v@.subrange(start as int, i as int)),
        decreases end - i,
    {
        let c = v[i];
        let ghost sub = v@.subrange(start as int, i + 1);
        assert(sub.drop_last() =~= v@.subrange(start as int, i as int));
        assert(sub.last() == c);
        let ghost before = if in_word { rs@.push((ws, i)) } else { rs@ };
        if is_whitespace_char(c) {
            if in_word {
                rs.push((ws, i));
                in_word = false;
            }
            assert(range_views(v@, rs@) =~= range_views(v@, before));
        } else {
            if in_word {
                assert(sub[sub.len() - 2] == v@[i - 1]);
                assert(v@.subrange(ws as int, i + 1) =~= v@.subrange(ws as int, i as int).push(c));
                assert(range_views(v@, rs@.push((ws, (i + 1) as usize))) =~= range_views(v@, before).update(
                    range_views(v@, before).len() - 1,
                    range_views(v@, before).last().push(c),
                ));
            } else {
                if i > start {
                    assert(sub[sub.len() - 2] == v@[i - 1]);
                }
                assert(v@.subrange(i as int, i + 1) =~= seq![c]);
                assert(range_views(v@, rs@.push((i, (i + 1) as usize))) =~= range_views(v@, before).push(seq![c]));
                ws = i;
                in_word = true;
            }
        }
        i = i + 1;
    }
    if in_word {
        rs.push((ws, end));
    }
    rs
}

/// The index ranges of the comma separated pieces of `v[start..end]`.
pub(crate) fn split_commas_ranges(v: &Vec<char>, start: usize, end: usize) -> (rs: Vec<(usize, usize)>)
    requires
        start <= end <= v.len(),
    ensures
        range_views(v@, rs@) == split_commas(v@.subrange(start as int, end as int)),
        ranges_within(rs@, start as int, end as int),
{
    let mut rs: Vec<(usize, usize)> = Vec::new();
    let mut cur: usize = start;
    let mut i: usize = start;
    assert(v@.subrange(start as int, start as int) =~= Seq::<char>::empty());
    assert(range_views(v@, rs@.push((cur, i))) =~= seq![seq![]]);
    while i < end
        invariant
            start <= cur <= i <= end <= v.len(),
            ranges_within(rs@, start as int, i as int),
            range_views(v@, rs@.push((cur, i))) == split_commas(v@.subrange(start as int, i as int)),
        decreases end - i,
    {
        let c = v[i];
        let ghost sub = v@.subrange(start as int, i + 1);
        assert(sub.drop_last() =~= v@.subrange(start as int, i as int));
        assert(sub.last() == c);
        let ghost before = range_views(v@, rs@.push((cur, i)));
        if c == ',' {
            rs.push((cur, i));
            cur = i + 1;
            assert(v@.subrange(cur as int, cur as int) =~= Seq::<char>::empty());
            assert(range_views(v@, rs@.push((cur, cur))) =~= before.push(seq![]));
        } else {
            assert(v@.subrange(cur as int, i + 1) =~= v@.subrange(cur as int, i as int).push(c));
            assert(range_views(v@, rs@.push((cur, (i + 1) as usize))) =~= before.update(
                before.len() - 1,
                before.last().push(c),
            ));
        }
        i = i + 1;
    }
    rs.push((cur, end));
    rs
}

/// Whether `v[start..end]` is the word `lit`.
pub(crate) fn is_word(v: &Vec<char>, start: usize, end: usize, lit: &str) -> (r: bool)
    requires
        start <= end <= v.len(),
    ensures
        r == (v@.subrange(start as int, end as int) == lit@),
{
    let w = chars_of(lit);
    if w.len() != end - start {
        return false;
    }
    let mut k: usize = 0;
    while k < w.len()
        invariant
            k <= w.len(),
            w.len() == end - start,
            w@ == lit@,
            start <= end <= v.len(),
            forall|j: int| 0 <= j < k ==> v@[start + j] == w@[j],
        decreases w.len() - k,
    {
        if v[start + k] != w[k] {
            assert(v@.subrange(start as int, end as int)[k as int] != lit@[k as int]);
            return false;
        }
        k = k + 1;
    }
    assert(v@.subrange(start as int, end as int) =~= lit@);
    true
}

/// The code of a simple keyword in `v[start..end]`.
fn parse_common(v: &Vec<char>, start: usize, end: usize) -> (r: Option<u8>)
    requires
        start <= end <= v.len(),
    ensures
        r == common_code(v@.subrange(start as int, end as int)),
{
    if is_word(v, start, end, "reset") { Some(0) }
    else if is_word(v, start, end, "bold") { Some(1) }
    else if is_word(v, start, end, "dim") { Some(2) }
    else if is_word(v, start, end, "italic") { Some(3) }
    else if is_word(v, start, end, "underline") { Some(4) }
    else if is_word(v, start, end, "blink") { Some(5) }
    else if is_word(v, start, end, "inverse") { Some(7) }
    else if is_word(v, start, end, "hide") { Some(8) }
    else if is_word(v, start, end, "strike") { Some(9) }
    else if is_word(v, start, end, "!bold") || is_word(v, start, end, "!dim") { Some(22) }
    else if is_word(v, start, end, "!italic") { Some(23) }
    else if is_word(v, start, end, "!underline") { Some(24) }
    else if is_word(v, start, end, "!blink") { Some(25) }
    else if is_word(v, start, end, "!inverse") { Some(27) }
    else if is_word(v, start, end, "!hide") { Some(28) }
    else if is_word(v, start, end, "!strike") { Some(29) }
    else if is_word(v, start, end, "black") { Some(30) }
    else if is_word(v, start, end, "red") { Some(31) }
    else if is_word(v, start, end, "green") { Some(32) }
    else if is_word(v, start, end, "yellow") { Some(33) }
    else if is_word(v, start, end, "blue") { Some(34) }
    else if is_word(v, start, end, "magenta") { Some(35) }
    else if is_word(v, start, end, "cyan") { Some(36) }
    else if is_word(v, start, end, "white") { Some(37) }
    else if is_word(v, start, end, "default") { Some(39) }
    else if is_word(v, start, end, "on-black") { Some(40) }
    else if is_word(v, start, end, "on-red") { Some(41) }
    else if is_word(v, start, end, "on-green") { Some(42) }
    else if is_word(v, start, end, "on-yellow") { Some(43) }
    else if is_word(v, start, end, "on-blue") { Some(44) }
    else if is_word(v, start, end, "on-magenta") { Some(45) }
    else if is_word(v, start, end, "on-cyan") { Some(46) }
    else if is_word(v, start, end, "on-white") { Some(47) }
    else if is_word(v, start, end, "on-default") { Some(49) }
    else { None }
}

/// The number of bytes that UTF-8 takes for `v[start..end]`, capped at 7.
fn utf8_len_capped(v: &Vec<char>, start: usize, end: usize) -> (n: usize)
    requires
        start <= end <= v.len(),
    ensures
        n == if utf8_length(v@.subrange(start as int, end as int)) > 7 { 7 } else {
            utf8_length(v@.subrange(start as int, end as int))
        },
{
    let mut n: usize = 0;
    let mut i: usize = start;
    while i < end
        invariant
            start <= i <= end <= v.len(),
            n <= 7,
            n == if utf8_length(v@.subrange(start as int, i as int)) > 7 { 7 } else {
                utf8_length(v@.subrange(start as int, i as int))
            },
        decreases end - i,
    {
        let c = v[i];
        let w: usize = if c <= '\u{7f}' {
            1
        } else if c <= '\u{7ff}' {
            2
        } else if c <= '\u{ffff}' {
            3
        } else {
            4
        };
        assert(v@.subrange(start as int, i + 1).drop_last() =~= v@.subrange(start as int, i as int));
        n = if n + w > 7 { 7 } else { n + w };
        i = i + 1;
    }
    n
}

/// Reads `v[start..end]` as an 8-bit color component in `radix`.
fn parse_part(v: &Vec<char>, start: usize, end: usize, radix: u32) -> (r: Result<u8, Error>)
    requires
        start <= end <= v.len(),
        radix == 10 || radix == 16,
    ensures
        r == color_part(v@.subrange(start as int, end as int), radix as nat),
{
    match parse_radix(v, start, end, radix, 255) {
        Ok(n) => Ok(n as u8),
        Err(k) => Err(Error::ParseInt(k)),
    }
}


fn push_indexed(buf: &mut String, n: u8)
    ensures
        final(buf)@ == old(buf)@ + indexed_codes(n),
{
    let ghost start = buf@;
    push_char(buf, '5');
    push_char(buf, ';');
    append_decimal(n, buf);
    assert(buf@ =~= start + indexed_codes(n));
}

fn push_rgb(buf: &mut String, r: u8, g: u8, b: u8)
    ensures
        final(buf)@ == old(buf)@ + rgb_codes(r, g, b),
{
    let ghost start = buf@;
    push_char(buf, '2');
    push_char(buf, ';');
    append_decimal(r, buf);
    push_char(buf, ';');
    append_decimal(g, buf);
    push_char(buf, ';');
    append_decimal(b, buf);
    assert(buf@ =~= start + rgb_codes(r, g, b));
}

/// Appends the codes of a hex color `v[start..end]` (the part after `#`).
fn hex_color(v: &Vec<char>, start: usize, end: usize, buf: &mut String) -> (r: Result<(), Error>)
    requires
        start <= end <= v.len(),
    ensures
        match hex_body(v@.subrange(start as int, end as int)) {
            Ok(o) => r is Ok && final(buf)@ == old(buf)@ + o,
            Err(e) => r == Err::<(), Error>(e),
        },
{
    let ghost h = v@.subrange(start as int, end as int);
    let b = utf8_len_capped(v, start, end);
    if b == 2 {
        if end - start == 2 {
            let n = parse_part(v, start, end, 16)?;
            push_indexed(buf, n);
            Ok(())
        } else {
            Err(Error::ParseInt(IntErrorKind::InvalidDigit))
        }
    } else if b == 6 {
        if end - start == 6 {
            assert(h.subrange(0, 2) =~= v@.subrange(start as int, start + 2));
            assert(h.subrange(2, 4) =~= v@.subrange(start + 2, start + 4));
            assert(h.subrange(4, 6) =~= v@.subrange(start + 4, start + 6));
            let r = parse_part(v, start, start + 2, 16)?;
            let g = parse_part(v, start + 2, start + 4, 16)?;
            let bl = parse_part(v, start + 4, start + 6, 16)?;
            push_rgb(buf, r, g, bl);
            Ok(())
        } else {
            Err(Error::ParseInt(IntErrorKind::InvalidDigit))
        }
    } else {
        Err(Error::InvalidColorLen)
    }
}

/// An error while reading the first pieces is the error of all of them.
proof fn lemma_parts_error_extends(parts: Seq<Seq<char>>, k: int)
    requires
        0 <= k < parts.len(),
        parse_parts(parts.take(k + 1)) is Err,
    ensures
        parse_parts(parts) == parse_parts(parts.take(k + 1)),
    decreases parts.len() - k,
{
    if k + 1 == parts.len() {
        assert(parts.take(k + 1) =~= parts);
    } else {
        assert(parts.drop_last().take(k + 1) =~= parts.take(k + 1));
        lemma_parts_error_extends(parts.drop_last(), k);
    }
}

/// Appends the codes of a decimal color `v[start..end]`.
fn decimal_color(v: &Vec<char>, start: usize, end: usize, buf: &mut String) -> (r: Result<(), Error>)
    requires
        start <= end <= v.len(),
    ensures
        match decimal_body(v@.subrange(start as int, end as int)) {
            Ok(o) => r is Ok && final(buf)@ == old(buf)@ + o,
            Err(e) => r == Err::<(), Error>(e),
        },
{
    let rs = split_commas_ranges(v, start, end);
    let ghost parts = range_views(v@, rs@);
    let mut ns: Vec<u8> = Vec::new();
    let mut k: usize = 0;
    while k < rs.len()
        invariant
            k <= rs.len(),
            parts == range_views(v@, rs@),
            parts == split_commas(v@.subrange(start as int, end as int)),
            ranges_within(rs@, start as int, end as int),
            end <= v.len(),
            parse_parts(parts.take(k as int)) == Ok::<Seq<u8>, Error>(ns@),
        decreases rs.len() - k,
    {
        let (a, b) = rs[k];
        assert(ranges_within(rs@, start as int, end as int));
        assert(start <= rs@[k as int].0 <= rs@[k as int].1 <= end);
        assert(parts.take(k + 1).drop_last() =~= parts.take(k as int));
        assert(parts.take(k + 1).last() == v@.subrange(a as int, b as int));
        match parse_part(v, a, b, 10) {
            Ok(n) => {
                ns.push(n);
            },
            Err(e) => {
                proof {
                    lemma_parts_error_extends(parts, k as int);
                }
                return Err(e);
            },
        }
        k = k + 1;
    }
    assert(parts.take(rs.len() as int) =~= parts);
    if ns.len() == 1 {
        push_indexed(buf, ns[0]);
        Ok(())
    } else if ns.len() == 3 {
        push_rgb(buf, ns[0], ns[1], ns[2]);
        Ok(())
    } else {
        Err(Error::InvalidColorLen)
    }
}

/// Appends the codes of the color `v[start..end]` that follows `on-`, if any.
fn parse_color_body(v: &Vec<char>, start: usize, end: usize, buf: &mut String) -> (r: Result<(), Error>)
    requires
        start <= end <= v.len(),
    ensures
        match color_body(v@.subrange(start as int, end as int)) {
            Ok(o) => r is Ok && final(buf)@ == old(buf)@ + o,
            Err(e) => r == Err::<(), Error>(e),
        },
{
    let ghost rest = v@.subrange(start as int, end as int);
    if start < end && v[start] == '#' {
        assert(rest.drop_first() =~= v@.subrange(start + 1, end as int));
        hex_color(v, start + 1, end, buf)
    } else {
        decimal_color(v, start, end, buf)
    }
}

/// Appends the codes of a color keyword `v[start..end]`, such as `on-15`,
/// `15,115,215`, `#0f` or `on-#0f73d7`.
fn complex_color(v: &Vec<char>, start: usize, end: usize, buf: &mut String) -> (r: Result<(), Error>)
    requires
        start <= end <= v.len(),
    ensures
        match complex_color_spec(v@.subrange(start as int, end as int)) {
            Ok(o) => r is Ok && final(buf)@ == old(buf)@ + o,
            Err(e) => r == Err::<(), Error>(e),
        },
{
    let ghost w = v@.subrange(start as int, end as int);
    let ghost old_buf = buf@;
    let bg = end - start >= 3 && v[start] == 'o' && v[start + 1] == 'n' && v[start + 2] == '-';
    let from = if bg { start + 3 } else { start };
    let ghost rest = v@.subrange(from as int, end as int);
    assert(bg ==> rest =~= w.skip(3));
    assert(!bg ==> rest =~= w);
    let mut body = String::new();
    match parse_color_body(v, from, end, &mut body) {
        Ok(()) => {
            if bg {
                push_char(buf, '4');
            } else {
                push_char(buf, '3');
            }
            push_char(buf, '8');
            push_char(buf, ';');
            buf.append(body.as_str());
            assert(buf@ =~= old_buf + (if bg { seq!['4', '8', ';'] } else { seq!['3', '8', ';'] }) + body@);
            Ok(())
        },
        Err(e) => Err(e),
    }
}

/// Appends the codes of the keyword `v[start..end]`.
fn parse_sgr(v: &Vec<char>, start: usize, end: usize, buf: &mut String) -> (r: Result<(), Error>)
    requires
        start <= end <= v.len(),
    ensures
        match keyword_spec(v@.subrange(start as int, end as int)) {
            Ok(o) => r is Ok && final(buf)@ == old(buf)@ + o,
            Err(e) => r == Err::<(), Error>(e),
        },
{
    match parse_common(v, start, end) {
        Some(n) => {
            append_decimal(n, buf);
            Ok(())
        },
        None => complex_color(v, start, end, buf),
    }
}

/// An error in the first keywords is the error of all of them.
proof fn lemma_keywords_error_extends(ws: Seq<Seq<char>>, k: int)
    requires
        0 <= k < ws.len(),
        keywords_spec(ws.take(k + 1)) is Err,
    ensures
        keywords_spec(ws) == keywords_spec(ws.take(k + 1)),
    decreases ws.len() - k,
{
    if k + 1 == ws.len() {
        assert(ws.take(k + 1) =~= ws);
    } else {
        assert(ws.drop_last().take(k + 1) =~= ws.take(k + 1));
        lemma_keywords_error_extends(ws.drop_last(), k);
    }
}

/// Appends the codes of the keywords at the ranges, separated by `;`.
fn parse_keywords(v: &Vec<char>, rs: &Vec<(usize, usize)>, buf: &mut String) -> (r: Result<(), Error>)
    requires
        ranges_within(rs@, 0, v.len() as int),
    ensures
        match keywords_spec(range_views(v@, rs@)) {
            Ok(o) => r is Ok && final(buf)@ == old(buf)@ + o,
            Err(e) => r == Err::<(), Error>(e),
        },
{
    let ghost ws = range_views(v@, rs@);
    let ghost old_buf = buf@;
    let mut k: usize = 0;
    assert(ws.take(0) =~= Seq::<Seq<char>>::empty());
    while k < rs.len()
        invariant
            k <= rs.len(),
            ws == range_views(v@, rs@),
            ranges_within(rs@, 0, v.len() as int),
            keywords_spec(ws.take(k as int)) matches Ok(o) && buf@ == old_buf + o,
        decreases rs.len() - k,
    {
        let (a, b) = rs[k];
        assert(0 <= rs@[k as int].0 <= rs@[k as int].1 <= v.len());
        let ghost prev = buf@;
        assert(ws.take(k + 1).drop_last() =~= ws.take(k as int));
        assert(ws.take(k + 1).last() == v@.subrange(a as int, b as int));
        if k > 0 {
            push_char(buf, ';');
        }
        match parse_sgr(v, a, b, buf) {
            Ok(()) => {
                if k == 0 {
                    assert(ws.take(1) =~= seq![ws[0]]);
                }
                assert(keywords_spec(ws.take(k + 1)) matches Ok(o) && buf@ =~= old_buf + o);
            },
            Err(e) => {
                proof {
                    if k == 0 {
                        assert(ws.take(1) =~= seq![ws[0]]);
                    }
                    lemma_keywords_error_extends(ws, k as int);
                }
                return Err(e);
            },
        }
        k = k + 1;
    }
    assert(ws.take(rs.len() as int) =~= ws);
    Ok(())
}


/// Appends the characters `v[start..end]`.
fn push_range(v: &Vec<char>, start: usize, end: usize, buf: &mut String)
    requires
        start <= end <= v.len(),
    ensures
        final(buf)@ == old(buf)@ + v@.subrange(start as int, end as int),
{
    let ghost old_buf = buf@;
    let mut i = start;
    while i < end
        invariant
            start <= i <= end <= v.len(),
            buf@ == old_buf + v@.subrange(start as int, i as int),
        decreases end - i,
    {
        push_char(buf, v[i]);
        i = i + 1;
        assert(buf@ =~= old_buf + v@.subrange(start as int, i as int));
    }
}

/// Handles the curly bracket whose `{` stands just before `p`, appending what
/// it becomes to `buf`; returns the index after it.
#[verifier::rlimit(40)]
fn parse_param(v: &Vec<char>, p: usize, merge: bool, buf: &mut String) -> (r: Result<usize, Error>)
    requires
        0 < p <= v.len(),
    ensures
        match param_spec(v@, p as int, merge) {
            Ok((o, j)) => r == Ok::<usize, Error>(j as usize) && final(buf)@ == old(buf)@ + o
                && p <= j <= v.len(),
            Err(e) => r == Err::<usize, Error>(e),
        },
{
    reveal(param_spec);
    let ghost old_buf = buf@;
    if p >= v.len() {
        push_char(buf, '{');
        return Ok(v.len());
    }
    let ch = v[p];
    if ch == '}' {
        push_char(buf, '{');
        push_char(buf, '}');
        assert(buf@ =~= old_buf + seq!['{', '}']);
        return Ok(p + 1);
    }
    if ch == '{' {
        push_char(buf, '{');
        if !merge {
            push_char(buf, '{');
            assert(buf@ =~= old_buf + seq!['{', '{']);
        }
        return Ok(p + 1);
    }
    match find_char(v, p + 1, '}') {
        None => {
            push_char(buf, '{');
            push_range(v, p, v.len(), buf);
            assert(buf@ =~= old_buf + (seq!['{'] + v@.subrange(p as int, v.len() as int)));
            Ok(v.len())
        },
        Some(k) => {
            if ch == '[' {
                let ghost content = v@.subrange(p + 1, k as int);
                if k == p + 1 || v[k - 1] != ']' {
                    return Err(Error::MissingBracket);
                }
                assert(content.drop_last() =~= v@.subrange(p + 1, k - 1));
                let rs = split_words(v, p + 1, k - 1);
                let mut codes = String::new();
                if rs.len() == 0 {
                    push_char(buf, '\u{1b}');
                    push_char(buf, '[');
                    push_char(buf, '0');
                    push_char(buf, 'm');
                    assert(buf@ =~= old_buf + (escape_chars() + seq!['0', 'm']));
                    Ok(k + 1)
                } else {
                    match parse_keywords(v, &rs, &mut codes) {
                        Ok(()) => {
                            push_char(buf, '\u{1b}');
                            push_char(buf, '[');
                            buf.append(codes.as_str());
                            push_char(buf, 'm');
                            assert(buf@ =~= old_buf + (escape_chars() + codes@ + seq!['m']));
                            Ok(k + 1)
                        },
                        Err(e) => Err(e),
                    }
                }
            } else {
                push_char(buf, '{');
                push_range(v, p, k + 1, buf);
                assert(buf@ =~= old_buf + (seq!['{'] + v@.subrange(p as int, k + 1)));
                Ok(k + 1)
            }
        },
    }
}

/// Unfolding the output in front of the rest of a string.
proof fn lemma_prepend_assoc(a: Seq<char>, b: Seq<char>, r: Result<Seq<char>, Error>)
    ensures
        prepend(a, prepend(b, r)) == prepend(a + b, r),
{
    if let Ok(x) = r {
        assert(a + (b + x) =~= (a + b) + x);
    }
}

/// Reads one step at index `i`, appending its output to `buf`; returns the
/// index after it.
fn sgr_step(v: &Vec<char>, i: usize, merge: bool, buf: &mut String) -> (r: Result<usize, Error>)
    requires
        i < v.len(),
    ensures
        match step_spec(v@, i as int, merge) {
            Ok((o, j)) => r == Ok::<usize, Error>(j as usize) && final(buf)@ == old(buf)@ + o
                && i < j <= v.len(),
            Err(e) => r == Err::<usize, Error>(e),
        },
{
    let c = v[i];
    let ghost before = buf@;
    if c == '\\' {
        parse_escape(v, i + 1, buf)
    } else if c == '{' {
        parse_param(v, i + 1, merge, buf)
    } else if c == '}' {
        if i + 1 < v.len() && v[i + 1] == '}' {
            push_char(buf, '}');
            push_char(buf, '}');
            assert(buf@ =~= before + seq!['}', '}']);
            Ok(i + 2)
        } else {
            push_char(buf, '}');
            Ok(i + 1)
        }
    } else {
        push_char(buf, c);
        Ok(i + 1)
    }
}

/// Removes the escapes of a string literal's content and replaces its SGR
/// keyword blocks, such as `{[bold red]}`, by SGR sequences; `{{` is kept.
///
/// Errors come from a bad escape (left for the compiler to report; so is a
/// `\x` escape with a character that is not ASCII), a keyword block without
/// its `]`, and a keyword that is neither simple nor a color (a hex color with
/// a character that is not ASCII is an invalid digit).
pub fn sgr_string(s: &str) -> (r: Result<String, Error>)
    ensures
        result_view(r) == sgr_spec(s@),
{
    sgr_string_curly(s, false)
}

/// As [`sgr_string`], with `{{` merged into `{` where `merge_curly` is set,
/// and kept as `{{` where it is not. The expansions of the macros keep `{{`
/// (see [`super::expand::build_macro`]).
pub fn sgr_string_curly(s: &str, merge_curly: bool) -> (r: Result<String, Error>)
    ensures
        result_view(r) == sgr_curly_spec(s@, merge_curly),
{
    let v = chars_of(s);
    let mut buf = String::new();
    let mut i: usize = 0;
    assert(sgr_from(v@, 0, merge_curly) == prepend(buf@, sgr_from(v@, 0, merge_curly))) by {
        if let Ok(x) = sgr_from(v@, 0, merge_curly) {
            assert(buf@ + x =~= x);
        }
    }
    while i < v.len()
        invariant
            i <= v.len(),
            v@ == s@,
            sgr_from(v@, 0, merge_curly) == prepend(buf@, sgr_from(v@, i as int, merge_curly)),
        decreases v.len() - i,
    {
        let ghost before = buf@;
        match sgr_step(&v, i, merge_curly, &mut buf) {
            Ok(j) => {
                proof {
                    if let Ok((o, k)) = step_spec(v@, i as int, merge_curly) {
                        lemma_prepend_assoc(before, o, sgr_from(v@, k, merge_curly));
                    }
                }
                i = j;
            },
            Err(e) => {
                return Err(e);
            },
        }
    }
    assert(sgr_from(v@, i as int, merge_curly) == Ok::<Seq<char>, Error>(seq![]));
    assert(buf@ + seq![] =~= buf@);
    Ok(buf)
}

} // verus!
