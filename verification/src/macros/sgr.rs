//! Splitting a format string at its `{Keyword}` arguments.
use vstd::prelude::*;
use vstd::string::*;

use super::parse::{find_char, find_from, is_word, utf8_length};
use crate::text::chars_of;

verus! {

/// The kind of an argument, named as in `{Bold}` or `{RedFg}`.
#[derive(Debug, Clone, Copy, PartialEq, Eq, Structural)]
pub enum ArgKind {
    Reset,
    Bold,
    Dim,
    Italic,
    Underline,
    Blinking,
    Inverse,
    Hidden,
    Strikethrough,
    NotBold,
    NotDim,
    NotItalic,
    NotUnderline,
    NotBlinking,
    NotInverse,
    NotHidden,
    NotStrikethrough,
    BlackFg,
    RedFg,
    GreenFg,
    YellowFg,
    BlueFg,
    MagentaFg,
    CyanFg,
    WhiteFg,
    DefaultFg,
    BlackBg,
    RedBg,
    GreenBg,
    YellowBg,
    BlueBg,
    MagentaBg,
    CyanBg,
    WhiteBg,
    DefaultBg,
}

/// The argument kind named `s`.
pub open spec fn arg_kind_named(s: Seq<char>) -> Option<ArgKind> {
    if s == "Reset"@ { Some(ArgKind::Reset) }
    else if s == "Bold"@ { Some(ArgKind::Bold) }
    else if s == "Dim"@ { Some(ArgKind::Dim) }
    else if s == "Italic"@ { Some(ArgKind::Italic) }
    else if s == "Underline"@ { Some(ArgKind::Underline) }
    else if s == "Blinking"@ { Some(ArgKind::Blinking) }
    else if s == "Inverse"@ { Some(ArgKind::Inverse) }
    else if s == "Hidden"@ { Some(ArgKind::Hidden) }
    else if s == "Strikethrough"@ { Some(ArgKind::Strikethrough) }
    else if s == "NotBold"@ { Some(ArgKind::NotBold) }
    else if s == "NotDim"@ { Some(ArgKind::NotDim) }
    else if s == "NotItalic"@ { Some(ArgKind::NotItalic) }
    else if s == "NotUnderline"@ { Some(ArgKind::NotUnderline) }
    else if s == "NotBlinking"@ { Some(ArgKind::NotBlinking) }
    else if s == "NotInverse"@ { Some(ArgKind::NotInverse) }
    else if s == "NotHidden"@ { Some(ArgKind::NotHidden) }
    else if s == "NotStrikethrough"@ { Some(ArgKind::NotStrikethrough) }
    else if s == "BlackFg"@ { Some(ArgKind::BlackFg) }
    else if s == "RedFg"@ { Some(ArgKind::RedFg) }
    else if s == "GreenFg"@ { Some(ArgKind::GreenFg) }
    else if s == "YellowFg"@ { Some(ArgKind::YellowFg) }
    else if s == "BlueFg"@ { Some(ArgKind::BlueFg) }
    else if s == "MagentaFg"@ { Some(ArgKind::MagentaFg) }
    else if s == "CyanFg"@ { Some(ArgKind::CyanFg) }
    else if s == "WhiteFg"@ { Some(ArgKind::WhiteFg) }
    else if s == "DefaultFg"@ { Some(ArgKind::DefaultFg) }
    else if s == "BlackBg"@ { Some(ArgKind::BlackBg) }
    else if s == "RedBg"@ { Some(ArgKind::RedBg) }
    else if s == "GreenBg"@ { Some(ArgKind::GreenBg) }
    else if s == "YellowBg"@ { Some(ArgKind::YellowBg) }
    else if s == "BlueBg"@ { Some(ArgKind::BlueBg) }
    else if s == "MagentaBg"@ { Some(ArgKind::MagentaBg) }
    else if s == "CyanBg"@ { Some(ArgKind::CyanBg) }
    else if s == "WhiteBg"@ { Some(ArgKind::WhiteBg) }
    else if s == "DefaultBg"@ { Some(ArgKind::DefaultBg) }
    else { None }
}

/// Where an argument stands: the byte offsets of its `{` and its `}`.
#[derive(Debug, Clone, Copy, PartialEq, Eq, Structural)]
pub struct Span {
    start: usize,
    end: usize,
}

impl Span {
    /// The byte offset of the `{`.
    pub closed spec fn start_of(&self) -> usize {
        self.start
    }

    /// The byte offset of the `}`.
    pub closed spec fn end_of(&self) -> usize {
        self.end
    }

    /// The byte offset of the `{`.
    pub fn start(&self) -> (r: usize)
        ensures
            r == self.start_of(),
    {
        self.start
    }

    /// The byte offset of the `}`.
    pub fn end(&self) -> (r: usize)
        ensures
            r == self.end_of(),
    {
        self.end
    }
}

/// An argument: where it stands and its kind.
#[derive(Debug, Clone, Copy, PartialEq, Eq, Structural)]
pub struct SgrArg {
    span: Span,
    kind: ArgKind,
}

impl SgrArg {
    /// The span of the argument.
    pub closed spec fn span_of(&self) -> Span {
        self.span
    }

    /// The kind of the argument.
    pub closed spec fn kind_of(&self) -> ArgKind {
        self.kind
    }

    /// The span of the argument.
    pub fn span(&self) -> (r: Span)
        ensures
            r == self.span_of(),
    {
        self.span
    }

    /// The kind of the argument.
    pub fn kind(&self) -> (r: ArgKind)
        ensures
            r == self.kind_of(),
    {
        self.kind
    }

    /// The argument at `span` named by the characters `v[from..to]`, if it is a keyword.
    pub fn try_from(span: Span, v: &Vec<char>, from: usize, to: usize) -> (r: Result<SgrArg, ()>)
        requires
            from <= to <= v.len(),
        ensures
            match arg_kind_named(v@.subrange(from as int, to as int)) {
                Some(k) => r matches Ok(a) && a.span_of() == span && a.kind_of() == k,
                None => r is Err,
            },
    {
        let kind = if is_word(v, from, to, "Reset") { ArgKind::Reset }
        else if is_word(v, from, to, "Bold") { ArgKind::Bold }
        else if is_word(v, from, to, "Dim") { ArgKind::Dim }
        else if is_word(v, from, to, "Italic") { ArgKind::Italic }
        else if is_word(v, from, to, "Underline") { ArgKind::Underline }
        else if is_word(v, from, to, "Blinking") { ArgKind::Blinking }
        else if is_word(v, from, to, "Inverse") { ArgKind::Inverse }
        else if is_word(v, from, to, "Hidden") { ArgKind::Hidden }
        else if is_word(v, from, to, "Strikethrough") { ArgKind::Strikethrough }
        else if is_word(v, from, to, "NotBold") { ArgKind::NotBold }
        else if is_word(v, from, to, "NotDim") { ArgKind::NotDim }
        else if is_word(v, from, to, "NotItalic") { ArgKind::NotItalic }
        else if is_word(v, from, to, "NotUnderline") { ArgKind::NotUnderline }
        else if is_word(v, from, to, "NotBlinking") { ArgKind::NotBlinking }
        else if is_word(v, from, to, "NotInverse") { ArgKind::NotInverse }
        else if is_word(v, from, to, "NotHidden") { ArgKind::NotHidden }
        else if is_word(v, from, to, "NotStrikethrough") { ArgKind::NotStrikethrough }
        else if is_word(v, from, to, "BlackFg") { ArgKind::BlackFg }
        else if is_word(v, from, to, "RedFg") { ArgKind::RedFg }
        else if is_word(v, from, to, "GreenFg") { ArgKind::GreenFg }
        else if is_word(v, from, to, "YellowFg") { ArgKind::YellowFg }
        else if is_word(v, from, to, "BlueFg") { ArgKind::BlueFg }
        else if is_word(v, from, to, "MagentaFg") { ArgKind::MagentaFg }
        else if is_word(v, from, to, "CyanFg") { ArgKind::CyanFg }
        else if is_word(v, from, to, "WhiteFg") { ArgKind::WhiteFg }
        else if is_word(v, from, to, "DefaultFg") { ArgKind::DefaultFg }
        else if is_word(v, from, to, "BlackBg") { ArgKind::BlackBg }
        else if is_word(v, from, to, "RedBg") { ArgKind::RedBg }
        else if is_word(v, from, to, "GreenBg") { ArgKind::GreenBg }
        else if is_word(v, from, to, "YellowBg") { ArgKind::YellowBg }
        else if is_word(v, from, to, "BlueBg") { ArgKind::BlueBg }
        else if is_word(v, from, to, "MagentaBg") { ArgKind::MagentaBg }
        else if is_word(v, from, to, "CyanBg") { ArgKind::CyanBg }
        else if is_word(v, from, to, "WhiteBg") { ArgKind::WhiteBg }
        else if is_word(v, from, to, "DefaultBg") { ArgKind::DefaultBg }
        else { return Err(()) };
        Ok(SgrArg { span, kind })
    }
}

/// The brace pairs of `s` from index `i` on, as character indices of a `{`
/// and of the first `}` after it; a `{` without a `}` after it ends the search.
pub open spec fn spans_from(s: Seq<char>, i: int) -> Seq<(int, int)>
    decreases s.len() - i,
{
    if i < 0 || i >= s.len() {
        seq![]
    } else {
        match find_from(s, i, '{') {
            None => seq![],
            Some(a) => match find_from(s, a + 1, '}') {
                None => seq![],
                Some(b) => if i <= a < b < s.len() {
                    seq![(a, b)] + spans_from(s, b + 1)
                } else {
                    seq![]
                },
            },
        }
    }
}

/// The byte offset in `s` of the character at index `k`.
pub open spec fn byte_offset(s: Seq<char>, k: int) -> nat {
    utf8_length(s.take(k))
}

/// The pieces of `s` around the brace pairs: before the first, between
/// each two, and after the last; `s` itself when there are none.
pub open spec fn pieces_spec(s: Seq<char>, spans: Seq<(int, int)>) -> Seq<Seq<char>> {
    if spans.len() == 0 {
        seq![s]
    } else {
        Seq::new(spans.len() + 1, |k: int|
            if k == 0 {
                s.subrange(0, spans[0].0)
            } else if k == spans.len() {
                s.subrange(spans[k - 1].1 + 1, s.len() as int)
            } else {
                s.subrange(spans[k - 1].1 + 1, spans[k].0)
            })
    }
}

/// The characters of each string slice.
pub open spec fn str_views<'a>(v: Seq<&'a str>) -> Seq<Seq<char>> {
    v.map_values(|p: &'a str| p@)
}

/// A format string split at its arguments.
#[derive(Debug)]
pub struct SgrArgs<'a> {
    pieces: Vec<&'a str>,
    args: Vec<SgrArg>,
}

impl<'a> SgrArgs<'a> {
    /// The pieces of the string around the arguments.
    pub closed spec fn pieces_view(&self) -> Seq<Seq<char>> {
        str_views(self.pieces@)
    }

    /// The arguments.
    pub closed spec fn args_view(&self) -> Seq<SgrArg> {
        self.args@
    }

    /// The pieces of the string around the arguments.
    pub fn pieces(&self) -> (r: &Vec<&'a str>)
        ensures
            str_views(r@) == self.pieces_view(),
    {
        &self.pieces
    }

    /// The arguments.
    pub fn args(&self) -> (r: &Vec<SgrArg>)
        ensures
            r@ == self.args_view(),
    {
        &self.args
    }
}

/// The pairs of indices as integers.
pub open spec fn int_pairs(r: Seq<(usize, usize)>) -> Seq<(int, int)> {
    r.map_values(|p: (usize, usize)| (p.0 as int, p.1 as int))
}

/// The brace pairs of `v`, as character indices.
fn get_spans(v: &Vec<char>) -> (r: Vec<(usize, usize)>)
    ensures
        int_pairs(r@) == spans_from(v@, 0),
        forall|k: int| 0 <= k < r@.len() ==> (#[trigger] r@[k]).0 < r@[k].1 && r@[k].1 < v.len(),
        forall|k: int| 0 < k < r@.len() ==> r@[k - 1].1 < (#[trigger] r@[k]).0,
{
    let mut r: Vec<(usize, usize)> = Vec::new();
    let mut i: usize = 0;
    assert(int_pairs(r@) + spans_from(v@, 0) =~= spans_from(v@, 0));
    loop
        invariant
            i <= v.len(),
            spans_from(v@, 0) == int_pairs(r@) + spans_from(v@, i as int),
            forall|k: int| 0 <= k < r@.len() ==> (#[trigger] r@[k]).0 < r@[k].1 && r@[k].1 < i,
            forall|k: int| 0 < k < r@.len() ==> r@[k - 1].1 < (#[trigger] r@[k]).0,
        decreases v.len() - i,
    {
        if i >= v.len() {
            assert(int_pairs(r@) + spans_from(v@, i as int)
                =~= int_pairs(r@));
            return r;
        }
        let a = match find_char(v, i, '{') {
            Some(a) => a,
            None => {
                assert(int_pairs(r@) + spans_from(v@, i as int)
                    =~= int_pairs(r@));
                return r;
            },
        };
        let b = match find_char(v, a + 1, '}') {
            Some(b) => b,
            None => {
                assert(int_pairs(r@) + spans_from(v@, i as int)
                    =~= int_pairs(r@));
                return r;
            },
        };
        proof {
            lemma_find_from_at_least(v@, i as int, '{');
        }
        let ghost old_r = r@;
        r.push((a, b));
        assert(int_pairs(r@) =~= int_pairs(old_r).push((a as int, b as int)));
        assert(spans_from(v@, i as int) == seq![(a as int, b as int)] + spans_from(v@, b + 1));
        assert(int_pairs(r@) + spans_from(v@, b + 1) =~=
            int_pairs(old_r) + spans_from(v@, i as int));
        i = b + 1;
    }
}

/// A found index is at or after where the search started.
proof fn lemma_find_from_at_least(s: Seq<char>, from: int, c: char)
    ensures
        find_from(s, from, c) matches Some(k) ==> from <= k,
    decreases s.len() - from,
{
    if 0 <= from < s.len() && s[from] != c {
        lemma_find_from_at_least(s, from + 1, c);
    }
}

/// The byte offsets of the characters of `v`: entry `k` is the offset of character `k`.
fn byte_offsets(v: &Vec<char>) -> (r: Vec<usize>)
    requires
        utf8_length(v@) <= usize::MAX,
    ensures
        r.len() == v.len() + 1,
        forall|k: int| 0 <= k <= v.len() ==> #[trigger] r@[k] == byte_offset(v@, k),
{
    let mut r: Vec<usize> = Vec::new();
    let mut b: usize = 0;
    let mut i: usize = 0;
    proof {
        lemma_utf8_length_prefix_bound(v@, 0);
    }
    assert(v@.take(0) =~= Seq::<char>::empty());
    r.push(0);
    while i < v.len()
        invariant
            i <= v.len(),
            utf8_length(v@) <= usize::MAX,
            r.len() == i + 1,
            b == byte_offset(v@, i as int),
            forall|k: int| 0 <= k <= i ==> #[trigger] r@[k] == byte_offset(v@, k),
        decreases v.len() - i,
    {
        let c = v[i];
        let w: usize = if c <= '\u{7f}' {
            1
        } else if c <= '\u{7ff}' {
            2
        } else if c <= '\u{ffff}' {
            3
        } else {
            4
        };
        assert(v@.take(i + 1).drop_last() =~= v@.take(i as int));
        proof {
            lemma_utf8_length_prefix_bound(v@, i + 1);
        }
        b = b + w;
        i = i + 1;
        r.push(b);
    }
    r
}

/// A prefix takes no more bytes than the whole.
proof fn lemma_utf8_length_prefix_bound(s: Seq<char>, k: int)
    requires
        0 <= k <= s.len(),
    ensures
        utf8_length(s.take(k)) <= utf8_length(s),
    decreases s.len() - k,
{
    if k < s.len() {
        lemma_utf8_length_prefix_bound(s.drop_last(), k);
        assert(s.drop_last().take(k) =~= s.take(k));
        assert(s.take(s.len() as int) =~= s);
    } else {
        assert(s.take(k) =~= s);
    }
}

/// Splits `source` at its `{Keyword}` arguments: the pieces around them and
/// the arguments; `None` when a pair of braces holds something that is not a keyword.
pub fn sgrargs<'a>(source: &'a str) -> (r: Option<SgrArgs<'a>>)
    requires
        utf8_length(source@) <= usize::MAX,
    ensures
        (forall|k: int| 0 <= k < spans_from(source@, 0).len() ==>
            arg_kind_named(#[trigger] source@.subrange(spans_from(source@, 0)[k].0 + 1, spans_from(source@, 0)[k].1)) is Some)
            == r is Some,
        r matches Some(a) ==> {
            let spans = spans_from(source@, 0);
            &&& a.args_view().len() == spans.len()
            &&& forall|k: int| 0 <= k < spans.len() ==> {
                &&& (#[trigger] a.args_view()[k]).kind_of() == arg_kind_named(source@.subrange(spans[k].0 + 1, spans[k].1))->0
                &&& a.args_view()[k].span_of().start_of() == byte_offset(source@, spans[k].0)
                &&& a.args_view()[k].span_of().end_of() == byte_offset(source@, spans[k].1)
            }
            &&& a.pieces_view() == pieces_spec(source@, spans)
        },
{
    let v = chars_of(source);
    let spans = get_spans(&v);
    let ghost sp = spans_from(v@, 0);
    assert(spans@.len() == sp.len());
    assert forall|k: int| 0 <= k < spans@.len() implies spans@[k].0 as int == sp[k].0 && spans@[k].1 as int == sp[k].1 by {
        assert(int_pairs(spans@)[k] == sp[k]);
    }
    let offsets = byte_offsets(&v);
    let mut args: Vec<SgrArg> = Vec::new();
    let mut k: usize = 0;
    while k < spans.len()
        invariant
            k <= spans.len(),
            v@ == source@,
            sp == spans_from(v@, 0),
            spans@.len() == sp.len(),
            offsets.len() == v.len() + 1,
            forall|j: int| 0 <= j <= v.len() ==> #[trigger] offsets@[j] == byte_offset(v@, j),
            forall|j: int| 0 <= j < spans@.len() ==> (#[trigger] spans@[j]).0 < spans@[j].1 && spans@[j].1 < v.len(),
            forall|j: int| 0 <= j < spans@.len() ==> (#[trigger] spans@[j]).0 as int == sp[j].0 && spans@[j].1 as int == sp[j].1,
            args@.len() == k,
            forall|j: int| 0 <= j < k ==> arg_kind_named(#[trigger] source@.subrange(sp[j].0 + 1, sp[j].1)) is Some,
            forall|j: int| 0 <= j < k ==> {
                &&& (#[trigger] args@[j]).kind_of() == arg_kind_named(source@.subrange(sp[j].0 + 1, sp[j].1))->0
                &&& args@[j].span_of().start_of() == byte_offset(source@, sp[j].0)
                &&& args@[j].span_of().end_of() == byte_offset(source@, sp[j].1)
            },
        decreases spans.len() - k,
    {
        let (a, b) = spans[k];
        assert(spans@[k as int].0 < spans@[k as int].1 < v.len());
        let span = Span { start: offsets[a], end: offsets[b] };
        match SgrArg::try_from(span, &v, a + 1, b) {
            Ok(arg) => {
                args.push(arg);
            },
            Err(()) => {
                assert(arg_kind_named(source@.subrange(sp[k as int].0 + 1, sp[k as int].1)) is None);
                return None;
            },
        }
        k = k + 1;
    }
    let mut pieces: Vec<&'a str> = Vec::new();
    if spans.len() == 0 {
        pieces.push(source);
        assert(str_views(pieces@) =~= pieces_spec(source@, sp));
    } else {
        let n = v.len();
        assert(forall|j: int| 0 < j < spans@.len() ==> spans@[j - 1].1 < (#[trigger] spans@[j]).0);
        assert(spans@[0].0 < spans@[0].1 < n);
        pieces.push(source.substring_char(0, spans[0].0));
        let mut j: usize = 1;
        while j < spans.len()
            invariant
                1 <= j <= spans.len(),
                n == v.len(),
                v@ == source@,
                spans@.len() == sp.len(),
                sp.len() > 0,
                forall|i: int| 0 <= i < spans@.len() ==> (#[trigger] spans@[i]).0 < spans@[i].1 && spans@[i].1 < n,
                forall|i: int| 0 < i < spans@.len() ==> spans@[i - 1].1 < (#[trigger] spans@[i]).0,
                forall|i: int| 0 <= i < spans@.len() ==> (#[trigger] spans@[i]).0 as int == sp[i].0 && spans@[i].1 as int == sp[i].1,
                pieces@.len() == j,
                forall|i: int| 0 <= i < j ==> (#[trigger] pieces@[i])@ == pieces_spec(source@, sp)[i],
            decreases spans.len() - j,
        {
            assert(spans@[j - 1].0 < spans@[j - 1].1 < n);
            assert(spans@[j as int].0 < spans@[j as int].1 < n);
            assert(spans@[j - 1].1 < spans@[j as int].0);
            let from = spans[j - 1].1 + 1;
            let to = spans[j].0;
            pieces.push(source.substring_char(from, to));
            j = j + 1;
        }
        assert(spans@[spans.len() - 1].0 < spans@[spans.len() - 1].1 < n);
        let last_end = spans[spans.len() - 1].1;
        pieces.push(source.substring_char(last_end + 1, n));
        assert(str_views(pieces@) =~= pieces_spec(source@, sp));
    }
    Some(SgrArgs { pieces, args })
}

/// The braced arguments at the spans, braces included.
pub open spec fn braced(s: Seq<char>, spans: Seq<(int, int)>) -> Seq<Seq<char>> {
    spans.map_values(|sp: (int, int)| s.subrange(sp.0, sp.1 + 1))
}

/// The first `n` pieces, each followed by its argument.
pub open spec fn joined(pieces: Seq<Seq<char>>, args: Seq<Seq<char>>, n: nat) -> Seq<char>
    decreases n,
{
    if n == 0 {
        seq![]
    } else {
        joined(pieces, args, (n - 1) as nat) + pieces[n - 1] + args[n - 1]
    }
}

/// The pieces with the arguments between them.
pub open spec fn rejoined(pieces: Seq<Seq<char>>, args: Seq<Seq<char>>) -> Seq<char> {
    joined(pieces, args, args.len()) + pieces[args.len() as int]
}

/// Whether the spans are ordered pairs of a `{` and a `}` in `s` from index
/// `i` on, each after the one before it.
pub open spec fn spans_ordered(s: Seq<char>, spans: Seq<(int, int)>, i: int) -> bool {
    &&& forall|k: int| 0 <= k < spans.len() ==> i <= (#[trigger] spans[k]).0 < spans[k].1 < s.len()
    &&& forall|k: int| 0 <= k < spans.len() ==> s[(#[trigger] spans[k]).0] == '{' && s[spans[k].1] == '}'
    &&& forall|k: int| 0 <= k < spans.len() - 1 ==> (#[trigger] spans[k]).1 < spans[k + 1].0
}

proof fn lemma_find_from_holds(s: Seq<char>, from: int, c: char)
    ensures
        find_from(s, from, c) matches Some(k) ==> 0 <= k < s.len() && s[k] == c,
    decreases s.len() - from,
{
    if 0 <= from < s.len() && s[from] != c {
        lemma_find_from_holds(s, from + 1, c);
    }
}

proof fn lemma_spans_ordered(s: Seq<char>, i: int)
    ensures
        spans_ordered(s, spans_from(s, i), i),
    decreases s.len() - i,
{
    if 0 <= i < s.len() {
        if let Some(a) = find_from(s, i, '{') {
            if let Some(b) = find_from(s, a + 1, '}') {
                if i <= a < b < s.len() {
                    lemma_spans_ordered(s, b + 1);
                    lemma_find_from_holds(s, i, '{');
                    lemma_find_from_holds(s, a + 1, '}');
                    let rest = spans_from(s, b + 1);
                    let sp = seq![(a, b)] + rest;
                    assert forall|k: int| 0 <= k < sp.len() implies i <= (#[trigger] sp[k]).0 < sp[k].1 < s.len() by {
                        if k > 0 {
                            assert(sp[k] == rest[k - 1]);
                        }
                    }
                    assert forall|k: int| 0 <= k < sp.len() implies s[(#[trigger] sp[k]).0] == '{' && s[sp[k].1] == '}' by {
                        if k > 0 {
                            assert(sp[k] == rest[k - 1]);
                        }
                    }
                    assert forall|k: int| 0 <= k < sp.len() - 1 implies (#[trigger] sp[k]).1 < sp[k + 1].0 by {
                        assert(sp[k + 1] == rest[k]);
                        if k > 0 {
                            assert(sp[k] == rest[k - 1]);
                        }
                    }
                }
            }
        }
    }
}

proof fn lemma_joined_prefix(s: Seq<char>, spans: Seq<(int, int)>, n: nat)
    requires
        spans.len() > 0,
        n <= spans.len(),
        spans_ordered(s, spans, 0),
    ensures
        joined(pieces_spec(s, spans), braced(s, spans), n)
            == s.subrange(0, if n == 0 { 0 } else { spans[n - 1].1 + 1 }),
    decreases n,
{
    if n > 0 {
        lemma_joined_prefix(s, spans, (n - 1) as nat);
        let m = n - 1;
        let start = if m == 0 { 0 } else { spans[m - 1].1 + 1 };
        let p = pieces_spec(s, spans);
        assert(spans[m] == spans[m]);
        if m > 0 {
            assert(spans[m - 1] == spans[m - 1]);
        }
        assert(p[m] == s.subrange(start, spans[m].0));
        assert(braced(s, spans)[m] == s.subrange(spans[m].0, spans[m].1 + 1));
        assert(s.subrange(0, start) + s.subrange(start, spans[m].0) + s.subrange(spans[m].0, spans[m].1 + 1)
            =~= s.subrange(0, spans[m].1 + 1));
    }
}

/// Splitting a string at its brace pairs loses nothing: there is one more
/// piece than there are arguments, each argument is `{`, the text that names
/// it and `}`, and the pieces with the arguments between them give back the
/// string.
pub proof fn law_pieces_rejoin(s: Seq<char>)
    ensures
        pieces_spec(s, spans_from(s, 0)).len() == spans_from(s, 0).len() + 1,
        forall|k: int| 0 <= k < spans_from(s, 0).len() ==> #[trigger] braced(s, spans_from(s, 0))[k]
            == seq!['{'] + s.subrange(spans_from(s, 0)[k].0 + 1, spans_from(s, 0)[k].1) + seq!['}'],
        rejoined(pieces_spec(s, spans_from(s, 0)), braced(s, spans_from(s, 0))) == s,
{
    let spans = spans_from(s, 0);
    let p = pieces_spec(s, spans);
    lemma_spans_ordered(s, 0);
    assert forall|k: int| 0 <= k < spans.len() implies #[trigger] braced(s, spans)[k]
        == seq!['{'] + s.subrange(spans[k].0 + 1, spans[k].1) + seq!['}'] by {
        let (a, b) = spans[k];
        assert(s[a] == '{' && s[b] == '}');
        assert(s.subrange(a, b + 1) =~= seq!['{'] + s.subrange(a + 1, b) + seq!['}']);
    }
    if spans.len() == 0 {
        assert(joined(p, braced(s, spans), 0) + p[0] =~= s);
    } else {
        lemma_spans_ordered(s, 0);
        let n = spans.len();
        lemma_joined_prefix(s, spans, n);
        assert(spans[n - 1] == spans[n - 1]);
        assert(p[n as int] == s.subrange(spans[n - 1].1 + 1, s.len() as int));
        assert(s.subrange(0, spans[n - 1].1 + 1) + s.subrange(spans[n - 1].1 + 1, s.len() as int) =~= s);
    }
}

} // verus!
