//! What the keyword syntax promises of every string: plain text is kept, a
//! keyword block becomes one SGR sequence, a simple keyword becomes its code,
//! a color keyword means the same written in hex or in decimal, a color
//! with the wrong number of digits or parts fails, hex escapes read their
//! digits high first, and each simple keyword means the code of the style or
//! color of the same name.
use vstd::prelude::*;

use super::parse::{
    color_body, complex_color_spec, is_whitespace, decimal_body, find_from, hex_body, indexed_codes, keyword_spec,
    keywords_spec, param_spec, parse_parts, rgb_codes, sgr_curly_spec, sgr_from, split_commas,
    step_spec, utf8_length, utf8_width, words, color_part, common_code, Error, escape_spec,
    seven_bit_spec, unicode_spec,
};
use crate::number::{digit_value, digits_value, parse_uint};
use crate::discrete::{color_codes, style_code, Color, Style};
use crate::text::{decimal, digit_char, escape_chars};

verus! {

/// Whether `s` holds no character that the keyword syntax reads: no `\`,
/// `{` or `}`.
pub open spec fn is_plain(s: Seq<char>) -> bool {
    forall|i: int| 0 <= i < s.len() ==> #[trigger] s[i] != '\\' && s[i] != '{' && s[i] != '}'
}

proof fn lemma_plain_from(s: Seq<char>, i: int, merge: bool)
    requires
        is_plain(s),
        0 <= i <= s.len(),
    ensures
        sgr_from(s, i, merge) == Ok::<Seq<char>, Error>(s.subrange(i, s.len() as int)),
    decreases s.len() - i,
{
    if i < s.len() {
        lemma_plain_from(s, i + 1, merge);
        assert(s[i] != '\\' && s[i] != '{' && s[i] != '}');
        assert(step_spec(s, i, merge) == Ok::<(Seq<char>, int), Error>((seq![s[i]], i + 1)));
        assert(seq![s[i]] + s.subrange(i + 1, s.len() as int) =~= s.subrange(i, s.len() as int));
    } else {
        assert(s.subrange(i, s.len() as int) =~= Seq::<char>::empty());
    }
}

/// Text without `\`, `{` or `}` comes out of the keyword syntax unchanged,
/// whatever is done with `{{`.
pub proof fn law_plain_text_unchanged(s: Seq<char>, merge: bool)
    requires
        is_plain(s),
    ensures
        sgr_curly_spec(s, merge) == Ok::<Seq<char>, Error>(s),
{
    lemma_plain_from(s, 0, merge);
    assert(s.subrange(0, s.len() as int) =~= s);
}

proof fn lemma_find_first(s: Seq<char>, from: int, c: char, at: int)
    requires
        0 <= from <= at < s.len(),
        s[at] == c,
        forall|k: int| from <= k < at ==> s[k] != c,
    ensures
        find_from(s, from, c) == Some(at),
    decreases at - from,
{
    if from < at {
        lemma_find_first(s, from + 1, c, at);
    }
}

/// The codes that a keyword block with this content between its brackets
/// becomes: the reset where it holds no word, else the codes of its words.
pub open spec fn block_codes(body: Seq<char>) -> Result<Seq<char>, Error> {
    let ws = words(body);
    if ws.len() == 0 {
        Ok(escape_chars() + seq!['0', 'm'])
    } else {
        match keywords_spec(ws) {
            Ok(b) => Ok(escape_chars() + b + seq!['m']),
            Err(e) => Err(e),
        }
    }
}

/// A keyword block `{[...]}` becomes one SGR sequence: `\x1b[`, the codes of
/// its words separated by `;`, and `m`; with no words, the reset `\x1b[0m`.
/// A bad keyword makes the whole string fail.
pub proof fn law_keyword_block(body: Seq<char>, merge: bool)
    requires
        forall|i: int| 0 <= i < body.len() ==> body[i] != '}',
    ensures
        sgr_curly_spec(seq!['{', '['] + body + seq![']', '}'], merge) == block_codes(body),
{
    let s = seq!['{', '['] + body + seq![']', '}'];
    let n = s.len() as int;
    assert forall|k: int| 2 <= k < n - 1 implies s[k] != '}' by {
        if k < n - 2 {
            assert(s[k] == body[k - 2]);
        }
    }
    lemma_find_first(s, 2, '}', n - 1);
    let content = s.subrange(2, n - 1);
    assert(content =~= body.push(']'));
    assert(content.drop_last() =~= body);
    reveal(param_spec);
    assert(step_spec(s, 0, merge) == param_spec(s, 1, merge));
    match block_codes(body) {
        Ok(o) => {
            assert(param_spec(s, 1, merge) == Ok::<(Seq<char>, int), Error>((o, n)));
            assert(sgr_from(s, n, merge) == Ok::<Seq<char>, Error>(seq![]));
            assert(o + seq![] =~= o);
        },
        Err(e) => {
            assert(param_spec(s, 1, merge) == Err::<(Seq<char>, int), Error>(e));
        },
    }
}

/// The lowercase hex digit of `d`, for `d < 16`.
pub open spec fn hex_digit(d: nat) -> char {
    if d < 10 {
        (48 + d) as char
    } else {
        (87 + d) as char
    }
}

/// The two hex digits of `n`.
pub open spec fn hex_pair(n: u8) -> Seq<char> {
    seq![hex_digit((n / 16) as nat), hex_digit((n % 16) as nat)]
}

/// A color keyword with this body, after `on-` for a background.
pub open spec fn color_word(background: bool, body: Seq<char>) -> Seq<char> {
    if background {
        seq!['o', 'n', '-'] + body
    } else {
        body
    }
}

/// The first code of a foreground or a background color.
pub open spec fn color_head(background: bool) -> Seq<char> {
    if background {
        seq!['4', '8', ';']
    } else {
        seq!['3', '8', ';']
    }
}

proof fn lemma_digit(d: nat, radix: nat)
    requires
        d < 10,
        d < radix,
    ensures
        digit_value(digit_char(d as int), radix) == Some(d),
        digit_value(hex_digit(d), radix) == Some(d),
{
}

proof fn lemma_hex_letter(d: nat)
    requires
        10 <= d < 16,
    ensures
        digit_value(hex_digit(d), 16) == Some(d),
{
}

proof fn lemma_parse_decimal(n: u8)
    ensures
        parse_uint(decimal(n), 10, 255) == Ok::<nat, crate::number::IntErrorKind>(n as nat),
        color_part(decimal(n), 10) == Ok::<u8, Error>(n),
{
    let d = decimal(n);
    let e = Seq::<char>::empty();
    assert(digits_value(e, 10, 255) == Ok::<nat, crate::number::IntErrorKind>(0));
    if n >= 100 {
        let (x, y, z) = ((n / 100) as nat, ((n / 10) % 10) as nat, (n % 10) as nat);
        lemma_digit(x, 10);
        lemma_digit(y, 10);
        lemma_digit(z, 10);
        let d1 = seq![digit_char(x as int)];
        let d2 = seq![digit_char(x as int), digit_char(y as int)];
        assert(d1.drop_last() =~= e);
        assert(digits_value(d1, 10, 255) == Ok::<nat, crate::number::IntErrorKind>(x));
        assert(d2.drop_last() =~= d1);
        assert(digits_value(d2, 10, 255) == Ok::<nat, crate::number::IntErrorKind>(x * 10 + y));
        assert(d.drop_last() =~= d2);
        assert((x * 10 + y) * 10 + z == n as nat);
        assert(digits_value(d, 10, 255) == Ok::<nat, crate::number::IntErrorKind>(n as nat));
    } else if n >= 10 {
        let (y, z) = ((n / 10) as nat, (n % 10) as nat);
        lemma_digit(y, 10);
        lemma_digit(z, 10);
        let d1 = seq![digit_char(y as int)];
        assert(d1.drop_last() =~= e);
        assert(digits_value(d1, 10, 255) == Ok::<nat, crate::number::IntErrorKind>(y));
        assert(d.drop_last() =~= d1);
        assert(digits_value(d, 10, 255) == Ok::<nat, crate::number::IntErrorKind>(n as nat));
    } else {
        lemma_digit(n as nat, 10);
        assert(d.drop_last() =~= e);
        assert(digits_value(d, 10, 255) == Ok::<nat, crate::number::IntErrorKind>(n as nat));
    }
}

proof fn lemma_hex_digit_value(d: nat)
    requires
        d < 16,
    ensures
        digit_value(hex_digit(d), 16) == Some(d),
        hex_digit(d) <= '\u{7f}',
        hex_digit(d) != ',' && hex_digit(d) != '#',
{
    if d < 10 {
        lemma_digit(d, 16);
    } else {
        lemma_hex_letter(d);
    }
}

proof fn lemma_parse_hex(n: u8)
    ensures
        color_part(hex_pair(n), 16) == Ok::<u8, Error>(n),
{
    let h = hex_pair(n);
    lemma_hex_digit_value((n / 16) as nat);
    lemma_hex_digit_value((n % 16) as nat);
    let e = Seq::<char>::empty();
    let h1 = seq![hex_digit((n / 16) as nat)];
    assert(digits_value(e, 16, 255) == Ok::<nat, crate::number::IntErrorKind>(0));
    assert(h1.drop_last() =~= e);
    assert(digits_value(h1, 16, 255) == Ok::<nat, crate::number::IntErrorKind>((n / 16) as nat));
    assert(h.drop_last() =~= h1);
    assert(digits_value(h, 16, 255) == Ok::<nat, crate::number::IntErrorKind>(n as nat));
}

proof fn lemma_utf8_ascii(s: Seq<char>)
    requires
        forall|i: int| 0 <= i < s.len() ==> #[trigger] s[i] <= '\u{7f}',
    ensures
        utf8_length(s) == s.len(),
    decreases s.len(),
{
    if s.len() > 0 {
        assert(s.last() == s[s.len() - 1]);
        lemma_utf8_ascii(s.drop_last());
    }
}

proof fn lemma_no_comma(s: Seq<char>)
    requires
        forall|i: int| 0 <= i < s.len() ==> #[trigger] s[i] != ',',
    ensures
        split_commas(s) == seq![s],
    decreases s.len(),
{
    if s.len() > 0 {
        assert(s.last() == s[s.len() - 1]);
        lemma_no_comma(s.drop_last());
        assert(s.drop_last().push(s.last()) =~= s);
    } else {
        assert(s =~= Seq::<char>::empty());
    }
}

proof fn lemma_split_nonempty(s: Seq<char>)
    ensures
        split_commas(s).len() >= 1,
    decreases s.len(),
{
    if s.len() > 0 {
        lemma_split_nonempty(s.drop_last());
    }
}

proof fn lemma_split_at_comma(x: Seq<char>, y: Seq<char>)
    ensures
        split_commas(x + seq![','] + y) == split_commas(x) + split_commas(y),
    decreases y.len(),
{
    let xc = x + seq![','];
    if y.len() == 0 {
        assert(xc + y =~= xc);
        assert(xc.drop_last() =~= x);
        assert(split_commas(x) + split_commas(y) =~= split_commas(x).push(seq![]));
    } else {
        let y0 = y.drop_last();
        assert((xc + y).drop_last() =~= xc + y0);
        assert((xc + y).last() == y.last());
        lemma_split_at_comma(x, y0);
        lemma_split_nonempty(y0);
        if y.last() == ',' {
            assert(split_commas(x) + split_commas(y) =~= (split_commas(x) + split_commas(y0)).push(seq![]));
        } else {
            let a = split_commas(x);
            let b = split_commas(y0);
            assert((a + b).update((a + b).len() - 1, (a + b).last().push(y.last()))
                =~= a + b.update(b.len() - 1, b.last().push(y.last())));
        }
    }
}

proof fn lemma_decimal_chars(n: u8)
    ensures
        forall|i: int| 0 <= i < decimal(n).len() ==>
            '0' <= #[trigger] decimal(n)[i] <= '9' && decimal(n)[i] != ',' && decimal(n)[i] != '#',
        decimal(n).len() > 0,
{
}

/// `common_code` knows no keyword with a digit or `#` at the start or after `on-`.
proof fn lemma_not_common(w: Seq<char>, i: int)
    requires
        i == 0 || i == 3,
        0 <= i < w.len(),
        ('0' <= w[i] <= '9') || w[i] == '#',
    ensures
        common_code(w) is None,
{
    reveal_strlit("reset");
    reveal_strlit("bold");
    reveal_strlit("dim");
    reveal_strlit("italic");
    reveal_strlit("underline");
    reveal_strlit("blink");
    reveal_strlit("inverse");
    reveal_strlit("hide");
    reveal_strlit("strike");
    reveal_strlit("!bold");
    reveal_strlit("!dim");
    reveal_strlit("!italic");
    reveal_strlit("!underline");
    reveal_strlit("!blink");
    reveal_strlit("!inverse");
    reveal_strlit("!hide");
    reveal_strlit("!strike");
    reveal_strlit("black");
    reveal_strlit("red");
    reveal_strlit("green");
    reveal_strlit("yellow");
    reveal_strlit("blue");
    reveal_strlit("magenta");
    reveal_strlit("cyan");
    reveal_strlit("white");
    reveal_strlit("default");
    reveal_strlit("on-black");
    reveal_strlit("on-red");
    reveal_strlit("on-green");
    reveal_strlit("on-yellow");
    reveal_strlit("on-blue");
    reveal_strlit("on-magenta");
    reveal_strlit("on-cyan");
    reveal_strlit("on-white");
    reveal_strlit("on-default");
}

/// The codes of a color keyword are those of its body after the head.
proof fn lemma_color_word(background: bool, body: Seq<char>)
    requires
        body.len() > 0,
        ('0' <= body[0] <= '9') || body[0] == '#',
    ensures
        keyword_spec(color_word(background, body)) == match color_body(body) {
            Ok(b) => Ok::<Seq<char>, Error>(color_head(background) + b),
            Err(e) => Err(e),
        },
{
    let w = color_word(background, body);
    if background {
        assert(w[3] == body[0]);
        lemma_not_common(w, 3);
        assert(w.skip(3) =~= body);
    } else {
        lemma_not_common(w, 0);
    }
    assert(keyword_spec(w) == complex_color_spec(w));
}

/// A 256-color index means the same written in hex after `#` (two digits) as
/// written in decimal: `38;5;n`, or `48;5;n` after `on-`.
pub proof fn law_hex_index(n: u8, background: bool)
    ensures
        keyword_spec(color_word(background, seq!['#'] + hex_pair(n)))
            == Ok::<Seq<char>, Error>(color_head(background) + indexed_codes(n)),
        keyword_spec(color_word(background, decimal(n)))
            == Ok::<Seq<char>, Error>(color_head(background) + indexed_codes(n)),
{
    let h = hex_pair(n);
    lemma_hex_digit_value((n / 16) as nat);
    lemma_hex_digit_value((n % 16) as nat);
    lemma_utf8_ascii(h);
    lemma_parse_hex(n);
    assert((seq!['#'] + h).drop_first() =~= h);
    assert(hex_body(h) == Ok::<Seq<char>, Error>(indexed_codes(n)));
    lemma_color_word(background, seq!['#'] + h);

    let d = decimal(n);
    lemma_decimal_chars(n);
    lemma_no_comma(d);
    lemma_parse_decimal(n);
    assert(seq![d].drop_last() =~= Seq::<Seq<char>>::empty());
    assert(parse_parts(Seq::<Seq<char>>::empty()) == Ok::<Seq<u8>, Error>(seq![]));
    assert(seq![d].last() == d);
    assert(Seq::<u8>::empty().push(n) =~= seq![n]);
    assert(parse_parts(seq![d]) == Ok::<Seq<u8>, Error>(seq![n]));
    assert(decimal_body(d) == Ok::<Seq<char>, Error>(indexed_codes(n)));
    lemma_color_word(background, d);
}

proof fn lemma_hex_rgb_body(r: u8, g: u8, b: u8)
    ensures
        hex_body(hex_pair(r) + hex_pair(g) + hex_pair(b)) == Ok::<Seq<char>, Error>(rgb_codes(r, g, b)),
{
    let h = hex_pair(r) + hex_pair(g) + hex_pair(b);
    lemma_hex_digit_value((r / 16) as nat);
    lemma_hex_digit_value((r % 16) as nat);
    lemma_hex_digit_value((g / 16) as nat);
    lemma_hex_digit_value((g % 16) as nat);
    lemma_hex_digit_value((b / 16) as nat);
    lemma_hex_digit_value((b % 16) as nat);
    assert(h =~= seq![
        hex_digit((r / 16) as nat), hex_digit((r % 16) as nat),
        hex_digit((g / 16) as nat), hex_digit((g % 16) as nat),
        hex_digit((b / 16) as nat), hex_digit((b % 16) as nat),
    ]);
    lemma_utf8_ascii(h);
    lemma_parse_hex(r);
    lemma_parse_hex(g);
    lemma_parse_hex(b);
    assert(h.subrange(0, 2) =~= hex_pair(r));
    assert(h.subrange(2, 4) =~= hex_pair(g));
    assert(h.subrange(4, 6) =~= hex_pair(b));
}

proof fn lemma_decimal_rgb_parts(r: u8, g: u8, b: u8)
    ensures
        split_commas(decimal(r) + seq![','] + decimal(g) + seq![','] + decimal(b))
            == seq![decimal(r), decimal(g), decimal(b)],
{
    let (dr, dg, db) = (decimal(r), decimal(g), decimal(b));
    lemma_decimal_chars(r);
    lemma_decimal_chars(g);
    lemma_decimal_chars(b);
    lemma_no_comma(dr);
    lemma_no_comma(dg);
    lemma_no_comma(db);
    lemma_split_at_comma(dr + seq![','] + dg, db);
    lemma_split_at_comma(dr, dg);
    assert(seq![dr] + seq![dg] + seq![db] =~= seq![dr, dg, db]);
}

proof fn lemma_decimal_rgb_body(r: u8, g: u8, b: u8)
    ensures
        decimal_body(decimal(r) + seq![','] + decimal(g) + seq![','] + decimal(b))
            == Ok::<Seq<char>, Error>(rgb_codes(r, g, b)),
{
    let (dr, dg, db) = (decimal(r), decimal(g), decimal(b));
    let parts = seq![dr, dg, db];
    lemma_decimal_rgb_parts(r, g, b);
    lemma_parse_decimal(r);
    lemma_parse_decimal(g);
    lemma_parse_decimal(b);
    assert(parts.drop_last() =~= seq![dr, dg]);
    assert(seq![dr, dg].drop_last() =~= seq![dr]);
    assert(seq![dr].drop_last() =~= Seq::<Seq<char>>::empty());
    assert(parse_parts(Seq::<Seq<char>>::empty()) == Ok::<Seq<u8>, Error>(seq![]));
    assert(seq![r] =~= Seq::<u8>::empty().push(r));
    assert(parse_parts(seq![dr]) == Ok::<Seq<u8>, Error>(seq![r]));
    assert(seq![r, g] =~= seq![r].push(g));
    assert(parse_parts(seq![dr, dg]) == Ok::<Seq<u8>, Error>(seq![r, g]));
    assert(seq![r, g, b] =~= seq![r, g].push(b));
    assert(parse_parts(parts) == Ok::<Seq<u8>, Error>(seq![r, g, b]));
}

/// A true color means the same written in hex after `#` (six digits) as
/// written as three decimal numbers separated by commas: `38;2;r;g;b`, or
/// `48;2;r;g;b` after `on-`.
pub proof fn law_hex_rgb(r: u8, g: u8, b: u8, background: bool)
    ensures
        keyword_spec(color_word(background, seq!['#'] + hex_pair(r) + hex_pair(g) + hex_pair(b)))
            == Ok::<Seq<char>, Error>(color_head(background) + rgb_codes(r, g, b)),
        keyword_spec(color_word(background, decimal(r) + seq![','] + decimal(g) + seq![','] + decimal(b)))
            == Ok::<Seq<char>, Error>(color_head(background) + rgb_codes(r, g, b)),
{
    let h = hex_pair(r) + hex_pair(g) + hex_pair(b);
    lemma_hex_rgb_body(r, g, b);
    let w = seq!['#'] + h;
    assert(seq!['#'] + hex_pair(r) + hex_pair(g) + hex_pair(b) =~= w);
    assert(w.drop_first() =~= h);
    lemma_color_word(background, w);

    let d = decimal(r) + seq![','] + decimal(g) + seq![','] + decimal(b);
    lemma_decimal_rgb_body(r, g, b);
    lemma_decimal_chars(r);
    assert(d[0] == decimal(r)[0]);
    lemma_color_word(background, d);
}

/// A hex color of any byte length but two or six has the wrong number of
/// digits, such as `#000`.
pub proof fn law_hex_wrong_length(h: Seq<char>, background: bool)
    requires
        utf8_length(h) != 2,
        utf8_length(h) != 6,
    ensures
        keyword_spec(color_word(background, seq!['#'] + h)) == Err::<Seq<char>, Error>(Error::InvalidColorLen),
{
    let w = seq!['#'] + h;
    assert(w.drop_first() =~= h);
    lemma_color_word(background, w);
}

/// The numbers written in decimal and separated by commas.
pub open spec fn comma_joined(ns: Seq<u8>) -> Seq<char>
    decreases ns.len(),
{
    if ns.len() <= 1 {
        if ns.len() == 0 { seq![] } else { decimal(ns[0]) }
    } else {
        comma_joined(ns.drop_last()) + seq![','] + decimal(ns.last())
    }
}

proof fn lemma_comma_joined(ns: Seq<u8>)
    requires
        ns.len() >= 1,
    ensures
        split_commas(comma_joined(ns)) == ns.map_values(|n: u8| decimal(n)),
        parse_parts(split_commas(comma_joined(ns))) == Ok::<Seq<u8>, Error>(ns),
        comma_joined(ns).len() > 0,
        comma_joined(ns)[0] == decimal(ns[0])[0],
    decreases ns.len(),
{
    let ds = ns.map_values(|n: u8| decimal(n));
    lemma_decimal_chars(ns.last());
    lemma_parse_decimal(ns.last());
    if ns.len() == 1 {
        lemma_no_comma(decimal(ns[0]));
        assert(ds =~= seq![decimal(ns[0])]);
        assert(seq![decimal(ns[0])].drop_last() =~= Seq::<Seq<char>>::empty());
        assert(parse_parts(Seq::<Seq<char>>::empty()) == Ok::<Seq<u8>, Error>(seq![]));
        assert(Seq::<u8>::empty().push(ns[0]) =~= ns);
    } else {
        let init = ns.drop_last();
        lemma_comma_joined(init);
        lemma_no_comma(decimal(ns.last()));
        lemma_split_at_comma(comma_joined(init), decimal(ns.last()));
        assert(ds =~= init.map_values(|n: u8| decimal(n)).push(decimal(ns.last())));
        assert(split_commas(comma_joined(ns)) =~= ds);
        assert(ds.drop_last() =~= init.map_values(|n: u8| decimal(n)));
        assert(init.push(ns.last()) =~= ns);
        assert(comma_joined(ns)[0] == comma_joined(init)[0]);
        assert(init[0] == ns[0]);
    }
}

/// A decimal color with a number of parts other than one or three, all of
/// them numbers, has the wrong number of parts, such as `0,0`.
pub proof fn law_decimal_wrong_count(ns: Seq<u8>, background: bool)
    requires
        ns.len() >= 1,
        ns.len() != 1,
        ns.len() != 3,
    ensures
        keyword_spec(color_word(background, comma_joined(ns))) == Err::<Seq<char>, Error>(Error::InvalidColorLen),
{
    lemma_comma_joined(ns);
    lemma_decimal_chars(ns[0]);
    assert(decimal_body(comma_joined(ns)) == Err::<Seq<char>, Error>(Error::InvalidColorLen));
    lemma_color_word(background, comma_joined(ns));
}

/// Every simple keyword is one word: not empty, with no whitespace and no `}`.
proof fn lemma_simple_shape(w: Seq<char>)
    requires
        common_code(w) is Some,
    ensures
        w.len() > 0,
        forall|i: int| 0 <= i < w.len() ==> !is_whitespace(#[trigger] w[i]) && w[i] != '}',
{
    reveal_strlit("reset");
    reveal_strlit("bold");
    reveal_strlit("dim");
    reveal_strlit("italic");
    reveal_strlit("underline");
    reveal_strlit("blink");
    reveal_strlit("inverse");
    reveal_strlit("hide");
    reveal_strlit("strike");
    reveal_strlit("!bold");
    reveal_strlit("!dim");
    reveal_strlit("!italic");
    reveal_strlit("!underline");
    reveal_strlit("!blink");
    reveal_strlit("!inverse");
    reveal_strlit("!hide");
    reveal_strlit("!strike");
    reveal_strlit("black");
    reveal_strlit("red");
    reveal_strlit("green");
    reveal_strlit("yellow");
    reveal_strlit("blue");
    reveal_strlit("magenta");
    reveal_strlit("cyan");
    reveal_strlit("white");
    reveal_strlit("default");
    reveal_strlit("on-black");
    reveal_strlit("on-red");
    reveal_strlit("on-green");
    reveal_strlit("on-yellow");
    reveal_strlit("on-blue");
    reveal_strlit("on-magenta");
    reveal_strlit("on-cyan");
    reveal_strlit("on-white");
    reveal_strlit("on-default");
}

proof fn lemma_one_word(w: Seq<char>)
    requires
        w.len() > 0,
        forall|i: int| 0 <= i < w.len() ==> !is_whitespace(#[trigger] w[i]),
    ensures
        words(w) == seq![w],
    decreases w.len(),
{
    let c = w.last();
    assert(c == w[w.len() - 1]);
    if w.len() == 1 {
        assert(words(w.drop_last()) =~= Seq::<Seq<char>>::empty());
        assert(seq![c] =~= w);
    } else {
        let init = w.drop_last();
        assert forall|i: int| 0 <= i < init.len() implies !is_whitespace(#[trigger] init[i]) by {
            assert(init[i] == w[i]);
        }
        lemma_one_word(init);
        assert(w[w.len() - 2] == init[init.len() - 1]);
        assert(init.push(c) =~= w);
        assert(words(w) =~= seq![w]);
    }
}

/// A simple keyword alone in a block becomes the sequence of its one code,
/// such as `{[bold]}` giving `\x1b[1m` or `{[on-red]}` giving `\x1b[41m`.
pub proof fn law_simple_keyword(w: Seq<char>, merge: bool)
    requires
        common_code(w) is Some,
    ensures
        sgr_curly_spec(seq!['{', '['] + w + seq![']', '}'], merge)
            == Ok::<Seq<char>, Error>(escape_chars() + decimal(common_code(w)->0) + seq!['m']),
{
    lemma_simple_shape(w);
    lemma_one_word(w);
    law_keyword_block(w, merge);
    assert(keywords_spec(seq![w]) == keyword_spec(w));
}

/// A `\x` escape reads its two hex digits with the high one first: for every
/// `n` below `0x80`, a backslash, `x` and the two hex digits of `n` give the
/// one character whose value is `n`, such as `\x1b` giving the escape character.
pub proof fn law_seven_bit_escape(n: u8, merge: bool)
    requires
        n < 0x80,
    ensures
        sgr_curly_spec(seq!['\\', 'x'] + hex_pair(n), merge) matches Ok(o) && o.len() == 1 && o[0] as int == n as int,
{
    let s = seq!['\\', 'x'] + hex_pair(n);
    let h = hex_pair(n);
    lemma_hex_digit_value((n / 16) as nat);
    lemma_hex_digit_value((n % 16) as nat);
    assert(s[2] == h[0] && s[3] == h[1]);
    assert(seq![s[2], s[3]] =~= h);
    let e = Seq::<char>::empty();
    let h1 = seq![hex_digit((n / 16) as nat)];
    assert(digits_value(e, 16, 0xFFFF_FFFF) == Ok::<nat, crate::number::IntErrorKind>(0));
    assert(h1.drop_last() =~= e);
    assert(digits_value(h1, 16, 0xFFFF_FFFF) == Ok::<nat, crate::number::IntErrorKind>((n / 16) as nat));
    assert(h.drop_last() =~= h1);
    assert(digits_value(h, 16, 0xFFFF_FFFF) == Ok::<nat, crate::number::IntErrorKind>(n as nat));
    assert(parse_uint(h, 16, 0xFFFF_FFFF) == Ok::<nat, crate::number::IntErrorKind>(n as nat));
    assert(seven_bit_spec(s, 2) == Some((n as nat) as char));
    reveal(escape_spec);
    assert(step_spec(s, 0, merge) == Ok::<(Seq<char>, int), Error>((seq![(n as nat) as char], 4)));
    assert(sgr_from(s, 4, merge) == Ok::<Seq<char>, Error>(seq![]));
    assert(seq![(n as nat) as char] + Seq::<char>::empty() =~= seq![(n as nat) as char]);
}

proof fn lemma_keyword_0()
    ensures
        common_code("reset"@) == Some(style_code(Style::Reset)),
{
    reveal_strlit("reset");
}

proof fn lemma_keyword_1()
    ensures
        common_code("bold"@) == Some(style_code(Style::Bold)),
{
    reveal_strlit("bold");
    reveal_strlit("reset");
    assert("bold"@.len() != "reset"@.len());
}

proof fn lemma_keyword_2()
    ensures
        common_code("dim"@) == Some(style_code(Style::Dim)),
{
    reveal_strlit("dim");
    reveal_strlit("reset");
    assert("dim"@.len() != "reset"@.len());
    reveal_strlit("bold");
    assert("dim"@.len() != "bold"@.len());
}

proof fn lemma_keyword_3()
    ensures
        common_code("italic"@) == Some(style_code(Style::Italic)),
{
    reveal_strlit("italic");
    reveal_strlit("reset");
    assert("italic"@.len() != "reset"@.len());
    reveal_strlit("bold");
    assert("italic"@.len() != "bold"@.len());
    reveal_strlit("dim");
    assert("italic"@.len() != "dim"@.len());
}

proof fn lemma_keyword_4()
    ensures
        common_code("underline"@) == Some(style_code(Style::Underline)),
{
    reveal_strlit("underline");
    reveal_strlit("reset");
    assert("underline"@.len() != "reset"@.len());
    reveal_strlit("bold");
    assert("underline"@.len() != "bold"@.len());
    reveal_strlit("dim");
    assert("underline"@.len() != "dim"@.len());
    reveal_strlit("italic");
    assert("underline"@.len() != "italic"@.len());
}

proof fn lemma_keyword_5()
    ensures
        common_code("blink"@) == Some(style_code(Style::Blinking)),
{
    reveal_strlit("blink");
    reveal_strlit("reset");
    assert("blink"@[0] != "reset"@[0]);
    reveal_strlit("bold");
    assert("blink"@.len() != "bold"@.len());
    reveal_strlit("dim");
    assert("blink"@.len() != "dim"@.len());
    reveal_strlit("italic");
    assert("blink"@.len() != "italic"@.len());
    reveal_strlit("underline");
    assert("blink"@.len() != "underline"@.len());
}

proof fn lemma_keyword_6()
    ensures
        common_code("inverse"@) == Some(style_code(Style::Inverse)),
{
    reveal_strlit("inverse");
    reveal_strlit("reset");
    assert("inverse"@.len() != "reset"@.len());
    reveal_strlit("bold");
    assert("inverse"@.len() != "bold"@.len());
    reveal_strlit("dim");
    assert("inverse"@.len() != "dim"@.len());
    reveal_strlit("italic");
    assert("inverse"@.len() != "italic"@.len());
    reveal_strlit("underline");
    assert("inverse"@.len() != "underline"@.len());
    reveal_strlit("blink");
    assert("inverse"@.len() != "blink"@.len());
}

proof fn lemma_keyword_7()
    ensures
        common_code("hide"@) == Some(style_code(Style::Hidden)),
{
    reveal_strlit("hide");
    reveal_strlit("reset");
    assert("hide"@.len() != "reset"@.len());
    reveal_strlit("bold");
    assert("hide"@[0] != "bold"@[0]);
    reveal_strlit("dim");
    assert("hide"@.len() != "dim"@.len());
    reveal_strlit("italic");
    assert("hide"@.len() != "italic"@.len());
    reveal_strlit("underline");
    assert("hide"@.len() != "underline"@.len());
    reveal_strlit("blink");
    assert("hide"@.len() != "blink"@.len());
    reveal_strlit("inverse");
    assert("hide"@.len() != "inverse"@.len());
}

proof fn lemma_keyword_8()
    ensures
        common_code("strike"@) == Some(style_code(Style::Strikethrough)),
{
    reveal_strlit("strike");
    reveal_strlit("reset");
    assert("strike"@.len() != "reset"@.len());
    reveal_strlit("bold");
    assert("strike"@.len() != "bold"@.len());
    reveal_strlit("dim");
    assert("strike"@.len() != "dim"@.len());
    reveal_strlit("italic");
    assert("strike"@[0] != "italic"@[0]);
    reveal_strlit("underline");
    assert("strike"@.len() != "underline"@.len());
    reveal_strlit("blink");
    assert("strike"@.len() != "blink"@.len());
    reveal_strlit("inverse");
    assert("strike"@.len() != "inverse"@.len());
    reveal_strlit("hide");
    assert("strike"@.len() != "hide"@.len());
}

proof fn lemma_keyword_9()
    ensures
        common_code("!bold"@) == Some(style_code(Style::NotBold)),
{
    reveal_strlit("!bold");
    reveal_strlit("reset");
    assert("!bold"@[0] != "reset"@[0]);
    reveal_strlit("bold");
    assert("!bold"@.len() != "bold"@.len());
    reveal_strlit("dim");
    assert("!bold"@.len() != "dim"@.len());
    reveal_strlit("italic");
    assert("!bold"@.len() != "italic"@.len());
    reveal_strlit("underline");
    assert("!bold"@.len() != "underline"@.len());
    reveal_strlit("blink");
    assert("!bold"@[0] != "blink"@[0]);
    reveal_strlit("inverse");
    assert("!bold"@.len() != "inverse"@.len());
    reveal_strlit("hide");
    assert("!bold"@.len() != "hide"@.len());
    reveal_strlit("strike");
    assert("!bold"@.len() != "strike"@.len());
}

proof fn lemma_keyword_10()
    ensures
        common_code("!dim"@) == Some(style_code(Style::NotDim)),
{
    reveal_strlit("!dim");
    reveal_strlit("reset");
    assert("!dim"@.len() != "reset"@.len());
    reveal_strlit("bold");
    assert("!dim"@[0] != "bold"@[0]);
    reveal_strlit("dim");
    assert("!dim"@.len() != "dim"@.len());
    reveal_strlit("italic");
    assert("!dim"@.len() != "italic"@.len());
    reveal_strlit("underline");
    assert("!dim"@.len() != "underline"@.len());
    reveal_strlit("blink");
    assert("!dim"@.len() != "blink"@.len());
    reveal_strlit("inverse");
    assert("!dim"@.len() != "inverse"@.len());
    reveal_strlit("hide");
    assert("!dim"@[0] != "hide"@[0]);
    reveal_strlit("strike");
    assert("!dim"@.len() != "strike"@.len());
    reveal_strlit("!bold");
    assert("!dim"@.len() != "!bold"@.len());
}

proof fn lemma_keyword_11()
    ensures
        common_code("!italic"@) == Some(style_code(Style::NotItalic)),
{
    reveal_strlit("!italic");
    reveal_strlit("reset");
    assert("!italic"@.len() != "reset"@.len());
    reveal_strlit("bold");
    assert("!italic"@.len() != "bold"@.len());
    reveal_strlit("dim");
    assert("!italic"@.len() != "dim"@.len());
    reveal_strlit("italic");
    assert("!italic"@.len() != "italic"@.len());
    reveal_strlit("underline");
    assert("!italic"@.len() != "underline"@.len());
    reveal_strlit("blink");
    assert("!italic"@.len() != "blink"@.len());
    reveal_strlit("inverse");
    assert("!italic"@[0] != "inverse"@[0]);
    reveal_strlit("hide");
    assert("!italic"@.len() != "hide"@.len());
    reveal_strlit("strike");
    assert("!italic"@.len() != "strike"@.len());
    reveal_strlit("!bold");
    assert("!italic"@.len() != "!bold"@.len());
    reveal_strlit("!dim");
    assert("!italic"@.len() != "!dim"@.len());
}

proof fn lemma_keyword_12()
    ensures
        common_code("!underline"@) == Some(style_code(Style::NotUnderline)),
{
    reveal_strlit("!underline");
    reveal_strlit("reset");
    assert("!underline"@.len() != "reset"@.len());
    reveal_strlit("bold");
    assert("!underline"@.len() != "bold"@.len());
    reveal_strlit("dim");
    assert("!underline"@.len() != "dim"@.len());
    reveal_strlit("italic");
    assert("!underline"@.len() != "italic"@.len());
    reveal_strlit("underline");
    assert("!underline"@.len() != "underline"@.len());
    reveal_strlit("blink");
    assert("!underline"@.len() != "blink"@.len());
    reveal_strlit("inverse");
    assert("!underline"@.len() != "inverse"@.len());
    reveal_strlit("hide");
    assert("!underline"@.len() != "hide"@.len());
    reveal_strlit("strike");
    assert("!underline"@.len() != "strike"@.len());
    reveal_strlit("!bold");
    assert("!underline"@.len() != "!bold"@.len());
    reveal_strlit("!dim");
    assert("!underline"@.len() != "!dim"@.len());
    reveal_strlit("!italic");
    assert("!underline"@.len() != "!italic"@.len());
}

proof fn lemma_keyword_13()
    ensures
        common_code("!blink"@) == Some(style_code(Style::NotBlinking)),
{
    reveal_strlit("!blink");
    reveal_strlit("reset");
    assert("!blink"@.len() != "reset"@.len());
    reveal_strlit("bold");
    assert("!blink"@.len() != "bold"@.len());
    reveal_strlit("dim");
    assert("!blink"@.len() != "dim"@.len());
    reveal_strlit("italic");
    assert("!blink"@[0] != "italic"@[0]);
    reveal_strlit("underline");
    assert("!blink"@.len() != "underline"@.len());
    reveal_strlit("blink");
    assert("!blink"@.len() != "blink"@.len());
    reveal_strlit("inverse");
    assert("!blink"@.len() != "inverse"@.len());
    reveal_strlit("hide");
    assert("!blink"@.len() != "hide"@.len());
    reveal_strlit("strike");
    assert("!blink"@[0] != "strike"@[0]);
    reveal_strlit("!bold");
    assert("!blink"@.len() != "!bold"@.len());
    reveal_strlit("!dim");
    assert("!blink"@.len() != "!dim"@.len());
    reveal_strlit("!italic");
    assert("!blink"@.len() != "!italic"@.len());
    reveal_strlit("!underline");
    assert("!blink"@.len() != "!underline"@.len());
}

proof fn lemma_keyword_14()
    ensures
        common_code("!inverse"@) == Some(style_code(Style::NotInverse)),
{
    reveal_strlit("!inverse");
    reveal_strlit("reset");
    assert("!inverse"@.len() != "reset"@.len());
    reveal_strlit("bold");
    assert("!inverse"@.len() != "bold"@.len());
    reveal_strlit("dim");
    assert("!inverse"@.len() != "dim"@.len());
    reveal_strlit("italic");
    assert("!inverse"@.len() != "italic"@.len());
    reveal_strlit("underline");
    assert("!inverse"@.len() != "underline"@.len());
    reveal_strlit("blink");
    assert("!inverse"@.len() != "blink"@.len());
    reveal_strlit("inverse");
    assert("!inverse"@.len() != "inverse"@.len());
    reveal_strlit("hide");
    assert("!inverse"@.len() != "hide"@.len());
    reveal_strlit("strike");
    assert("!inverse"@.len() != "strike"@.len());
    reveal_strlit("!bold");
    assert("!inverse"@.len() != "!bold"@.len());
    reveal_strlit("!dim");
    assert("!inverse"@.len() != "!dim"@.len());
    reveal_strlit("!italic");
    assert("!inverse"@.len() != "!italic"@.len());
    reveal_strlit("!underline");
    assert("!inverse"@.len() != "!underline"@.len());
    reveal_strlit("!blink");
    assert("!inverse"@.len() != "!blink"@.len());
}

proof fn lemma_keyword_15()
    ensures
        common_code("!hide"@) == Some(style_code(Style::NotHidden)),
{
    reveal_strlit("!hide");
    reveal_strlit("reset");
    assert("!hide"@[0] != "reset"@[0]);
    reveal_strlit("bold");
    assert("!hide"@.len() != "bold"@.len());
    reveal_strlit("dim");
    assert("!hide"@.len() != "dim"@.len());
    reveal_strlit("italic");
    assert("!hide"@.len() != "italic"@.len());
    reveal_strlit("underline");
    assert("!hide"@.len() != "underline"@.len());
    reveal_strlit("blink");
    assert("!hide"@[0] != "blink"@[0]);
    reveal_strlit("inverse");
    assert("!hide"@.len() != "inverse"@.len());
    reveal_strlit("hide");
    assert("!hide"@.len() != "hide"@.len());
    reveal_strlit("strike");
    assert("!hide"@.len() != "strike"@.len());
    reveal_strlit("!bold");
    assert("!hide"@[1] != "!bold"@[1]);
    reveal_strlit("!dim");
    assert("!hide"@.len() != "!dim"@.len());
    reveal_strlit("!italic");
    assert("!hide"@.len() != "!italic"@.len());
    reveal_strlit("!underline");
    assert("!hide"@.len() != "!underline"@.len());
    reveal_strlit("!blink");
    assert("!hide"@.len() != "!blink"@.len());
    reveal_strlit("!inverse");
    assert("!hide"@.len() != "!inverse"@.len());
}

proof fn lemma_keyword_16()
    ensures
        common_code("!strike"@) == Some(style_code(Style::NotStrikethrough)),
{
    reveal_strlit("!strike");
    reveal_strlit("reset");
    assert("!strike"@.len() != "reset"@.len());
    reveal_strlit("bold");
    assert("!strike"@.len() != "bold"@.len());
    reveal_strlit("dim");
    assert("!strike"@.len() != "dim"@.len());
    reveal_strlit("italic");
    assert("!strike"@.len() != "italic"@.len());
    reveal_strlit("underline");
    assert("!strike"@.len() != "underline"@.len());
    reveal_strlit("blink");
    assert("!strike"@.len() != "blink"@.len());
    reveal_strlit("inverse");
    assert("!strike"@[0] != "inverse"@[0]);
    reveal_strlit("hide");
    assert("!strike"@.len() != "hide"@.len());
    reveal_strlit("strike");
    assert("!strike"@.len() != "strike"@.len());
    reveal_strlit("!bold");
    assert("!strike"@.len() != "!bold"@.len());
    reveal_strlit("!dim");
    assert("!strike"@.len() != "!dim"@.len());
    reveal_strlit("!italic");
    assert("!strike"@[1] != "!italic"@[1]);
    reveal_strlit("!underline");
    assert("!strike"@.len() != "!underline"@.len());
    reveal_strlit("!blink");
    assert("!strike"@.len() != "!blink"@.len());
    reveal_strlit("!inverse");
    assert("!strike"@.len() != "!inverse"@.len());
    reveal_strlit("!hide");
    assert("!strike"@.len() != "!hide"@.len());
}

proof fn lemma_keyword_17()
    ensures
        common_code("black"@) == Some(color_codes(Color::BlackFg)[0]),
{
    reveal_strlit("black");
    reveal_strlit("reset");
    assert("black"@[0] != "reset"@[0]);
    reveal_strlit("bold");
    assert("black"@.len() != "bold"@.len());
    reveal_strlit("dim");
    assert("black"@.len() != "dim"@.len());
    reveal_strlit("italic");
    assert("black"@.len() != "italic"@.len());
    reveal_strlit("underline");
    assert("black"@.len() != "underline"@.len());
    reveal_strlit("blink");
    assert("black"@[2] != "blink"@[2]);
    reveal_strlit("inverse");
    assert("black"@.len() != "inverse"@.len());
    reveal_strlit("hide");
    assert("black"@.len() != "hide"@.len());
    reveal_strlit("strike");
    assert("black"@.len() != "strike"@.len());
    reveal_strlit("!bold");
    assert("black"@[0] != "!bold"@[0]);
    reveal_strlit("!dim");
    assert("black"@.len() != "!dim"@.len());
    reveal_strlit("!italic");
    assert("black"@.len() != "!italic"@.len());
    reveal_strlit("!underline");
    assert("black"@.len() != "!underline"@.len());
    reveal_strlit("!blink");
    assert("black"@.len() != "!blink"@.len());
    reveal_strlit("!inverse");
    assert("black"@.len() != "!inverse"@.len());
    reveal_strlit("!hide");
    assert("black"@[0] != "!hide"@[0]);
    reveal_strlit("!strike");
    assert("black"@.len() != "!strike"@.len());
}

proof fn lemma_keyword_18()
    ensures
        common_code("red"@) == Some(color_codes(Color::RedFg)[0]),
{
    reveal_strlit("red");
    reveal_strlit("reset");
    assert("red"@.len() != "reset"@.len());
    reveal_strlit("bold");
    assert("red"@.len() != "bold"@.len());
    reveal_strlit("dim");
    assert("red"@[0] != "dim"@[0]);
    reveal_strlit("italic");
    assert("red"@.len() != "italic"@.len());
    reveal_strlit("underline");
    assert("red"@.len() != "underline"@.len());
    reveal_strlit("blink");
    assert("red"@.len() != "blink"@.len());
    reveal_strlit("inverse");
    assert("red"@.len() != "inverse"@.len());
    reveal_strlit("hide");
    assert("red"@.len() != "hide"@.len());
    reveal_strlit("strike");
    assert("red"@.len() != "strike"@.len());
    reveal_strlit("!bold");
    assert("red"@.len() != "!bold"@.len());
    reveal_strlit("!dim");
    assert("red"@.len() != "!dim"@.len());
    reveal_strlit("!italic");
    assert("red"@.len() != "!italic"@.len());
    reveal_strlit("!underline");
    assert("red"@.len() != "!underline"@.len());
    reveal_strlit("!blink");
    assert("red"@.len() != "!blink"@.len());
    reveal_strlit("!inverse");
    assert("red"@.len() != "!inverse"@.len());
    reveal_strlit("!hide");
    assert("red"@.len() != "!hide"@.len());
    reveal_strlit("!strike");
    assert("red"@.len() != "!strike"@.len());
    reveal_strlit("black");
    assert("red"@.len() != "black"@.len());
}

proof fn lemma_keyword_19()
    ensures
        common_code("green"@) == Some(color_codes(Color::GreenFg)[0]),
{
    reveal_strlit("green");
    reveal_strlit("reset");
    assert("green"@[0] != "reset"@[0]);
    reveal_strlit("bold");
    assert("green"@.len() != "bold"@.len());
    reveal_strlit("dim");
    assert("green"@.len() != "dim"@.len());
    reveal_strlit("italic");
    assert("green"@.len() != "italic"@.len());
    reveal_strlit("underline");
    assert("green"@.len() != "underline"@.len());
    reveal_strlit("blink");
    assert("green"@[0] != "blink"@[0]);
    reveal_strlit("inverse");
    assert("green"@.len() != "inverse"@.len());
    reveal_strlit("hide");
    assert("green"@.len() != "hide"@.len());
    reveal_strlit("strike");
    assert("green"@.len() != "strike"@.len());
    reveal_strlit("!bold");
    assert("green"@[0] != "!bold"@[0]);
    reveal_strlit("!dim");
    assert("green"@.len() != "!dim"@.len());
    reveal_strlit("!italic");
    assert("green"@.len() != "!italic"@.len());
    reveal_strlit("!underline");
    assert("green"@.len() != "!underline"@.len());
    reveal_strlit("!blink");
    assert("green"@.len() != "!blink"@.len());
    reveal_strlit("!inverse");
    assert("green"@.len() != "!inverse"@.len());
    reveal_strlit("!hide");
    assert("green"@[0] != "!hide"@[0]);
    reveal_strlit("!strike");
    assert("green"@.len() != "!strike"@.len());
    reveal_strlit("black");
    assert("green"@[0] != "black"@[0]);
    reveal_strlit("red");
    assert("green"@.len() != "red"@.len());
}

proof fn lemma_keyword_20()
    ensures
        common_code("yellow"@) == Some(color_codes(Color::YellowFg)[0]),
{
    reveal_strlit("yellow");
    reveal_strlit("reset");
    assert("yellow"@.len() != "reset"@.len());
    reveal_strlit("bold");
    assert("yellow"@.len() != "bold"@.len());
    reveal_strlit("dim");
    assert("yellow"@.len() != "dim"@.len());
    reveal_strlit("italic");
    assert("yellow"@[0] != "italic"@[0]);
    reveal_strlit("underline");
    assert("yellow"@.len() != "underline"@.len());
    reveal_strlit("blink");
    assert("yellow"@.len() != "blink"@.len());
    reveal_strlit("inverse");
    assert("yellow"@.len() != "inverse"@.len());
    reveal_strlit("hide");
    assert("yellow"@.len() != "hide"@.len());
    reveal_strlit("strike");
    assert("yellow"@[0] != "strike"@[0]);
    reveal_strlit("!bold");
    assert("yellow"@.len() != "!bold"@.len());
    reveal_strlit("!dim");
    assert("yellow"@.len() != "!dim"@.len());
    reveal_strlit("!italic");
    assert("yellow"@.len() != "!italic"@.len());
    reveal_strlit("!underline");
    assert("yellow"@.len() != "!underline"@.len());
    reveal_strlit("!blink");
    assert("yellow"@[0] != "!blink"@[0]);
    reveal_strlit("!inverse");
    assert("yellow"@.len() != "!inverse"@.len());
    reveal_strlit("!hide");
    assert("yellow"@.len() != "!hide"@.len());
    reveal_strlit("!strike");
    assert("yellow"@.len() != "!strike"@.len());
    reveal_strlit("black");
    assert("yellow"@.len() != "black"@.len());
    reveal_strlit("red");
    assert("yellow"@.len() != "red"@.len());
    reveal_strlit("green");
    assert("yellow"@.len() != "green"@.len());
}

proof fn lemma_keyword_21()
    ensures
        common_code("blue"@) == Some(color_codes(Color::BlueFg)[0]),
{
    reveal_strlit("blue");
    reveal_strlit("reset");
    assert("blue"@.len() != "reset"@.len());
    reveal_strlit("bold");
    assert("blue"@[1] != "bold"@[1]);
    reveal_strlit("dim");
    assert("blue"@.len() != "dim"@.len());
    reveal_strlit("italic");
    assert("blue"@.len() != "italic"@.len());
    reveal_strlit("underline");
    assert("blue"@.len() != "underline"@.len());
    reveal_strlit("blink");
    assert("blue"@.len() != "blink"@.len());
    reveal_strlit("inverse");
    assert("blue"@.len() != "inverse"@.len());
    reveal_strlit("hide");
    assert("blue"@[0] != "hide"@[0]);
    reveal_strlit("strike");
    assert("blue"@.len() != "strike"@.len());
    reveal_strlit("!bold");
    assert("blue"@.len() != "!bold"@.len());
    reveal_strlit("!dim");
    assert("blue"@[0] != "!dim"@[0]);
    reveal_strlit("!italic");
    assert("blue"@.len() != "!italic"@.len());
    reveal_strlit("!underline");
    assert("blue"@.len() != "!underline"@.len());
    reveal_strlit("!blink");
    assert("blue"@.len() != "!blink"@.len());
    reveal_strlit("!inverse");
    assert("blue"@.len() != "!inverse"@.len());
    reveal_strlit("!hide");
    assert("blue"@.len() != "!hide"@.len());
    reveal_strlit("!strike");
    assert("blue"@.len() != "!strike"@.len());
    reveal_strlit("black");
    assert("blue"@.len() != "black"@.len());
    reveal_strlit("red");
    assert("blue"@.len() != "red"@.len());
    reveal_strlit("green");
    assert("blue"@.len() != "green"@.len());
    reveal_strlit("yellow");
    assert("blue"@.len() != "yellow"@.len());
}

proof fn lemma_keyword_22()
    ensures
        common_code("magenta"@) == Some(color_codes(Color::MagentaFg)[0]),
{
    reveal_strlit("magenta");
    reveal_strlit("reset");
    assert("magenta"@.len() != "reset"@.len());
    reveal_strlit("bold");
    assert("magenta"@.len() != "bold"@.len());
    reveal_strlit("dim");
    assert("magenta"@.len() != "dim"@.len());
    reveal_strlit("italic");
    assert("magenta"@.len() != "italic"@.len());
    reveal_strlit("underline");
    assert("magenta"@.len() != "underline"@.len());
    reveal_strlit("blink");
    assert("magenta"@.len() != "blink"@.len());
    reveal_strlit("inverse");
    assert("magenta"@[0] != "inverse"@[0]);
    reveal_strlit("hide");
    assert("magenta"@.len() != "hide"@.len());
    reveal_strlit("strike");
    assert("magenta"@.len() != "strike"@.len());
    reveal_strlit("!bold");
    assert("magenta"@.len() != "!bold"@.len());
    reveal_strlit("!dim");
    assert("magenta"@.len() != "!dim"@.len());
    reveal_strlit("!italic");
    assert("magenta"@[0] != "!italic"@[0]);
    reveal_strlit("!underline");
    assert("magenta"@.len() != "!underline"@.len());
    reveal_strlit("!blink");
    assert("magenta"@.len() != "!blink"@.len());
    reveal_strlit("!inverse");
    assert("magenta"@.len() != "!inverse"@.len());
    reveal_strlit("!hide");
    assert("magenta"@.len() != "!hide"@.len());
    reveal_strlit("!strike");
    assert("magenta"@[0] != "!strike"@[0]);
    reveal_strlit("black");
    assert("magenta"@.len() != "black"@.len());
    reveal_strlit("red");
    assert("magenta"@.len() != "red"@.len());
    reveal_strlit("green");
    assert("magenta"@.len() != "green"@.len());
    reveal_strlit("yellow");
    assert("magenta"@.len() != "yellow"@.len());
    reveal_strlit("blue");
    assert("magenta"@.len() != "blue"@.len());
}

proof fn lemma_keyword_23()
    ensures
        common_code("cyan"@) == Some(color_codes(Color::CyanFg)[0]),
{
    reveal_strlit("cyan");
    reveal_strlit("reset");
    assert("cyan"@.len() != "reset"@.len());
    reveal_strlit("bold");
    assert("cyan"@[0] != "bold"@[0]);
    reveal_strlit("dim");
    assert("cyan"@.len() != "dim"@.len());
    reveal_strlit("italic");
    assert("cyan"@.len() != "italic"@.len());
    reveal_strlit("underline");
    assert("cyan"@.len() != "underline"@.len());
    reveal_strlit("blink");
    assert("cyan"@.len() != "blink"@.len());
    reveal_strlit("inverse");
    assert("cyan"@.len() != "inverse"@.len());
    reveal_strlit("hide");
    assert("cyan"@[0] != "hide"@[0]);
    reveal_strlit("strike");
    assert("cyan"@.len() != "strike"@.len());
    reveal_strlit("!bold");
    assert("cyan"@.len() != "!bold"@.len());
    reveal_strlit("!dim");
    assert("cyan"@[0] != "!dim"@[0]);
    reveal_strlit("!italic");
    assert("cyan"@.len() != "!italic"@.len());
    reveal_strlit("!underline");
    assert("cyan"@.len() != "!underline"@.len());
    reveal_strlit("!blink");
    assert("cyan"@.len() != "!blink"@.len());
    reveal_strlit("!inverse");
    assert("cyan"@.len() != "!inverse"@.len());
    reveal_strlit("!hide");
    assert("cyan"@.len() != "!hide"@.len());
    reveal_strlit("!strike");
    assert("cyan"@.len() != "!strike"@.len());
    reveal_strlit("black");
    assert("cyan"@.len() != "black"@.len());
    reveal_strlit("red");
    assert("cyan"@.len() != "red"@.len());
    reveal_strlit("green");
    assert("cyan"@.len() != "green"@.len());
    reveal_strlit("yellow");
    assert("cyan"@.len() != "yellow"@.len());
    reveal_strlit("blue");
    assert("cyan"@[0] != "blue"@[0]);
    reveal_strlit("magenta");
    assert("cyan"@.len() != "magenta"@.len());
}

proof fn lemma_keyword_24()
    ensures
        common_code("white"@) == Some(color_codes(Color::WhiteFg)[0]),
{
    reveal_strlit("white");
    reveal_strlit("reset");
    assert("white"@[0] != "reset"@[0]);
    reveal_strlit("bold");
    assert("white"@.len() != "bold"@.len());
    reveal_strlit("dim");
    assert("white"@.len() != "dim"@.len());
    reveal_strlit("italic");
    assert("white"@.len() != "italic"@.len());
    reveal_strlit("underline");
    assert("white"@.len() != "underline"@.len());
    reveal_strlit("blink");
    assert("white"@[0] != "blink"@[0]);
    reveal_strlit("inverse");
    assert("white"@.len() != "inverse"@.len());
    reveal_strlit("hide");
    assert("white"@.len() != "hide"@.len());
    reveal_strlit("strike");
    assert("white"@.len() != "strike"@.len());
    reveal_strlit("!bold");
    assert("white"@[0] != "!bold"@[0]);
    reveal_strlit("!dim");
    assert("white"@.len() != "!dim"@.len());
    reveal_strlit("!italic");
    assert("white"@.len() != "!italic"@.len());
    reveal_strlit("!underline");
    assert("white"@.len() != "!underline"@.len());
    reveal_strlit("!blink");
    assert("white"@.len() != "!blink"@.len());
    reveal_strlit("!inverse");
    assert("white"@.len() != "!inverse"@.len());
    reveal_strlit("!hide");
    assert("white"@[0] != "!hide"@[0]);
    reveal_strlit("!strike");
    assert("white"@.len() != "!strike"@.len());
    reveal_strlit("black");
    assert("white"@[0] != "black"@[0]);
    reveal_strlit("red");
    assert("white"@.len() != "red"@.len());
    reveal_strlit("green");
    assert("white"@[0] != "green"@[0]);
    reveal_strlit("yellow");
    assert("white"@.len() != "yellow"@.len());
    reveal_strlit("blue");
    assert("white"@.len() != "blue"@.len());
    reveal_strlit("magenta");
    assert("white"@.len() != "magenta"@.len());
    reveal_strlit("cyan");
    assert("white"@.len() != "cyan"@.len());
}

proof fn lemma_keyword_25()
    ensures
        common_code("default"@) == Some(color_codes(Color::DefaultFg)[0]),
{
    reveal_strlit("default");
    reveal_strlit("reset");
    assert("default"@.len() != "reset"@.len());
    reveal_strlit("bold");
    assert("default"@.len() != "bold"@.len());
    reveal_strlit("dim");
    assert("default"@.len() != "dim"@.len());
    reveal_strlit("italic");
    assert("default"@.len() != "italic"@.len());
    reveal_strlit("underline");
    assert("default"@.len() != "underline"@.len());
    reveal_strlit("blink");
    assert("default"@.len() != "blink"@.len());
    reveal_strlit("inverse");
    assert("default"@[0] != "inverse"@[0]);
    reveal_strlit("hide");
    assert("default"@.len() != "hide"@.len());
    reveal_strlit("strike");
    assert("default"@.len() != "strike"@.len());
    reveal_strlit("!bold");
    assert("default"@.len() != "!bold"@.len());
    reveal_strlit("!dim");
    assert("default"@.len() != "!dim"@.len());
    reveal_strlit("!italic");
    assert("default"@[0] != "!italic"@[0]);
    reveal_strlit("!underline");
    assert("default"@.len() != "!underline"@.len());
    reveal_strlit("!blink");
    assert("default"@.len() != "!blink"@.len());
    reveal_strlit("!inverse");
    assert("default"@.len() != "!inverse"@.len());
    reveal_strlit("!hide");
    assert("default"@.len() != "!hide"@.len());
    reveal_strlit("!strike");
    assert("default"@[0] != "!strike"@[0]);
    reveal_strlit("black");
    assert("default"@.len() != "black"@.len());
    reveal_strlit("red");
    assert("default"@.len() != "red"@.len());
    reveal_strlit("green");
    assert("default"@.len() != "green"@.len());
    reveal_strlit("yellow");
    assert("default"@.len() != "yellow"@.len());
    reveal_strlit("blue");
    assert("default"@.len() != "blue"@.len());
    reveal_strlit("magenta");
    assert("default"@[0] != "magenta"@[0]);
    reveal_strlit("cyan");
    assert("default"@.len() != "cyan"@.len());
    reveal_strlit("white");
    assert("default"@.len() != "white"@.len());
}

proof fn lemma_keyword_26()
    ensures
        common_code("on-black"@) == Some(color_codes(Color::BlackBg)[0]),
{
    reveal_strlit("on-black");
    reveal_strlit("reset");
    assert("on-black"@.len() != "reset"@.len());
    reveal_strlit("bold");
    assert("on-black"@.len() != "bold"@.len());
    reveal_strlit("dim");
    assert("on-black"@.len() != "dim"@.len());
    reveal_strlit("italic");
    assert("on-black"@.len() != "italic"@.len());
    reveal_strlit("underline");
    assert("on-black"@.len() != "underline"@.len());
    reveal_strlit("blink");
    assert("on-black"@.len() != "blink"@.len());
    reveal_strlit("inverse");
    assert("on-black"@.len() != "inverse"@.len());
    reveal_strlit("hide");
    assert("on-black"@.len() != "hide"@.len());
    reveal_strlit("strike");
    assert("on-black"@.len() != "strike"@.len());
    reveal_strlit("!bold");
    assert("on-black"@.len() != "!bold"@.len());
    reveal_strlit("!dim");
    assert("on-black"@.len() != "!dim"@.len());
    reveal_strlit("!italic");
    assert("on-black"@.len() != "!italic"@.len());
    reveal_strlit("!underline");
    assert("on-black"@.len() != "!underline"@.len());
    reveal_strlit("!blink");
    assert("on-black"@.len() != "!blink"@.len());
    reveal_strlit("!inverse");
    assert("on-black"@[0] != "!inverse"@[0]);
    reveal_strlit("!hide");
    assert("on-black"@.len() != "!hide"@.len());
    reveal_strlit("!strike");
    assert("on-black"@.len() != "!strike"@.len());
    reveal_strlit("black");
    assert("on-black"@.len() != "black"@.len());
    reveal_strlit("red");
    assert("on-black"@.len() != "red"@.len());
    reveal_strlit("green");
    assert("on-black"@.len() != "green"@.len());
    reveal_strlit("yellow");
    assert("on-black"@.len() != "yellow"@.len());
    reveal_strlit("blue");
    assert("on-black"@.len() != "blue"@.len());
    reveal_strlit("magenta");
    assert("on-black"@.len() != "magenta"@.len());
    reveal_strlit("cyan");
    assert("on-black"@.len() != "cyan"@.len());
    reveal_strlit("white");
    assert("on-black"@.len() != "white"@.len());
    reveal_strlit("default");
    assert("on-black"@.len() != "default"@.len());
}

proof fn lemma_keyword_27()
    ensures
        common_code("on-red"@) == Some(color_codes(Color::RedBg)[0]),
{
    reveal_strlit("on-red");
    reveal_strlit("reset");
    assert("on-red"@.len() != "reset"@.len());
    reveal_strlit("bold");
    assert("on-red"@.len() != "bold"@.len());
    reveal_strlit("dim");
    assert("on-red"@.len() != "dim"@.len());
    reveal_strlit("italic");
    assert("on-red"@[0] != "italic"@[0]);
    reveal_strlit("underline");
    assert("on-red"@.len() != "underline"@.len());
    reveal_strlit("blink");
    assert("on-red"@.len() != "blink"@.len());
    reveal_strlit("inverse");
    assert("on-red"@.len() != "inverse"@.len());
    reveal_strlit("hide");
    assert("on-red"@.len() != "hide"@.len());
    reveal_strlit("strike");
    assert("on-red"@[0] != "strike"@[0]);
    reveal_strlit("!bold");
    assert("on-red"@.len() != "!bold"@.len());
    reveal_strlit("!dim");
    assert("on-red"@.len() != "!dim"@.len());
    reveal_strlit("!italic");
    assert("on-red"@.len() != "!italic"@.len());
    reveal_strlit("!underline");
    assert("on-red"@.len() != "!underline"@.len());
    reveal_strlit("!blink");
    assert("on-red"@[0] != "!blink"@[0]);
    reveal_strlit("!inverse");
    assert("on-red"@.len() != "!inverse"@.len());
    reveal_strlit("!hide");
    assert("on-red"@.len() != "!hide"@.len());
    reveal_strlit("!strike");
    assert("on-red"@.len() != "!strike"@.len());
    reveal_strlit("black");
    assert("on-red"@.len() != "black"@.len());
    reveal_strlit("red");
    assert("on-red"@.len() != "red"@.len());
    reveal_strlit("green");
    assert("on-red"@.len() != "green"@.len());
    reveal_strlit("yellow");
    assert("on-red"@[0] != "yellow"@[0]);
    reveal_strlit("blue");
    assert("on-red"@.len() != "blue"@.len());
    reveal_strlit("magenta");
    assert("on-red"@.len() != "magenta"@.len());
    reveal_strlit("cyan");
    assert("on-red"@.len() != "cyan"@.len());
    reveal_strlit("white");
    assert("on-red"@.len() != "white"@.len());
    reveal_strlit("default");
    assert("on-red"@.len() != "default"@.len());
    reveal_strlit("on-black");
    assert("on-red"@.len() != "on-black"@.len());
}

proof fn lemma_keyword_28()
    ensures
        common_code("on-green"@) == Some(color_codes(Color::GreenBg)[0]),
{
    reveal_strlit("on-green");
    reveal_strlit("reset");
    assert("on-green"@.len() != "reset"@.len());
    reveal_strlit("bold");
    assert("on-green"@.len() != "bold"@.len());
    reveal_strlit("dim");
    assert("on-green"@.len() != "dim"@.len());
    reveal_strlit("italic");
    assert("on-green"@.len() != "italic"@.len());
    reveal_strlit("underline");
    assert("on-green"@.len() != "underline"@.len());
    reveal_strlit("blink");
    assert("on-green"@.len() != "blink"@.len());
    reveal_strlit("inverse");
    assert("on-green"@.len() != "inverse"@.len());
    reveal_strlit("hide");
    assert("on-green"@.len() != "hide"@.len());
    reveal_strlit("strike");
    assert("on-green"@.len() != "strike"@.len());
    reveal_strlit("!bold");
    assert("on-green"@.len() != "!bold"@.len());
    reveal_strlit("!dim");
    assert("on-green"@.len() != "!dim"@.len());
    reveal_strlit("!italic");
    assert("on-green"@.len() != "!italic"@.len());
    reveal_strlit("!underline");
    assert("on-green"@.len() != "!underline"@.len());
    reveal_strlit("!blink");
    assert("on-green"@.len() != "!blink"@.len());
    reveal_strlit("!inverse");
    assert("on-green"@[0] != "!inverse"@[0]);
    reveal_strlit("!hide");
    assert("on-green"@.len() != "!hide"@.len());
    reveal_strlit("!strike");
    assert("on-green"@.len() != "!strike"@.len());
    reveal_strlit("black");
    assert("on-green"@.len() != "black"@.len());
    reveal_strlit("red");
    assert("on-green"@.len() != "red"@.len());
    reveal_strlit("green");
    assert("on-green"@.len() != "green"@.len());
    reveal_strlit("yellow");
    assert("on-green"@.len() != "yellow"@.len());
    reveal_strlit("blue");
    assert("on-green"@.len() != "blue"@.len());
    reveal_strlit("magenta");
    assert("on-green"@.len() != "magenta"@.len());
    reveal_strlit("cyan");
    assert("on-green"@.len() != "cyan"@.len());
    reveal_strlit("white");
    assert("on-green"@.len() != "white"@.len());
    reveal_strlit("default");
    assert("on-green"@.len() != "default"@.len());
    reveal_strlit("on-black");
    assert("on-green"@[3] != "on-black"@[3]);
    reveal_strlit("on-red");
    assert("on-green"@.len() != "on-red"@.len());
}

proof fn lemma_keyword_29()
    ensures
        common_code("on-yellow"@) == Some(color_codes(Color::YellowBg)[0]),
{
    reveal_strlit("on-yellow");
    reveal_strlit("reset");
    assert("on-yellow"@.len() != "reset"@.len());
    reveal_strlit("bold");
    assert("on-yellow"@.len() != "bold"@.len());
    reveal_strlit("dim");
    assert("on-yellow"@.len() != "dim"@.len());
    reveal_strlit("italic");
    assert("on-yellow"@.len() != "italic"@.len());
    reveal_strlit("underline");
    assert("on-yellow"@[0] != "underline"@[0]);
    reveal_strlit("blink");
    assert("on-yellow"@.len() != "blink"@.len());
    reveal_strlit("inverse");
    assert("on-yellow"@.len() != "inverse"@.len());
    reveal_strlit("hide");
    assert("on-yellow"@.len() != "hide"@.len());
    reveal_strlit("strike");
    assert("on-yellow"@.len() != "strike"@.len());
    reveal_strlit("!bold");
    assert("on-yellow"@.len() != "!bold"@.len());
    reveal_strlit("!dim");
    assert("on-yellow"@.len() != "!dim"@.len());
    reveal_strlit("!italic");
    assert("on-yellow"@.len() != "!italic"@.len());
    reveal_strlit("!underline");
    assert("on-yellow"@.len() != "!underline"@.len());
    reveal_strlit("!blink");
    assert("on-yellow"@.len() != "!blink"@.len());
    reveal_strlit("!inverse");
    assert("on-yellow"@.len() != "!inverse"@.len());
    reveal_strlit("!hide");
    assert("on-yellow"@.len() != "!hide"@.len());
    reveal_strlit("!strike");
    assert("on-yellow"@.len() != "!strike"@.len());
    reveal_strlit("black");
    assert("on-yellow"@.len() != "black"@.len());
    reveal_strlit("red");
    assert("on-yellow"@.len() != "red"@.len());
    reveal_strlit("green");
    assert("on-yellow"@.len() != "green"@.len());
    reveal_strlit("yellow");
    assert("on-yellow"@.len() != "yellow"@.len());
    reveal_strlit("blue");
    assert("on-yellow"@.len() != "blue"@.len());
    reveal_strlit("magenta");
    assert("on-yellow"@.len() != "magenta"@.len());
    reveal_strlit("cyan");
    assert("on-yellow"@.len() != "cyan"@.len());
    reveal_strlit("white");
    assert("on-yellow"@.len() != "white"@.len());
    reveal_strlit("default");
    assert("on-yellow"@.len() != "default"@.len());
    reveal_strlit("on-black");
    assert("on-yellow"@.len() != "on-black"@.len());
    reveal_strlit("on-red");
    assert("on-yellow"@.len() != "on-red"@.len());
    reveal_strlit("on-green");
    assert("on-yellow"@.len() != "on-green"@.len());
}

proof fn lemma_keyword_30()
    ensures
        common_code("on-blue"@) == Some(color_codes(Color::BlueBg)[0]),
{
    reveal_strlit("on-blue");
    reveal_strlit("reset");
    assert("on-blue"@.len() != "reset"@.len());
    reveal_strlit("bold");
    assert("on-blue"@.len() != "bold"@.len());
    reveal_strlit("dim");
    assert("on-blue"@.len() != "dim"@.len());
    reveal_strlit("italic");
    assert("on-blue"@.len() != "italic"@.len());
    reveal_strlit("underline");
    assert("on-blue"@.len() != "underline"@.len());
    reveal_strlit("blink");
    assert("on-blue"@.len() != "blink"@.len());
    reveal_strlit("inverse");
    assert("on-blue"@[0] != "inverse"@[0]);
    reveal_strlit("hide");
    assert("on-blue"@.len() != "hide"@.len());
    reveal_strlit("strike");
    assert("on-blue"@.len() != "strike"@.len());
    reveal_strlit("!bold");
    assert("on-blue"@.len() != "!bold"@.len());
    reveal_strlit("!dim");
    assert("on-blue"@.len() != "!dim"@.len());
    reveal_strlit("!italic");
    assert("on-blue"@[0] != "!italic"@[0]);
    reveal_strlit("!underline");
    assert("on-blue"@.len() != "!underline"@.len());
    reveal_strlit("!blink");
    assert("on-blue"@.len() != "!blink"@.len());
    reveal_strlit("!inverse");
    assert("on-blue"@.len() != "!inverse"@.len());
    reveal_strlit("!hide");
    assert("on-blue"@.len() != "!hide"@.len());
    reveal_strlit("!strike");
    assert("on-blue"@[0] != "!strike"@[0]);
    reveal_strlit("black");
    assert("on-blue"@.len() != "black"@.len());
    reveal_strlit("red");
    assert("on-blue"@.len() != "red"@.len());
    reveal_strlit("green");
    assert("on-blue"@.len() != "green"@.len());
    reveal_strlit("yellow");
    assert("on-blue"@.len() != "yellow"@.len());
    reveal_strlit("blue");
    assert("on-blue"@.len() != "blue"@.len());
    reveal_strlit("magenta");
    assert("on-blue"@[0] != "magenta"@[0]);
    reveal_strlit("cyan");
    assert("on-blue"@.len() != "cyan"@.len());
    reveal_strlit("white");
    assert("on-blue"@.len() != "white"@.len());
    reveal_strlit("default");
    assert("on-blue"@[0] != "default"@[0]);
    reveal_strlit("on-black");
    assert("on-blue"@.len() != "on-black"@.len());
    reveal_strlit("on-red");
    assert("on-blue"@.len() != "on-red"@.len());
    reveal_strlit("on-green");
    assert("on-blue"@.len() != "on-green"@.len());
    reveal_strlit("on-yellow");
    assert("on-blue"@.len() != "on-yellow"@.len());
}

proof fn lemma_keyword_31()
    ensures
        common_code("on-magenta"@) == Some(color_codes(Color::MagentaBg)[0]),
{
    reveal_strlit("on-magenta");
    reveal_strlit("reset");
    assert("on-magenta"@.len() != "reset"@.len());
    reveal_strlit("bold");
    assert("on-magenta"@.len() != "bold"@.len());
    reveal_strlit("dim");
    assert("on-magenta"@.len() != "dim"@.len());
    reveal_strlit("italic");
    assert("on-magenta"@.len() != "italic"@.len());
    reveal_strlit("underline");
    assert("on-magenta"@.len() != "underline"@.len());
    reveal_strlit("blink");
    assert("on-magenta"@.len() != "blink"@.len());
    reveal_strlit("inverse");
    assert("on-magenta"@.len() != "inverse"@.len());
    reveal_strlit("hide");
    assert("on-magenta"@.len() != "hide"@.len());
    reveal_strlit("strike");
    assert("on-magenta"@.len() != "strike"@.len());
    reveal_strlit("!bold");
    assert("on-magenta"@.len() != "!bold"@.len());
    reveal_strlit("!dim");
    assert("on-magenta"@.len() != "!dim"@.len());
    reveal_strlit("!italic");
    assert("on-magenta"@.len() != "!italic"@.len());
    reveal_strlit("!underline");
    assert("on-magenta"@[0] != "!underline"@[0]);
    reveal_strlit("!blink");
    assert("on-magenta"@.len() != "!blink"@.len());
    reveal_strlit("!inverse");
    assert("on-magenta"@.len() != "!inverse"@.len());
    reveal_strlit("!hide");
    assert("on-magenta"@.len() != "!hide"@.len());
    reveal_strlit("!strike");
    assert("on-magenta"@.len() != "!strike"@.len());
    reveal_strlit("black");
    assert("on-magenta"@.len() != "black"@.len());
    reveal_strlit("red");
    assert("on-magenta"@.len() != "red"@.len());
    reveal_strlit("green");
    assert("on-magenta"@.len() != "green"@.len());
    reveal_strlit("yellow");
    assert("on-magenta"@.len() != "yellow"@.len());
    reveal_strlit("blue");
    assert("on-magenta"@.len() != "blue"@.len());
    reveal_strlit("magenta");
    assert("on-magenta"@.len() != "magenta"@.len());
    reveal_strlit("cyan");
    assert("on-magenta"@.len() != "cyan"@.len());
    reveal_strlit("white");
    assert("on-magenta"@.len() != "white"@.len());
    reveal_strlit("default");
    assert("on-magenta"@.len() != "default"@.len());
    reveal_strlit("on-black");
    assert("on-magenta"@.len() != "on-black"@.len());
    reveal_strlit("on-red");
    assert("on-magenta"@.len() != "on-red"@.len());
    reveal_strlit("on-green");
    assert("on-magenta"@.len() != "on-green"@.len());
    reveal_strlit("on-yellow");
    assert("on-magenta"@.len() != "on-yellow"@.len());
    reveal_strlit("on-blue");
    assert("on-magenta"@.len() != "on-blue"@.len());
}

proof fn lemma_keyword_32()
    ensures
        common_code("on-cyan"@) == Some(color_codes(Color::CyanBg)[0]),
{
    reveal_strlit("on-cyan");
    reveal_strlit("reset");
    assert("on-cyan"@.len() != "reset"@.len());
    reveal_strlit("bold");
    assert("on-cyan"@.len() != "bold"@.len());
    reveal_strlit("dim");
    assert("on-cyan"@.len() != "dim"@.len());
    reveal_strlit("italic");
    assert("on-cyan"@.len() != "italic"@.len());
    reveal_strlit("underline");
    assert("on-cyan"@.len() != "underline"@.len());
    reveal_strlit("blink");
    assert("on-cyan"@.len() != "blink"@.len());
    reveal_strlit("inverse");
    assert("on-cyan"@[0] != "inverse"@[0]);
    reveal_strlit("hide");
    assert("on-cyan"@.len() != "hide"@.len());
    reveal_strlit("strike");
    assert("on-cyan"@.len() != "strike"@.len());
    reveal_strlit("!bold");
    assert("on-cyan"@.len() != "!bold"@.len());
    reveal_strlit("!dim");
    assert("on-cyan"@.len() != "!dim"@.len());
    reveal_strlit("!italic");
    assert("on-cyan"@[0] != "!italic"@[0]);
    reveal_strlit("!underline");
    assert("on-cyan"@.len() != "!underline"@.len());
    reveal_strlit("!blink");
    assert("on-cyan"@.len() != "!blink"@.len());
    reveal_strlit("!inverse");
    assert("on-cyan"@.len() != "!inverse"@.len());
    reveal_strlit("!hide");
    assert("on-cyan"@.len() != "!hide"@.len());
    reveal_strlit("!strike");
    assert("on-cyan"@[0] != "!strike"@[0]);
    reveal_strlit("black");
    assert("on-cyan"@.len() != "black"@.len());
    reveal_strlit("red");
    assert("on-cyan"@.len() != "red"@.len());
    reveal_strlit("green");
    assert("on-cyan"@.len() != "green"@.len());
    reveal_strlit("yellow");
    assert("on-cyan"@.len() != "yellow"@.len());
    reveal_strlit("blue");
    assert("on-cyan"@.len() != "blue"@.len());
    reveal_strlit("magenta");
    assert("on-cyan"@[0] != "magenta"@[0]);
    reveal_strlit("cyan");
    assert("on-cyan"@.len() != "cyan"@.len());
    reveal_strlit("white");
    assert("on-cyan"@.len() != "white"@.len());
    reveal_strlit("default");
    assert("on-cyan"@[0] != "default"@[0]);
    reveal_strlit("on-black");
    assert("on-cyan"@.len() != "on-black"@.len());
    reveal_strlit("on-red");
    assert("on-cyan"@.len() != "on-red"@.len());
    reveal_strlit("on-green");
    assert("on-cyan"@.len() != "on-green"@.len());
    reveal_strlit("on-yellow");
    assert("on-cyan"@.len() != "on-yellow"@.len());
    reveal_strlit("on-blue");
    assert("on-cyan"@[3] != "on-blue"@[3]);
    reveal_strlit("on-magenta");
    assert("on-cyan"@.len() != "on-magenta"@.len());
}

proof fn lemma_keyword_33()
    ensures
        common_code("on-white"@) == Some(color_codes(Color::WhiteBg)[0]),
{
    reveal_strlit("on-white");
    reveal_strlit("reset");
    assert("on-white"@.len() != "reset"@.len());
    reveal_strlit("bold");
    assert("on-white"@.len() != "bold"@.len());
    reveal_strlit("dim");
    assert("on-white"@.len() != "dim"@.len());
    reveal_strlit("italic");
    assert("on-white"@.len() != "italic"@.len());
    reveal_strlit("underline");
    assert("on-white"@.len() != "underline"@.len());
    reveal_strlit("blink");
    assert("on-white"@.len() != "blink"@.len());
    reveal_strlit("inverse");
    assert("on-white"@.len() != "inverse"@.len());
    reveal_strlit("hide");
    assert("on-white"@.len() != "hide"@.len());
    reveal_strlit("strike");
    assert("on-white"@.len() != "strike"@.len());
    reveal_strlit("!bold");
    assert("on-white"@.len() != "!bold"@.len());
    reveal_strlit("!dim");
    assert("on-white"@.len() != "!dim"@.len());
    reveal_strlit("!italic");
    assert("on-white"@.len() != "!italic"@.len());
    reveal_strlit("!underline");
    assert("on-white"@.len() != "!underline"@.len());
    reveal_strlit("!blink");
    assert("on-white"@.len() != "!blink"@.len());
    reveal_strlit("!inverse");
    assert("on-white"@[0] != "!inverse"@[0]);
    reveal_strlit("!hide");
    assert("on-white"@.len() != "!hide"@.len());
    reveal_strlit("!strike");
    assert("on-white"@.len() != "!strike"@.len());
    reveal_strlit("black");
    assert("on-white"@.len() != "black"@.len());
    reveal_strlit("red");
    assert("on-white"@.len() != "red"@.len());
    reveal_strlit("green");
    assert("on-white"@.len() != "green"@.len());
    reveal_strlit("yellow");
    assert("on-white"@.len() != "yellow"@.len());
    reveal_strlit("blue");
    assert("on-white"@.len() != "blue"@.len());
    reveal_strlit("magenta");
    assert("on-white"@.len() != "magenta"@.len());
    reveal_strlit("cyan");
    assert("on-white"@.len() != "cyan"@.len());
    reveal_strlit("white");
    assert("on-white"@.len() != "white"@.len());
    reveal_strlit("default");
    assert("on-white"@.len() != "default"@.len());
    reveal_strlit("on-black");
    assert("on-white"@[3] != "on-black"@[3]);
    reveal_strlit("on-red");
    assert("on-white"@.len() != "on-red"@.len());
    reveal_strlit("on-green");
    assert("on-white"@[3] != "on-green"@[3]);
    reveal_strlit("on-yellow");
    assert("on-white"@.len() != "on-yellow"@.len());
    reveal_strlit("on-blue");
    assert("on-white"@.len() != "on-blue"@.len());
    reveal_strlit("on-magenta");
    assert("on-white"@.len() != "on-magenta"@.len());
    reveal_strlit("on-cyan");
    assert("on-white"@.len() != "on-cyan"@.len());
}

proof fn lemma_keyword_34()
    ensures
        common_code("on-default"@) == Some(color_codes(Color::DefaultBg)[0]),
{
    reveal_strlit("on-default");
    reveal_strlit("reset");
    assert("on-default"@.len() != "reset"@.len());
    reveal_strlit("bold");
    assert("on-default"@.len() != "bold"@.len());
    reveal_strlit("dim");
    assert("on-default"@.len() != "dim"@.len());
    reveal_strlit("italic");
    assert("on-default"@.len() != "italic"@.len());
    reveal_strlit("underline");
    assert("on-default"@.len() != "underline"@.len());
    reveal_strlit("blink");
    assert("on-default"@.len() != "blink"@.len());
    reveal_strlit("inverse");
    assert("on-default"@.len() != "inverse"@.len());
    reveal_strlit("hide");
    assert("on-default"@.len() != "hide"@.len());
    reveal_strlit("strike");
    assert("on-default"@.len() != "strike"@.len());
    reveal_strlit("!bold");
    assert("on-default"@.len() != "!bold"@.len());
    reveal_strlit("!dim");
    assert("on-default"@.len() != "!dim"@.len());
    reveal_strlit("!italic");
    assert("on-default"@.len() != "!italic"@.len());
    reveal_strlit("!underline");
    assert("on-default"@[0] != "!underline"@[0]);
    reveal_strlit("!blink");
    assert("on-default"@.len() != "!blink"@.len());
    reveal_strlit("!inverse");
    assert("on-default"@.len() != "!inverse"@.len());
    reveal_strlit("!hide");
    assert("on-default"@.len() != "!hide"@.len());
    reveal_strlit("!strike");
    assert("on-default"@.len() != "!strike"@.len());
    reveal_strlit("black");
    assert("on-default"@.len() != "black"@.len());
    reveal_strlit("red");
    assert("on-default"@.len() != "red"@.len());
    reveal_strlit("green");
    assert("on-default"@.len() != "green"@.len());
    reveal_strlit("yellow");
    assert("on-default"@.len() != "yellow"@.len());
    reveal_strlit("blue");
    assert("on-default"@.len() != "blue"@.len());
    reveal_strlit("magenta");
    assert("on-default"@.len() != "magenta"@.len());
    reveal_strlit("cyan");
    assert("on-default"@.len() != "cyan"@.len());
    reveal_strlit("white");
    assert("on-default"@.len() != "white"@.len());
    reveal_strlit("default");
    assert("on-default"@.len() != "default"@.len());
    reveal_strlit("on-black");
    assert("on-default"@.len() != "on-black"@.len());
    reveal_strlit("on-red");
    assert("on-default"@.len() != "on-red"@.len());
    reveal_strlit("on-green");
    assert("on-default"@.len() != "on-green"@.len());
    reveal_strlit("on-yellow");
    assert("on-default"@.len() != "on-yellow"@.len());
    reveal_strlit("on-blue");
    assert("on-default"@.len() != "on-blue"@.len());
    reveal_strlit("on-magenta");
    assert("on-default"@[3] != "on-magenta"@[3]);
    reveal_strlit("on-cyan");
    assert("on-default"@.len() != "on-cyan"@.len());
    reveal_strlit("on-white");
    assert("on-default"@.len() != "on-white"@.len());
}

/// Each simple keyword stands for the code of the style or color of the same
/// meaning: `bold` for [`Style::Bold`], `!dim` for [`Style::NotDim`], `red`
/// for [`Color::RedFg`], `on-red` for [`Color::RedBg`], and so on.
pub proof fn law_keywords_match_values()
    ensures
        common_code("reset"@) == Some(style_code(Style::Reset)),
        common_code("bold"@) == Some(style_code(Style::Bold)),
        common_code("dim"@) == Some(style_code(Style::Dim)),
        common_code("italic"@) == Some(style_code(Style::Italic)),
        common_code("underline"@) == Some(style_code(Style::Underline)),
        common_code("blink"@) == Some(style_code(Style::Blinking)),
        common_code("inverse"@) == Some(style_code(Style::Inverse)),
        common_code("hide"@) == Some(style_code(Style::Hidden)),
        common_code("strike"@) == Some(style_code(Style::Strikethrough)),
        common_code("!bold"@) == Some(style_code(Style::NotBold)),
        common_code("!dim"@) == Some(style_code(Style::NotDim)),
        common_code("!italic"@) == Some(style_code(Style::NotItalic)),
        common_code("!underline"@) == Some(style_code(Style::NotUnderline)),
        common_code("!blink"@) == Some(style_code(Style::NotBlinking)),
        common_code("!inverse"@) == Some(style_code(Style::NotInverse)),
        common_code("!hide"@) == Some(style_code(Style::NotHidden)),
        common_code("!strike"@) == Some(style_code(Style::NotStrikethrough)),
        common_code("black"@) == Some(color_codes(Color::BlackFg)[0]),
        common_code("red"@) == Some(color_codes(Color::RedFg)[0]),
        common_code("green"@) == Some(color_codes(Color::GreenFg)[0]),
        common_code("yellow"@) == Some(color_codes(Color::YellowFg)[0]),
        common_code("blue"@) == Some(color_codes(Color::BlueFg)[0]),
        common_code("magenta"@) == Some(color_codes(Color::MagentaFg)[0]),
        common_code("cyan"@) == Some(color_codes(Color::CyanFg)[0]),
        common_code("white"@) == Some(color_codes(Color::WhiteFg)[0]),
        common_code("default"@) == Some(color_codes(Color::DefaultFg)[0]),
        common_code("on-black"@) == Some(color_codes(Color::BlackBg)[0]),
        common_code("on-red"@) == Some(color_codes(Color::RedBg)[0]),
        common_code("on-green"@) == Some(color_codes(Color::GreenBg)[0]),
        common_code("on-yellow"@) == Some(color_codes(Color::YellowBg)[0]),
        common_code("on-blue"@) == Some(color_codes(Color::BlueBg)[0]),
        common_code("on-magenta"@) == Some(color_codes(Color::MagentaBg)[0]),
        common_code("on-cyan"@) == Some(color_codes(Color::CyanBg)[0]),
        common_code("on-white"@) == Some(color_codes(Color::WhiteBg)[0]),
        common_code("on-default"@) == Some(color_codes(Color::DefaultBg)[0]),
{
    lemma_keyword_0();
    lemma_keyword_1();
    lemma_keyword_2();
    lemma_keyword_3();
    lemma_keyword_4();
    lemma_keyword_5();
    lemma_keyword_6();
    lemma_keyword_7();
    lemma_keyword_8();
    lemma_keyword_9();
    lemma_keyword_10();
    lemma_keyword_11();
    lemma_keyword_12();
    lemma_keyword_13();
    lemma_keyword_14();
    lemma_keyword_15();
    lemma_keyword_16();
    lemma_keyword_17();
    lemma_keyword_18();
    lemma_keyword_19();
    lemma_keyword_20();
    lemma_keyword_21();
    lemma_keyword_22();
    lemma_keyword_23();
    lemma_keyword_24();
    lemma_keyword_25();
    lemma_keyword_26();
    lemma_keyword_27();
    lemma_keyword_28();
    lemma_keyword_29();
    lemma_keyword_30();
    lemma_keyword_31();
    lemma_keyword_32();
    lemma_keyword_33();
    lemma_keyword_34();
}

/// A `\u{..}` escape with two hex digits gives the character whose value they
/// write, high digit first, for every value up to `0xff`.
pub proof fn law_unicode_escape(n: u8, merge: bool)
    ensures
        sgr_curly_spec(seq!['\\', 'u', '{'] + hex_pair(n) + seq!['}'], merge) matches Ok(o)
            && o.len() == 1 && o[0] as int == n as int,
{
    let s = seq!['\\', 'u', '{'] + hex_pair(n) + seq!['}'];
    let h = hex_pair(n);
    lemma_hex_digit_value((n / 16) as nat);
    lemma_hex_digit_value((n % 16) as nat);
    assert(s[3] == h[0] && s[4] == h[1] && s[5] == '}');
    assert(find_from(s, 5, '}') == Some(5int));
    assert(find_from(s, 4, '}') == Some(5int)) by {
        assert(s[4] != '}');
    }
    assert(s.subrange(3, 5) =~= h);
    let e = Seq::<char>::empty();
    let h1 = seq![hex_digit((n / 16) as nat)];
    assert(digits_value(e, 16, 0xFFFF_FFFF) == Ok::<nat, crate::number::IntErrorKind>(0));
    assert(h1.drop_last() =~= e);
    assert(digits_value(h1, 16, 0xFFFF_FFFF) == Ok::<nat, crate::number::IntErrorKind>((n / 16) as nat));
    assert(h.drop_last() =~= h1);
    assert(digits_value(h, 16, 0xFFFF_FFFF) == Ok::<nat, crate::number::IntErrorKind>(n as nat));
    assert(parse_uint(h, 16, 0xFFFF_FFFF) == Ok::<nat, crate::number::IntErrorKind>(n as nat));
    assert(unicode_spec(s, 2) == Some(((n as nat) as char, 6int)));
    reveal(escape_spec);
    assert(step_spec(s, 0, merge) == Ok::<(Seq<char>, int), Error>((seq![(n as nat) as char], 6)));
    assert(sgr_from(s, 6, merge) == Ok::<Seq<char>, Error>(seq![]));
    assert(seq![(n as nat) as char] + Seq::<char>::empty() =~= seq![(n as nat) as char]);
}

} // verus!
