//! Characters, decimal numbers and the rendering of SGR code sequences.
use vstd::prelude::*;

verus! {

/// The character of the decimal digit `d`.
pub open spec fn digit_char(d: int) -> char {
    (48 + d) as char
}

/// The decimal representation of `n`, without leading zeros.
pub open spec fn decimal(n: u8) -> Seq<char> {
    if n >= 100 {
        seq![digit_char((n / 100) as int), digit_char(((n / 10) % 10) as int), digit_char((n % 10) as int)]
    } else if n >= 10 {
        seq![digit_char((n / 10) as int), digit_char((n % 10) as int)]
    } else {
        seq![digit_char(n as int)]
    }
}

/// The codes written in decimal and separated by `;`.
pub open spec fn join_codes(codes: Seq<u8>) -> Seq<char>
    decreases codes.len(),
{
    if codes.len() == 0 {
        seq![]
    } else if codes.len() == 1 {
        decimal(codes[0])
    } else {
        join_codes(codes.drop_last()) + seq![';'] + decimal(codes.last())
    }
}

/// The escape that opens an SGR sequence, `\x1b[`.
pub open spec fn escape_chars() -> Seq<char> {
    seq!['\u{1b}', '[']
}

/// A complete SGR sequence for the codes: nothing when there are no codes,
/// else the escape, the joined codes and the end character `m`.
pub open spec fn render_codes(codes: Seq<u8>) -> Seq<char> {
    if codes.len() == 0 {
        seq![]
    } else {
        escape_chars() + join_codes(codes) + seq!['m']
    }
}

/// Appends one character to a string, by the standard library's
/// `String::push`; its contract claims that the character is added at the end
/// and nothing else changes.
#[verifier::external_body]
pub(crate) fn push_char(s: &mut String, c: char)
    ensures
        final(s)@ == old(s)@.push(c),
{
    s.push(c);
}

/// The characters of a string slice.
pub fn chars_of(s: &str) -> (v: Vec<char>)
    ensures
        v@ == s@,
{
    let mut v: Vec<char> = Vec::new();
    for c in it: s.chars()
        invariant
            v@ == it.seq().take(it.index() as int),
    {
        v.push(c);
    }
    v
}

/// The character of a decimal digit.
fn digit(d: u8) -> (c: char)
    requires
        d < 10,
    ensures
        c == digit_char(d as int),
{
    (48u8 + d) as char
}

/// Appends the decimal representation of `n` to `s`.
pub fn append_decimal(n: u8, s: &mut String)
    ensures
        final(s)@ == old(s)@ + decimal(n),
{
    let ghost start = s@;
    let mut m = n;
    if m >= 10 {
        if m >= 100 {
            push_char(s, digit(m / 100));
            m = m % 100;
        }
        push_char(s, digit(m / 10));
        m = m % 10;
    }
    push_char(s, digit(m));
    assert(s@ =~= start + decimal(n));
}

/// The decimal representation of `n`, without leading zeros.
pub open spec fn nat_decimal(n: nat) -> Seq<char>
    decreases n,
{
    if n < 10 {
        seq![digit_char(n as int)]
    } else {
        nat_decimal(n / 10) + seq![digit_char((n % 10) as int)]
    }
}

/// Appends the decimal representation of `n` to `s`.
pub fn append_usize(n: usize, s: &mut String)
    ensures
        final(s)@ == old(s)@ + nat_decimal(n as nat),
    decreases n,
{
    if n >= 10 {
        append_usize(n / 10, s);
    }
    let d = (n % 10) as u8;
    let ghost before = s@;
    push_char(s, digit(d));
    assert(s@ =~= old(s)@ + nat_decimal(n as nat));
}

/// Appends the codes in decimal, separated by `;`.
pub fn append_joined(codes: &[u8], r: &mut String)
    ensures
        final(r)@ == old(r)@ + join_codes(codes@),
{
    let ghost start = r@;
    let mut i: usize = 0;
    assert(join_codes(codes@.take(0)) =~= Seq::<char>::empty());
    while i < codes.len()
        invariant
            0 <= i <= codes.len(),
            r@ == start + join_codes(codes@.take(i as int)),
        decreases codes.len() - i,
    {
        if i > 0 {
            push_char(r, ';');
        }
        append_decimal(codes[i], r);
        assert(codes@.take(i + 1).drop_last() =~= codes@.take(i as int));
        i = i + 1;
        assert(r@ =~= start + join_codes(codes@.take(i as int)));
    }
    assert(codes@.take(codes.len() as int) =~= codes@);
}

/// The SGR sequence for the codes: empty when there are none,
/// else `\x1b[`, the codes in decimal separated by `;`, and `m`.
pub fn render(codes: &[u8]) -> (r: String)
    ensures
        r@ == render_codes(codes@),
{
    let mut r = String::new();
    if codes.len() == 0 {
        return r;
    }
    push_char(&mut r, '\u{1b}');
    push_char(&mut r, '[');
    append_joined(codes, &mut r);
    push_char(&mut r, 'm');
    assert(r@ =~= render_codes(codes@));
    r
}

/// The codes as written after a writer that starts a new list of codes
/// (`first`) or continues one, which needs a `;` first.
pub open spec fn codes_text(first: bool, codes: Seq<u8>) -> Seq<char> {
    if codes.len() == 0 {
        seq![]
    } else if first {
        join_codes(codes)
    } else {
        seq![';'] + join_codes(codes)
    }
}

/// Joining two lists of codes puts a `;` between their joins.
pub proof fn lemma_join_concat(a: Seq<u8>, b: Seq<u8>)
    requires
        a.len() > 0,
        b.len() > 0,
    ensures
        join_codes(a + b) == join_codes(a) + seq![';'] + join_codes(b),
    decreases b.len(),
{
    if b.len() == 1 {
        assert((a + b).drop_last() =~= a);
        assert((a + b).last() == b[0]);
    } else {
        lemma_join_concat(a, b.drop_last());
        assert((a + b).drop_last() =~= a + b.drop_last());
        assert((a + b).last() == b.last());
        assert(join_codes(a + b) =~= join_codes(a) + seq![';'] + join_codes(b));
    }
}

/// Writing codes in two parts writes what writing them at once does.
pub proof fn lemma_codes_text_concat(first: bool, a: Seq<u8>, b: Seq<u8>)
    ensures
        codes_text(first, a) + codes_text(first && a.len() == 0, b) == codes_text(first, a + b),
{
    if a.len() == 0 {
        assert(a + b =~= b);
        assert(codes_text(first, a) + codes_text(first, b) =~= codes_text(first, b));
    } else if b.len() == 0 {
        assert(a + b =~= a);
        assert(codes_text(first, a) + seq![] =~= codes_text(first, a));
    } else {
        lemma_join_concat(a, b);
        assert(codes_text(first, a) + codes_text(false, b) =~= codes_text(first, a + b));
    }
}

/// Decimal digits are ASCII characters.
pub proof fn lemma_decimal_ascii(n: u8, i: int)
    requires
        0 <= i < decimal(n).len(),
    ensures
        decimal(n)[i] <= '\u{7f}',
{
}

/// Written as the first codes of a sequence, codes give text exactly when there are some,
/// and the text within the escape and the end is the whole sequence.
pub proof fn lemma_codes_text_empty(codes: Seq<u8>)
    ensures
        (codes_text(true, codes).len() > 0) == (codes.len() > 0),
        codes.len() > 0 ==> render_codes(codes) == escape_chars() + codes_text(true, codes) + seq!['m'],
        codes.len() == 0 ==> render_codes(codes) == Seq::<char>::empty(),
{
    if codes.len() > 0 {
        lemma_join_nonempty(codes);
    }
}

/// The join of some codes is not empty.
pub proof fn lemma_join_nonempty(codes: Seq<u8>)
    requires
        codes.len() > 0,
    ensures
        join_codes(codes).len() > 0,
    decreases codes.len(),
{
    if codes.len() > 1 {
        lemma_join_nonempty(codes.drop_last());
    }
}

/// Two groups of codes in one sequence: their joined codes separated by a
/// single `;`, between one escape and one `m`.
pub proof fn law_one_sequence(a: Seq<u8>, b: Seq<u8>)
    requires
        a.len() > 0,
        b.len() > 0,
    ensures
        render_codes(a + b) == escape_chars() + join_codes(a) + seq![';'] + join_codes(b) + seq!['m'],
{
    lemma_join_concat(a, b);
    assert(escape_chars() + (join_codes(a) + seq![';'] + join_codes(b)) + seq!['m']
        =~= escape_chars() + join_codes(a) + seq![';'] + join_codes(b) + seq!['m']);
}

} // verus!
