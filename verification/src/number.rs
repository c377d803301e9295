//! Reading unsigned integers from characters, the way `str::parse` and
//! `from_str_radix` read them for unsigned integer types.
use vstd::prelude::*;

verus! {

/// Why a string of characters is not an unsigned integer.
#[derive(Debug, Clone, Copy, PartialEq, Eq, Structural)]
pub enum IntErrorKind {
    /// There are no characters.
    Empty,
    /// A character is not a digit of the radix (or the string is a lone sign).
    InvalidDigit,
    /// The value is larger than the target type holds.
    PosOverflow,
}

/// The value of `c` as a digit in `radix` (`0-9`, then `a-z` or `A-Z`), if it is one.
pub open spec fn digit_value(c: char, radix: nat) -> Option<nat> {
    let v: int = if '0' <= c && c <= '9' {
        c as int - '0' as int
    } else if 'a' <= c && c <= 'z' {
        c as int - 'a' as int + 10
    } else if 'A' <= c && c <= 'Z' {
        c as int - 'A' as int + 10
    } else {
        radix as int
    };
    if v < radix {
        Some(v as nat)
    } else {
        None
    }
}

/// The value of the digits, read left to right; the first character that is
/// not a digit, or the first digit after which the value exceeds `max`,
/// decides the error.
pub open spec fn digits_value(d: Seq<char>, radix: nat, max: nat) -> Result<nat, IntErrorKind>
    decreases d.len(),
{
    if d.len() == 0 {
        Ok(0)
    } else {
        match digits_value(d.drop_last(), radix, max) {
            Err(e) => Err(e),
            Ok(v) => match digit_value(d.last(), radix) {
                None => Err(IntErrorKind::InvalidDigit),
                Some(x) => if v * radix + x > max {
                    Err(IntErrorKind::PosOverflow)
                } else {
                    Ok(v * radix + x)
                },
            },
        }
    }
}

/// An unsigned integer in `radix` no larger than `max`: an optional leading `+`
/// and then digits.
pub open spec fn parse_uint(s: Seq<char>, radix: nat, max: nat) -> Result<nat, IntErrorKind> {
    if s.len() == 0 {
        Err(IntErrorKind::Empty)
    } else if s.len() == 1 && (s[0] == '+' || s[0] == '-') {
        Err(IntErrorKind::InvalidDigit)
    } else if s[0] == '+' {
        digits_value(s.drop_first(), radix, max)
    } else {
        digits_value(s, radix, max)
    }
}

proof fn lemma_digits_value_bound(d: Seq<char>, radix: nat, max: nat)
    ensures
        digits_value(d, radix, max) matches Ok(v) ==> v <= max,
    decreases d.len(),
{
    if d.len() > 0 {
        lemma_digits_value_bound(d.drop_last(), radix, max);
    }
}

fn digit_of(c: char, radix: u32) -> (r: Option<u32>)
    requires
        2 <= radix <= 36,
    ensures
        r matches Some(v) ==> digit_value(c, radix as nat) == Some(v as nat),
        r is None ==> digit_value(c, radix as nat) is None,
{
    let v: u32 = if '0' <= c && c <= '9' {
        (c as u32) - ('0' as u32)
    } else if 'a' <= c && c <= 'z' {
        (c as u32) - ('a' as u32) + 10
    } else if 'A' <= c && c <= 'Z' {
        (c as u32) - ('A' as u32) + 10
    } else {
        radix
    };
    if v < radix {
        Some(v)
    } else {
        None
    }
}

/// Reads the characters `s[start..end]` as an unsigned integer in `radix`
/// no larger than `max`, the way `from_str_radix` does for unsigned types.
pub fn parse_radix(s: &Vec<char>, start: usize, end: usize, radix: u32, max: u32) -> (r: Result<u32, IntErrorKind>)
    requires
        start <= end <= s.len(),
        2 <= radix <= 36,
    ensures
        match r {
            Ok(n) => parse_uint(s@.subrange(start as int, end as int), radix as nat, max as nat)
                == Ok::<nat, IntErrorKind>(n as nat),
            Err(e) => parse_uint(s@.subrange(start as int, end as int), radix as nat, max as nat)
                == Err::<nat, IntErrorKind>(e),
        },
{
    let ghost t = s@.subrange(start as int, end as int);
    if start == end {
        return Err(IntErrorKind::Empty);
    }
    if end - start == 1 && (s[start] == '+' || s[start] == '-') {
        return Err(IntErrorKind::InvalidDigit);
    }
    let first: usize = if s[start] == '+' { start + 1 } else { start };
    let ghost d = s@.subrange(first as int, end as int);
    if s[start] == '+' {
        assert(d =~= t.drop_first());
    } else {
        assert(d =~= t);
    }
    let mut acc: u64 = 0;
    let mut i: usize = first;
    while i < end
        invariant
            first <= i <= end <= s.len(),
            2 <= radix <= 36,
            d == s@.subrange(first as int, end as int),
            parse_uint(s@.subrange(start as int, end as int), radix as nat, max as nat) == digits_value(d, radix as nat, max as nat),
            digits_value(s@.subrange(first as int, i as int), radix as nat, max as nat) == Ok::<nat, IntErrorKind>(acc as nat),
            acc <= max,
        decreases end - i,
    {
        let ghost pre = s@.subrange(first as int, i as int);
        let ghost next = s@.subrange(first as int, (i + 1) as int);
        assert(next.drop_last() =~= pre);
        assert(next.last() == s@[i as int]);
        match digit_of(s[i], radix) {
            None => {
                proof {
                    assert(d.take((i - first + 1) as int) =~= next);
                    assert(digits_value(next, radix as nat, max as nat) == Err::<nat, IntErrorKind>(IntErrorKind::InvalidDigit));
                    lemma_digits_error_extends(d, (i - first) as int, radix as nat, max as nat);
                }
                return Err(IntErrorKind::InvalidDigit);
            },
            Some(x) => {
                assert(acc * (radix as u64) + (x as u64) <= 0xffff_ffffu64 * 36 + 36) by (nonlinear_arith)
                    requires
                        acc <= 0xffff_ffffu64,
                        radix <= 36,
                        x < radix,
                ;
                let v: u64 = acc * (radix as u64) + (x as u64);
                if v > max as u64 {
                    proof {
                        assert(d.take((i - first + 1) as int) =~= next);
                        assert(digits_value(next, radix as nat, max as nat) == Err::<nat, IntErrorKind>(IntErrorKind::PosOverflow));
                        lemma_digits_error_extends(d, (i - first) as int, radix as nat, max as nat);
                    }
                    return Err(IntErrorKind::PosOverflow);
                }
                acc = v;
            },
        }
        i = i + 1;
    }
    assert(s@.subrange(first as int, end as int) =~= d);
    Ok(acc as u32)
}

/// An error found in a prefix of the digits is the error of all of them.
proof fn lemma_digits_error_extends(d: Seq<char>, k: int, radix: nat, max: nat)
    requires
        0 <= k < d.len(),
        digits_value(d.take(k + 1), radix, max) is Err,
    ensures
        digits_value(d, radix, max) == digits_value(d.take(k + 1), radix, max),
    decreases d.len() - k,
{
    if k + 1 == d.len() {
        assert(d.take(k + 1) =~= d);
    } else {
        assert(d.drop_last().take(k + 1) =~= d.take(k + 1));
        lemma_digits_error_extends(d.drop_last(), k, radix, max);
    }
}

} // verus!
