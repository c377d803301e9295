//! Writers that put codes into a sequence one at a time, separating them by `;`.
use vstd::prelude::*;

use crate::text::{append_decimal, codes_text, decimal, escape_chars, join_codes, lemma_codes_text_concat, push_char};

verus! {

/// Writes the parts of SGR sequences: the escape, codes, and the end.
pub trait AnsiWriter: Sized {
    /// The type of error returned when writing fails.
    type Error;

    /// Everything written so far.
    spec fn out(&self) -> Seq<char>;

    /// Whether the next code is the first of its sequence, written without `;`.
    spec fn first(&self) -> bool;

    /// Whether writing the escape starts a new list of codes.
    spec fn escape_starts_list() -> bool;

    /// Whether writing never fails.
    spec fn infallible() -> bool;

    /// Writes the escape `\x1b[`.
    fn escape(&mut self) -> (r: Result<(), Self::Error>)
        ensures
            Self::infallible() ==> r is Ok,
            r is Ok ==> final(self).out() == old(self).out() + escape_chars(),
            r is Ok ==> final(self).first() == (old(self).first() || Self::escape_starts_list()),
    ;

    /// Writes the end `m`.
    fn end(&mut self) -> (r: Result<(), Self::Error>)
        ensures
            Self::infallible() ==> r is Ok,
            r is Ok ==> final(self).out() == old(self).out() + seq!['m'],
            r is Ok ==> final(self).first() == old(self).first(),
    ;

    /// Writes a code, after a `;` unless it is the first.
    fn write_code(&mut self, code: u8) -> (r: Result<(), Self::Error>)
        ensures
            Self::infallible() ==> r is Ok,
            r is Ok ==> final(self).out() == old(self).out() + codes_text(old(self).first(), seq![code]),
            r is Ok ==> !final(self).first(),
    ;

    /// Writes the codes in order.
    fn write_all(&mut self, codes: &[u8]) -> (r: Result<(), Self::Error>)
        ensures
            Self::infallible() ==> r is Ok,
            codes@.len() == 0 ==> r is Ok && *final(self) == *old(self),
            r is Ok ==> final(self).out() == old(self).out() + codes_text(old(self).first(), codes@),
            r is Ok ==> final(self).first() == (old(self).first() && codes@.len() == 0),
    {
        if codes.len() == 0 {
            assert(codes_text(self.first(), codes@) =~= Seq::<char>::empty());
            assert(self.out() =~= self.out() + codes_text(self.first(), codes@));
            return Ok(());
        }
        let ghost start = self.out();
        let ghost f = self.first();
        let mut i: usize = 0;
        assert(codes@.take(0) =~= Seq::<u8>::empty());
        while i < codes.len()
            invariant
                i <= codes.len(),
                self.out() == start + codes_text(f, codes@.take(i as int)),
                self.first() == (f && i == 0),
            decreases codes.len() - i,
        {
            let ghost before = self.out();
            let r = self.write_code(codes[i]);
            if r.is_err() {
                return r;
            }
            proof {
                lemma_codes_text_concat(f, codes@.take(i as int), seq![codes[i as int]]);
                assert(codes@.take(i as int) + seq![codes[i as int]] =~= codes@.take(i + 1));
                assert(self.out() =~= start + codes_text(f, codes@.take(i + 1)));
            }
            i = i + 1;
        }
        assert(codes@.take(codes.len() as int) =~= codes@);
        Ok(())
    }
}

/// Something whose SGR codes can be written before and after a text.
pub trait Ansi {
    /// The codes written before the text.
    spec fn place_codes(&self) -> Seq<u8>;

    /// The codes written after the text.
    spec fn clear_codes(&self) -> Seq<u8>;

    /// Writes the codes that go before the text.
    fn place_ansi<W: AnsiWriter>(&self, writer: &mut W) -> (r: Result<(), W::Error>)
        ensures
            W::infallible() ==> r is Ok,
            r is Ok ==> final(writer).out() == old(writer).out() + codes_text(old(writer).first(), self.place_codes()),
            r is Ok ==> final(writer).first() == (old(writer).first() && self.place_codes().len() == 0),
    ;

    /// Writes the codes that go after the text.
    fn clear_ansi<W: AnsiWriter>(&self, writer: &mut W) -> (r: Result<(), W::Error>)
        ensures
            W::infallible() ==> r is Ok,
            r is Ok ==> final(writer).out() == old(writer).out() + codes_text(old(writer).first(), self.clear_codes()),
            r is Ok ==> final(writer).first() == (old(writer).first() && self.clear_codes().len() == 0),
    ;

    /// Whether there is nothing to place.
    fn no_places(&self) -> bool;

    /// Whether there is nothing to clear.
    fn no_clears(&self) -> bool;
}

/// Why writing failed.
#[derive(Debug, Clone, Copy, PartialEq, Eq, Structural)]
pub struct AnsiWriteError;

/// An [`AnsiWriter`] that writes to a [`String`]; each escape starts a new list of codes.
#[derive(Debug)]
pub struct AnsiFmt {
    writer: String,
    first_write: bool,
}

impl AnsiFmt {
    /// A writer that appends to `writer`.
    pub fn new(writer: String) -> (r: Self)
        ensures
            r.out() == writer@,
            r.first(),
    {
        Self { writer, first_write: true }
    }

    /// The string written to.
    pub fn into_inner(self) -> (r: String)
        ensures
            r@ == self.out(),
    {
        self.writer
    }

    /// Appends text as it is.
    pub fn write_str(&mut self, s: &str) -> (r: Result<(), AnsiWriteError>)
        ensures
            r is Ok,
            final(self).out() == old(self).out() + s@,
            final(self).first() == old(self).first(),
    {
        self.writer.append(s);
        Ok(())
    }
}

impl AnsiWriter for AnsiFmt {
    type Error = AnsiWriteError;

    closed spec fn out(&self) -> Seq<char> {
        self.writer@
    }

    closed spec fn first(&self) -> bool {
        self.first_write
    }

    open spec fn escape_starts_list() -> bool {
        true
    }

    open spec fn infallible() -> bool {
        true
    }

    fn escape(&mut self) -> (r: Result<(), Self::Error>)
        ensures
            r is Ok,
    {
        self.first_write = true;
        push_char(&mut self.writer, '\u{1b}');
        push_char(&mut self.writer, '[');
        assert(self.writer@ =~= old(self).writer@ + escape_chars());
        Ok(())
    }

    fn end(&mut self) -> (r: Result<(), Self::Error>)
        ensures
            r is Ok,
    {
        push_char(&mut self.writer, 'm');
        Ok(())
    }

    fn write_code(&mut self, code: u8) -> (r: Result<(), Self::Error>)
        ensures
            r is Ok,
    {
        if self.first_write {
            self.first_write = false;
        } else {
            push_char(&mut self.writer, ';');
        }
        append_decimal(code, &mut self.writer);
        assert(self.writer@ =~= old(self).writer@ + codes_text(old(self).first_write, seq![code]));
        Ok(())
    }
}

/// The characters of ASCII bytes.
pub open spec fn byte_chars(b: Seq<u8>) -> Seq<char> {
    b.map_values(|x: u8| x as char)
}

/// An [`AnsiWriter`] that writes bytes to a buffer; an escape does not start
/// a new list of codes, so a writer made with `first_write` false puts a `;`
/// before every code.
#[derive(Debug)]
pub struct BufAnsiWriter {
    writer: Vec<u8>,
    first_write: bool,
}

fn push_byte(v: &mut Vec<u8>, c: char)
    requires
        c <= '\u{7f}',
    ensures
        byte_chars(final(v)@) == byte_chars(old(v)@).push(c),
{
    v.push(c as u8);
    assert(byte_chars(v@) =~= byte_chars(old(v)@).push(c));
}

impl BufAnsiWriter {
    /// A writer that appends to `writer`; `first_write` says whether the next
    /// code is the first of its sequence.
    pub fn new(writer: Vec<u8>, first_write: bool) -> (r: Self)
        ensures
            r.out() == byte_chars(writer@),
            r.first() == first_write,
    {
        Self { writer, first_write }
    }

    /// The bytes written to.
    pub fn into_inner(self) -> (r: Vec<u8>)
        ensures
            byte_chars(r@) == self.out(),
    {
        self.writer
    }
}

impl AnsiWriter for BufAnsiWriter {
    type Error = AnsiWriteError;

    closed spec fn out(&self) -> Seq<char> {
        byte_chars(self.writer@)
    }

    closed spec fn first(&self) -> bool {
        self.first_write
    }

    open spec fn escape_starts_list() -> bool {
        false
    }

    open spec fn infallible() -> bool {
        true
    }

    fn escape(&mut self) -> (r: Result<(), Self::Error>)
        ensures
            r is Ok,
    {
        push_byte(&mut self.writer, '\u{1b}');
        push_byte(&mut self.writer, '[');
        assert(byte_chars(self.writer@) =~= byte_chars(old(self).writer@) + escape_chars());
        Ok(())
    }

    fn end(&mut self) -> (r: Result<(), Self::Error>)
        ensures
            r is Ok,
    {
        push_byte(&mut self.writer, 'm');
        Ok(())
    }

    fn write_code(&mut self, code: u8) -> (r: Result<(), Self::Error>)
        ensures
            r is Ok,
    {
        if self.first_write {
            self.first_write = false;
        } else {
            push_byte(&mut self.writer, ';');
        }
        let mut digits = String::new();
        append_decimal(code, &mut digits);
        let ds = crate::text::chars_of(digits.as_str());
        let ghost mid = byte_chars(self.writer@);
        let mut i: usize = 0;
        while i < ds.len()
            invariant
                i <= ds.len(),
                ds@ == decimal(code),
                !self.first_write,
                byte_chars(self.writer@) == mid + ds@.take(i as int),
            decreases ds.len() - i,
        {
            proof {
                crate::text::lemma_decimal_ascii(code, i as int);
            }
            push_byte(&mut self.writer, ds[i]);
            i = i + 1;
            assert(byte_chars(self.writer@) =~= mid + ds@.take(i as int));
        }
        assert(ds@.take(ds.len() as int) =~= ds@);
        assert(byte_chars(self.writer@) =~= byte_chars(old(self).writer@) + codes_text(old(self).first_write, seq![code]));
        Ok(())
    }
}

} // verus!
