//! Writers of SGR sequences: a builder that gathers codes and the writers
//! that receive the finished sequences.
use vstd::prelude::*;
use vstd::string::*;

use crate::discrete::DiscreteSGR;
use crate::graphics::SGRString;
use crate::text::{append_decimal, decimal, escape_chars, join_codes, render, render_codes};

verus! {

/// Why writing to a writer failed.
#[derive(Debug, Clone, Copy, PartialEq, Eq, Structural)]
pub struct WriteError;

/// Something that text can be written to.
///
/// Does not provide SGR writing capability itself.
pub trait CapableWriter: Sized {
    /// The type of error returned by [`CapableWriter::write`].
    type Error;

    /// Everything written so far.
    spec fn written(&self) -> Seq<char>;

    /// Whether writing to this kind of writer never fails.
    spec fn infallible() -> bool;

    /// Writes a [`str`]; when it succeeds, the text follows what was written
    /// before. A writer that never fails always succeeds.
    fn write(&mut self, s: &str) -> (r: Result<(), Self::Error>)
        ensures
            Self::infallible() ==> r is Ok,
            r is Ok ==> final(self).written() == old(self).written() + s@,
    ;
}

/// A writer built on top of a [`CapableWriter`] that can write SGR codes.
pub trait SGRWriter: CapableWriter {
    /// Writes a [`str`] to the inner writer.
    fn write_inner(&mut self, s: &str) -> (r: Result<(), Self::Error>)
        ensures
            Self::infallible() ==> r is Ok,
            r is Ok ==> final(self).written() == old(self).written() + s@,
    {
        self.write(s)
    }

    /// Returns an empty [`SGRBuilder`] to gather codes in.
    fn builder(&self) -> (b: SGRBuilder)
        ensures
            b@ == Seq::<u8>::empty(),
    {
        SGRBuilder::new()
    }

    /// Writes the SGR sequence of [`SGRString::place_all`].
    fn place_sgr(&mut self, sgr: &SGRString) -> (r: Result<(), Self::Error>)
        ensures
            Self::infallible() ==> r is Ok,
            sgr.place_codes().len() == 0 ==> r is Ok && *final(self) == *old(self),
            r is Ok ==> final(self).written() == old(self).written() + render_codes(sgr.place_codes()),
    {
        let mut builder = self.builder();
        sgr.place_all(&mut builder);
        builder.write_to(self)
    }

    /// Writes the SGR sequence of [`SGRString::clean_all`], which reverses
    /// the effects of [`SGRString::place_all`].
    fn clean_sgr(&mut self, sgr: &SGRString) -> (r: Result<(), Self::Error>)
        ensures
            Self::infallible() ==> r is Ok,
            sgr.clean_codes().len() == 0 ==> r is Ok && *final(self) == *old(self),
            r is Ok ==> final(self).written() == old(self).written() + render_codes(sgr.clean_codes()),
    {
        let mut builder = self.builder();
        sgr.clean_all(&mut builder);
        builder.write_to(self)
    }

    /// Writes the SGR sequence of a [`DiscreteSGR`] value.
    fn inline_sgr<D: DiscreteSGR>(&mut self, sgr: &D) -> (r: Result<(), Self::Error>)
        ensures
            Self::infallible() ==> r is Ok,
            sgr.codes().len() == 0 ==> r is Ok && *final(self) == *old(self),
            r is Ok ==> final(self).written() == old(self).written() + render_codes(sgr.codes()),
    {
        let mut builder = self.builder();
        sgr.write(&mut builder);
        builder.write_to(self)
    }

    /// Writes the SGR sequence of an [`SGRString`] or a [`DiscreteSGR`] value.
    fn sgr<E: EasyWrite>(&mut self, sgr: &E) -> (r: Result<(), Self::Error>)
        ensures
            Self::infallible() ==> r is Ok,
            sgr.sgr_codes().len() == 0 ==> r is Ok && *final(self) == *old(self),
            r is Ok ==> final(self).written() == old(self).written() + render_codes(sgr.sgr_codes()),
    {
        let mut builder = self.builder();
        sgr.sgr(&mut builder);
        builder.write_to(self)
    }
}

/// A standard SGR writer around a [`CapableWriter`].
#[derive(Debug)]
pub struct StandardWriter<W: CapableWriter> {
    /// The writer written to.
    pub writer: W,
}

impl<W: CapableWriter> StandardWriter<W> {
    /// Creates a new [`StandardWriter<W>`].
    pub fn new(writer: W) -> (r: Self)
        ensures
            r.writer == writer,
    {
        Self { writer }
    }
}

impl StandardWriter<FmtWriter> {
    /// Creates a new [`StandardWriter`] that writes to a [`String`], through [`FmtWriter`].
    pub fn fmt(writer: String) -> (r: Self)
        ensures
            r.writer.0@ == writer@,
    {
        Self { writer: FmtWriter(writer) }
    }
}

impl<W: CapableWriter> CapableWriter for StandardWriter<W> {
    type Error = W::Error;

    open spec fn written(&self) -> Seq<char> {
        self.writer.written()
    }

    open spec fn infallible() -> bool {
        W::infallible()
    }

    fn write(&mut self, s: &str) -> (r: Result<(), Self::Error>) {
        self.writer.write(s)
    }
}

impl<W: CapableWriter> SGRWriter for StandardWriter<W> {

}

/// A [`CapableWriter`] that writes to a [`String`]; writing never fails.
#[derive(Debug)]
pub struct FmtWriter(pub String);

impl CapableWriter for FmtWriter {
    type Error = WriteError;

    open spec fn written(&self) -> Seq<char> {
        self.0@
    }

    open spec fn infallible() -> bool {
        true
    }

    fn write(&mut self, s: &str) -> (r: Result<(), Self::Error>) {
        self.0.append(s);
        Ok(())
    }
}

/// Builds an SGR sequence from codes.
#[derive(Debug)]
pub struct SGRBuilder {
    codes: Vec<u8>,
}

impl View for SGRBuilder {
    type V = Seq<u8>;

    closed spec fn view(&self) -> Seq<u8> {
        self.codes@
    }
}

impl SGRBuilder {
    /// An empty builder.
    pub fn new() -> (r: Self)
        ensures
            r@ == Seq::<u8>::empty(),
    {
        SGRBuilder { codes: Vec::new() }
    }

    /// The codes gathered so far.
    pub fn codes(&self) -> (r: &[u8])
        ensures
            r@ == self@,
    {
        self.codes.as_slice()
    }

    /// Adds a code.
    pub fn write_code(&mut self, code: u8)
        ensures
            final(self)@ == old(self)@.push(code),
    {
        self.codes.push(code);
    }

    /// Adds codes, in order.
    pub fn write_codes(&mut self, codes: &[u8])
        ensures
            final(self)@ == old(self)@ + codes@,
    {
        let ghost start = self@;
        let mut i: usize = 0;
        while i < codes.len()
            invariant
                i <= codes.len(),
                self@ == start + codes@.take(i as int),
            decreases codes.len() - i,
        {
            self.codes.push(codes[i]);
            i = i + 1;
            assert(self@ =~= start + codes@.take(i as int));
        }
        assert(codes@.take(codes.len() as int) =~= codes@);
    }

    /// Adds a code; returns the builder to allow for chaining.
    pub fn chain_code(&mut self, code: u8) -> (r: &mut Self)
        ensures
            r@ == old(self)@.push(code),
            *final(self) == *final(r),
    {
        self.write_code(code);
        self
    }

    /// Adds codes; returns the builder to allow for chaining.
    pub fn chain_codes(&mut self, codes: &[u8]) -> (r: &mut Self)
        ensures
            r@ == old(self)@ + codes@,
            *final(self) == *final(r),
    {
        self.write_codes(codes);
        self
    }

    /// Finishes the sequence: returns it (empty when there are no codes)
    /// and empties the builder.
    pub fn end(&mut self) -> (r: String)
        ensures
            r@ == render_codes(old(self)@),
            final(self)@ == Seq::<u8>::empty(),
    {
        let r = render(self.codes.as_slice());
        self.codes.clear();
        r
    }

    /// Writes the sequence to the writer piece by piece (the escape, each code
    /// with the `;` before it, then `m`) and empties the builder just before
    /// the `m`; with no codes the writer is not touched. A failed write ends
    /// it: the builder keeps its codes, unless only the `m` failed.
    pub fn write_to<W: CapableWriter>(&mut self, writer: &mut W) -> (r: Result<(), W::Error>)
        ensures
            W::infallible() ==> r is Ok,
            old(self)@.len() == 0 ==> r is Ok && *final(writer) == *old(writer) && final(self)@ == old(self)@,
            r is Ok ==> final(writer).written() == old(writer).written() + render_codes(old(self)@),
            r is Ok ==> final(self)@ == Seq::<u8>::empty(),
            r is Err ==> final(self)@ == old(self)@ || final(self)@ == Seq::<u8>::empty(),
    {
        if self.codes.len() == 0 {
            return Ok(());
        }
        let ghost start = writer.written();
        proof {
            reveal_strlit("\u{1b}[");
            reveal_strlit(";");
            reveal_strlit("m");
        }
        let r = writer.write("\u{1b}[");
        if r.is_err() {
            return r;
        }
        let mut i: usize = 0;
        assert(join_codes(self@.take(0)) =~= Seq::<char>::empty());
        while i < self.codes.len()
            invariant
                i <= self.codes.len(),
                self@ == old(self)@,
                self@.len() > 0,
                writer.written() == start + escape_chars() + join_codes(self@.take(i as int)),
            decreases self.codes.len() - i,
        {
            let ghost before = writer.written();
            proof {
                reveal_strlit(";");
            }
            if i > 0 {
                let r = writer.write(";");
                if r.is_err() {
                    return r;
                }
            }
            let ghost mid = writer.written();
            let mut t = String::new();
            append_decimal(self.codes[i], &mut t);
            let r = writer.write(t.as_str());
            if r.is_err() {
                return r;
            }
            assert(t@ == decimal(self@[i as int]));
            assert(i > 0 ==> mid == before + seq![';']);
            assert(i == 0 ==> mid == before);
            assert(self@.take(i + 1).drop_last() =~= self@.take(i as int));
            assert(self@.take(i + 1).last() == self@[i as int]);
            if i == 0 {
                assert(self@.take(1) =~= seq![self@[0]]);
            }
            assert(writer.written() =~= start + escape_chars() + join_codes(self@.take(i + 1)));
            i = i + 1;
        }
        assert(self@.take(self@.len() as int) =~= self@);
        self.codes.clear();
        let r = writer.write("m");
        assert(r is Ok ==> writer.written() =~= start + render_codes(old(self)@));
        r
    }
}

/// Writing the same way for an [`SGRString`] and a [`DiscreteSGR`] value.
pub trait EasyWrite {
    /// The codes that [`EasyWrite::sgr`] adds.
    spec fn sgr_codes(&self) -> Seq<u8>;

    /// Adds the codes to the builder.
    fn sgr(&self, builder: &mut SGRBuilder)
        ensures
            final(builder)@ == old(builder)@ + self.sgr_codes(),
    ;
}

impl EasyWrite for SGRString {
    open spec fn sgr_codes(&self) -> Seq<u8> {
        self.place_codes()
    }

    /// Uses [`SGRString::place_all`].
    fn sgr(&self, builder: &mut SGRBuilder) {
        self.place_all(builder);
    }
}

impl<D: DiscreteSGR> EasyWrite for D {
    open spec fn sgr_codes(&self) -> Seq<u8> {
        self.codes()
    }

    /// Uses [`DiscreteSGR::write`].
    fn sgr(&self, builder: &mut SGRBuilder) {
        self.write(builder);
    }
}

} // verus!
