//! Adds graphical ANSI codes, also known as SGR escape sequences, to text.
use vstd::prelude::*;

pub mod ansi;
pub mod discrete;
pub mod graphics;
pub mod macros;
pub mod number;
pub mod text;
pub mod writing;

pub use discrete::from_str::{ParseColorError, ParseSeqError, ParseStyleError};
pub use discrete::{Color, DiscreteSGR, Sequence, Style};
pub use graphics::{CleanKind, ColorKind, EasySGR, SGRString, StyleKind};
pub use writing::{CapableWriter, EasyWrite, FmtWriter, SGRBuilder, SGRWriter, StandardWriter, WriteError};

verus! {

} // verus!
