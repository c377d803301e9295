//! Graphics with places and clears, as styled strings, inline colors and
//! styles, and the writers they write with.
pub mod writer;
pub mod graphics;
pub mod inline;
pub mod color;
pub mod style;
