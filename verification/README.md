# easy_sgr

Adds graphical ANSI codes — SGR escape sequences — to text, with the
functions of the library proved against their contracts by Verus. Two small
functions are trusted instead, each a single call into the standard library
whose contract is taken as given: `text::push_char` (`String::push`) and the
private `char_from_u32` in `macros/parse.rs` (`char::from_u32`).

- `src/discrete.rs`: single SGR codes (`Style`, `Color`, `Sequence`) and how
  they are written; `discrete/from_str.rs` reads them from their names.
- `src/graphics/`: `SGRString`, a text with codes placed before and cleaned
  after it, and the `EasySGR` trait that chains codes into one.
- `src/writing.rs`: `SGRBuilder`, which gathers codes into one sequence, and
  the writers that receive sequences.
- `src/ansi/`: the `Graphics`/`AnsiString` model of placed and cleared codes
  and its writers.
- `src/macros/`: the keyword syntax of the formatting macros (`{[bold red]}`):
  unwrapping string literals, replacing keyword blocks by SGR sequences, and
  building a macro's expansion from its input tokens; `macros/laws.rs` holds
  what the syntax promises of every string.
- `src/text.rs`, `src/number.rs`: decimal text of codes and integer parsing.
- `app/`: a small program that prints styled text, and the conversion between
  the compiler's tokens and the library's plain tokens.
