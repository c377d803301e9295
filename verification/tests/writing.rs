use easy_sgr::{Color, EasySGR, FmtWriter, SGRBuilder, SGRWriter, StandardWriter, Style};

#[test]
fn sgr_writer() {
    let mut w = StandardWriter::fmt(String::new());
    w.write_inner("test").unwrap();
    w.sgr(&Color::RedFg.style(Style::Italic)).unwrap();
    w.sgr(&Style::Bold).unwrap();

    assert_eq!("test\x1b[31;3m\x1b[1m", w.writer.0);
}

#[test]
fn sgr_builder() {
    let mut w = StandardWriter::fmt(String::new());

    w.builder().write_to(&mut w).unwrap();
    assert_eq!("", w.writer.0);

    let mut builder = w.builder();
    builder.write_code(0);
    builder.write_codes(&[1, 2]);

    builder
        .chain_code(3)
        .chain_codes(&[4, 5])
        .write_to(&mut w)
        .unwrap();

    assert_eq!("\x1b[0;1;2;3;4;5m", w.writer.0);
}

#[test]
fn builder_end_clears() {
    let mut b = SGRBuilder::new();
    assert_eq!("", b.end());
    b.write_codes(&[38, 5, 255]);
    assert_eq!(&[38u8, 5, 255][..], b.codes());
    assert_eq!("\x1b[38;5;255m", b.end());
    assert!(b.codes().is_empty());
    assert_eq!("", b.end());
}

#[test]
fn one_sequence_for_two_groups() {
    let mut one = SGRBuilder::new();
    one.write_codes(&[1, 2]);
    one.write_codes(&[31]);
    assert_eq!("\x1b[1;2;31m", one.end());
}

#[test]
fn place_and_clean_sgr() {
    let mut w = StandardWriter::new(FmtWriter(String::new()));
    let s = "x".color(Color::BlueBg).style(Style::Underline).custom_clean(100);
    w.place_sgr(&s).unwrap();
    w.write_inner("x").unwrap();
    w.clean_sgr(&s).unwrap();
    w.inline_sgr(&Style::Reset).unwrap();
    assert_eq!("\x1b[44;4mx\x1b[100m\x1b[0m", w.writer.0);
}
