use easy_sgr::macros::expand::{build_args, build_macro, Expansion, StreamKind, StreamParts, Token, Unit};
use easy_sgr::macros::parse::Error;
use easy_sgr::macros::MacroKind;
use easy_sgr::number::IntErrorKind;

fn lit(s: &str) -> Token {
    Token::Literal(s.to_string())
}

#[test]
fn sgr_macro_makes_a_literal() {
    let e = build_macro(MacroKind::Sgr, &vec![lit(r#""{[bold]}x""#)]);
    assert_eq!(Expansion { call: None, units: vec![Unit::Literal("\x1b[1mx".to_string())] }, e);
}

#[test]
fn format_macro_hands_its_arguments_on() {
    let tokens = vec![lit(r#""{[red]}{}""#), Token::Punct, Token::Ident];
    let e = build_macro(MacroKind::Format, &tokens);
    assert_eq!(
        Expansion {
            call: Some(MacroKind::Format),
            units: vec![Unit::Literal("\x1b[31m{}".to_string()), Unit::Input(1), Unit::Input(2)],
        },
        e
    );
}

#[test]
fn writer_macro_keeps_writer_in_front() {
    let tokens = vec![Token::Ident, Token::Punct, lit(r#""{[]}""#), Token::Punct, Token::Group];
    let e = build_macro(MacroKind::Writeln, &tokens);
    assert_eq!(
        Expansion {
            call: Some(MacroKind::Writeln),
            units: vec![
                Unit::Input(0),
                Unit::Input(1),
                Unit::Literal("\x1b[0m".to_string()),
                Unit::Input(3),
                Unit::Input(4),
            ],
        },
        e
    );
    let alone = build_macro(MacroKind::Write, &vec![Token::Ident]);
    assert_eq!(vec![Unit::Input(0)], alone.units);
}

#[test]
fn raw_strings_are_passed_as_source() {
    let e = build_macro(MacroKind::Print, &vec![lit(r##"r#"{[bold]}"#"##)]);
    assert_eq!(vec![Unit::Raw(r##"r#"{[bold]}"#"##.to_string())], e.units);
}

#[test]
fn tokens_that_do_not_fit_are_passed_on() {
    let tokens = vec![Token::Ident, Token::Group];
    assert_eq!(Err(vec![Unit::Input(0), Unit::Input(1)]), build_args(MacroKind::Println, &tokens, false));
    let tokens = vec![Token::Ident, Token::Punct];
    assert_eq!(Err(vec![Unit::Input(0), Unit::Input(1)]), build_args(MacroKind::Write, &tokens, false));
    let tokens = vec![lit("\"x\"")];
    assert_eq!(Err(vec![Unit::Input(0)]), build_args(MacroKind::Writeln, &tokens, false));
    assert_eq!(Err(2), StreamKind::from_kind(MacroKind::Write, &vec![Token::Ident, Token::Group]));
    assert_eq!(
        Ok(StreamParts { kind: StreamKind::Writer(true), rest: 3 }),
        StreamParts::from_parts(MacroKind::Write, &vec![Token::Ident, Token::Punct, lit("\"\"")])
    );
}

#[test]
fn other_literals_are_passed_on() {
    let tokens = vec![lit("12"), Token::Punct];
    assert_eq!(Ok(vec![Unit::Input(0), Unit::Input(1)]), build_args(MacroKind::Format, &tokens, false));
}

#[test]
fn empty_input() {
    assert_eq!(Ok(vec![]), build_args(MacroKind::Println, &vec![], false));
    assert_eq!(
        Err(vec![Unit::CompileError("missing string literal".to_string(), None)]),
        build_args(MacroKind::Sgr, &vec![], false)
    );
}

#[test]
fn errors_are_reported_at_the_literal() {
    let cases = [
        (r#""{[bad]}""#, "invalid digit or keyword found"),
        (r#""{[#0]}""#, "Incorrect number of digits found"),
        (r#""{[300]}""#, "number too large to fit in u8"),
        (r#""{[,0,0]}""#, "cannot parse integer from empty string"),
        (r#""{[bold}""#, "Missing a close bracket"),
    ];
    for (input, message) in cases {
        let e = build_macro(MacroKind::Sgr, &vec![lit(input)]);
        assert_eq!(vec![Unit::CompileError(message.to_string(), Some(0))], e.units, "{input}");
    }
    let e = build_macro(MacroKind::Format, &vec![lit(r#""\q""#), Token::Punct]);
    assert_eq!(vec![Unit::Input(0)], e.units);
}

#[test]
fn error_units() {
    assert_eq!(
        vec![Unit::CompileError("number too large to fit in u8".to_string(), None)],
        Error::ParseInt(IntErrorKind::PosOverflow).into_units(None)
    );
    assert_eq!(Vec::<Unit>::new(), Error::CompilerPassOff.into_units(None));
    assert_eq!(vec![Unit::Input(4)], Error::CompilerPassOff.into_units(Some(4)));
}

#[test]
fn curly_merging() {
    assert_eq!(
        Ok(vec![Unit::Literal("{x}}".to_string())]),
        build_args(MacroKind::Sgr, &vec![lit(r#""{{x}}""#)], true)
    );
    assert_eq!(
        Ok(vec![Unit::Literal("{{x}}".to_string())]),
        build_args(MacroKind::Sgr, &vec![lit(r#""{{x}}""#)], false)
    );
}

#[test]
fn macro_names() {
    assert_eq!("format_args", MacroKind::FormatArgs.name());
    assert_eq!("eprintln", MacroKind::EPrintln.name());
    assert_eq!("", MacroKind::Sgr.name());
}

#[test]
fn etc() {
    let text = r#""Normal{[green]} now this is green{[]} and this is not""#;
    let expected = "Normal\u{1b}[32m now this is green\u{1b}[0m and this is not";
    for kind in [MacroKind::Format, MacroKind::FormatArgs, MacroKind::Print, MacroKind::EPrint] {
        let e = build_macro(kind, &vec![lit(text)]);
        assert_eq!(Expansion { call: Some(kind), units: vec![Unit::Literal(expected.to_string())] }, e);
    }
    let e = build_macro(MacroKind::Write, &vec![Token::Ident, Token::Punct, lit(text)]);
    assert_eq!(
        vec![Unit::Input(0), Unit::Input(1), Unit::Literal(expected.to_string())],
        e.units
    );
    for kind in [MacroKind::Println, MacroKind::EPrintln] {
        let e = build_macro(kind, &vec![]);
        assert_eq!(Expansion { call: Some(kind), units: vec![] }, e);
    }
    let e = build_macro(MacroKind::Writeln, &vec![Token::Ident]);
    assert_eq!(Expansion { call: Some(MacroKind::Writeln), units: vec![Unit::Input(0)] }, e);
}

#[test]
fn non_ascii_escapes_are_reported() {
    let e = build_macro(MacroKind::Sgr, &vec![lit(r#""\xé1""#)]);
    assert_eq!(vec![Unit::Input(0)], e.units);
    let e = build_macro(MacroKind::Write, &vec![Token::Ident, Token::Punct, lit(r#""{[#1é234]}""#)]);
    assert_eq!(vec![Unit::CompileError("invalid digit or keyword found".to_string(), Some(2))], e.units);
}
