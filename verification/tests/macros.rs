use easy_sgr::macros::parse::unwrap_string;
use easy_sgr::macros::parse::UnwrappedLiteral;
use easy_sgr::macros::ParsedLiteral;

/// The value of the literal that the `sgr` macro makes of a literal token.
fn sgr(token: &str) -> String {
    match ParsedLiteral::from_token(token, false) {
        ParsedLiteral::String(s) => s,
        ParsedLiteral::RawString(raw) => match unwrap_string(&raw) {
            Some(UnwrappedLiteral::RawString(content, _)) => content.to_string(),
            other => panic!("not a raw literal: {other:?}"),
        },
        other => panic!("no literal: {other:?}"),
    }
}

fn sgr_tests(cases: &[(&str, &str)]) {
    for (input, result) in cases {
        assert_eq!(*result, sgr(input));
    }
}

#[test]
fn macro_general() {
    sgr_tests(&[
        (r#""""#, ""),
        (r#""{[]}""#, "\x1b[0m"),
        (r#""{[reset bold]}""#, "\x1b[0;1m"),
        (r#""{[!bold]}""#, "\x1b[22m"),
        (r#""{[0,0,0 on-0,0,0]}""#, "\x1b[38;2;0;0;0;48;2;0;0;0m"),
        (r#""{[#00 on-#00]}""#, "\x1b[38;5;0;48;5;0m"),
        (r#""{{[]}}""#, "{{[]}}"),
    ]);
}

#[test]
fn raw_strings() {
    sgr_tests(&[(
        r#"r"Not much to test for this one maybe, this can't really fail""#,
        "Not much to test for this one maybe, this can't really fail",
    )]);
}

#[test]
fn macro_styles() {
    sgr_tests(&[
        (r#""{[reset]}""#, "\x1b[0m"),
        (r#""{[bold]}""#, "\x1b[1m"),
        (r#""{[dim]}""#, "\x1b[2m"),
        (r#""{[italic]}""#, "\x1b[3m"),
        (r#""{[underline]}""#, "\x1b[4m"),
        (r#""{[blink]}""#, "\x1b[5m"),
        (r#""{[inverse]}""#, "\x1b[7m"),
        (r#""{[hide]}""#, "\x1b[8m"),
        (r#""{[strike]}""#, "\x1b[9m"),
        (r#""{[!bold]}""#, "\x1b[22m"),
        (r#""{[!dim]}""#, "\x1b[22m"),
        (r#""{[!italic]}""#, "\x1b[23m"),
        (r#""{[!underline]}""#, "\x1b[24m"),
        (r#""{[!blink]}""#, "\x1b[25m"),
        (r#""{[!inverse]}""#, "\x1b[27m"),
        (r#""{[!hide]}""#, "\x1b[28m"),
        (r#""{[!strike]}""#, "\x1b[29m"),
    ]);
}

#[test]
fn macro_standard_colors() {
    sgr_tests(&[
        (r#""{[black]}""#, "\x1b[30m"),
        (r#""{[red]}""#, "\x1b[31m"),
        (r#""{[green]}""#, "\x1b[32m"),
        (r#""{[yellow]}""#, "\x1b[33m"),
        (r#""{[blue]}""#, "\x1b[34m"),
        (r#""{[magenta]}""#, "\x1b[35m"),
        (r#""{[cyan]}""#, "\x1b[36m"),
        (r#""{[white]}""#, "\x1b[37m"),
        (r#""{[default]}""#, "\x1b[39m"),
        (r#""{[on-black]}""#, "\x1b[40m"),
        (r#""{[on-red]}""#, "\x1b[41m"),
        (r#""{[on-green]}""#, "\x1b[42m"),
        (r#""{[on-yellow]}""#, "\x1b[43m"),
        (r#""{[on-blue]}""#, "\x1b[44m"),
        (r#""{[on-magenta]}""#, "\x1b[45m"),
        (r#""{[on-cyan]}""#, "\x1b[46m"),
        (r#""{[on-white]}""#, "\x1b[47m"),
        (r#""{[on-default]}""#, "\x1b[49m"),
    ]);
}

#[test]
fn macro_byte_color() {
    sgr_tests(&[
        (r#""{[0]}""#, "\x1b[38;5;0m"),
        (r#""{[on-0]}""#, "\x1b[48;5;0m"),
        (r#""{[255]}""#, "\x1b[38;5;255m"),
        (r#""{[on-255]}""#, "\x1b[48;5;255m"),
        (r#""{[#00]}""#, "\x1b[38;5;0m"),
        (r#""{[on-#00]}""#, "\x1b[48;5;0m"),
        (r#""{[#ff]}""#, "\x1b[38;5;255m"),
        (r#""{[on-#ff]}""#, "\x1b[48;5;255m"),
    ]);
}

#[test]
fn macro_rgb_color() {
    sgr_tests(&[
        (r#""{[0,0,0]}""#, "\x1b[38;2;0;0;0m"),
        (r#""{[on-0,0,0]}""#, "\x1b[48;2;0;0;0m"),
        (r#""{[255,255,255]}""#, "\x1b[38;2;255;255;255m"),
        (r#""{[on-255,255,255]}""#, "\x1b[48;2;255;255;255m"),
        (r#""{[#000000]}""#, "\x1b[38;2;0;0;0m"),
        (r#""{[on-#000000]}""#, "\x1b[48;2;0;0;0m"),
        (r#""{[#ffffff]}""#, "\x1b[38;2;255;255;255m"),
        (r#""{[on-#ffffff]}""#, "\x1b[48;2;255;255;255m"),
    ]);
}
