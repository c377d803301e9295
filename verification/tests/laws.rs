use easy_sgr::ansi::graphics::StyleKind::{Both, Clear, Empty, Place};
use easy_sgr::macros::parse::{create_raw_string, sgr_string, unwrap_string, UnwrappedLiteral};

#[test]
fn raw_literal_round_trip() {
    for (content, hashes) in [("ab", 0usize), ("\"#", 2), ("", 5)] {
        let raw = create_raw_string(content, hashes);
        match unwrap_string(&raw) {
            Some(UnwrappedLiteral::RawString(c, n)) => {
                assert_eq!(content, c);
                assert_eq!(hashes, n);
            }
            other => panic!("{other:?}"),
        }
    }
}

#[test]
fn plain_text_is_unchanged() {
    for s in ["", "plain text", "ünïcödé 🚋", "[bold]"] {
        assert_eq!(Ok(s.to_string()), sgr_string(s));
    }
}

#[test]
fn keyword_block_is_one_sequence() {
    assert_eq!(Ok("\x1b[1;31;48;5;4m".to_string()), sgr_string("{[bold red on-4]}"));
    assert_eq!(Ok("\x1b[0m".to_string()), sgr_string("{[ ]}"));
}

#[test]
fn hex_and_decimal_colors_agree() {
    assert_eq!(sgr_string("{[#0f]}"), sgr_string("{[15]}"));
    assert_eq!(Ok("\x1b[38;5;15m".to_string()), sgr_string("{[#0f]}"));
    assert_eq!(sgr_string("{[on-#ff]}"), sgr_string("{[on-255]}"));
    assert_eq!(sgr_string("{[#0f73d7]}"), sgr_string("{[15,115,215]}"));
    assert_eq!(Ok("\x1b[48;2;15;115;215m".to_string()), sgr_string("{[on-#0f73d7]}"));
}

#[test]
fn shifting_style_kinds() {
    for k in [Empty, Place, Clear, Both] {
        assert_eq!(k, Empty.shift(k));
        assert_eq!(k, k.shift(Empty));
        assert_eq!(k, k.shift(k));
        assert_eq!(Both, Both.shift(k));
    }
    assert_eq!(Both, Place.shift(Clear));
    assert_eq!(Both, Clear.shift(Place));
    assert!(Empty.shift(Empty).is_none());
    assert!(!Place.shift(Empty).is_none());
}

#[test]
fn wrong_color_lengths_fail() {
    use_err("{[#000]}");
    use_err("{[on-#0]}");
    use_err("{[#0000000]}");
    use_err("{[0,0]}");
    use_err("{[on-1,2,3,4]}");
}

fn use_err(s: &str) {
    assert_eq!(Err(easy_sgr::macros::parse::Error::InvalidColorLen), sgr_string(s), "{s}");
}

#[test]
fn simple_keywords_alone() {
    for (w, code) in [("bold", 1), ("!dim", 22), ("cyan", 36), ("on-default", 49), ("reset", 0)] {
        assert_eq!(Ok(format!("\x1b[{code}m")), sgr_string(&format!("{{[{w}]}}")));
    }
}
