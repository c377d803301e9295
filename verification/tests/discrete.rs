use easy_sgr::Color::{BlackFg, RedFg, GreenFg, YellowFg, BlueFg, MagentaFg, CyanFg, WhiteFg, ByteFg, RgbFg, DefaultFg, BlackBg, RedBg, GreenBg, YellowBg, BlueBg, MagentaBg, CyanBg, WhiteBg, ByteBg, RgbBg, DefaultBg};
use easy_sgr::Sequence::{End, Esc};
use easy_sgr::Style::{Reset, Bold, Dim, Italic, Underline, Blinking, Inverse, Hidden, Strikethrough, NotBold, NotDim, NotItalic, NotUnderline, NotBlinking, NotInverse, NotHidden, NotStrikethrough};
use easy_sgr::{Color, DiscreteSGR, ParseColorError, ParseSeqError, ParseStyleError, Sequence, Style};
use easy_sgr::number::IntErrorKind;

#[test]
fn discrete_seq() {
    assert_eq!("\x1b[", Sequence::Esc.to_string());
    assert_eq!("m", Sequence::End.to_string());
}

#[test]
fn discrete_styles() {
    for (correct, style) in [
        ("\x1b[0m", Reset),
        ("\x1b[1m", Bold),
        ("\x1b[2m", Dim),
        ("\x1b[3m", Italic),
        ("\x1b[4m", Underline),
        ("\x1b[5m", Blinking),
        ("\x1b[7m", Inverse),
        ("\x1b[8m", Hidden),
        ("\x1b[9m", Strikethrough),
        ("\x1b[22m", NotBold),
        ("\x1b[22m", NotDim),
        ("\x1b[23m", NotItalic),
        ("\x1b[24m", NotUnderline),
        ("\x1b[25m", NotBlinking),
        ("\x1b[27m", NotInverse),
        ("\x1b[28m", NotHidden),
        ("\x1b[29m", NotStrikethrough),
    ] {
        assert_eq!(correct, style.to_string())
    }
}

#[test]
fn discrete_standard_colors() {
    for (correct, color) in [
        ("\x1b[30m", BlackFg),
        ("\x1b[31m", RedFg),
        ("\x1b[32m", GreenFg),
        ("\x1b[33m", YellowFg),
        ("\x1b[34m", BlueFg),
        ("\x1b[35m", MagentaFg),
        ("\x1b[36m", CyanFg),
        ("\x1b[37m", WhiteFg),
        ("\x1b[39m", DefaultFg),
        ("\x1b[40m", BlackBg),
        ("\x1b[41m", RedBg),
        ("\x1b[42m", GreenBg),
        ("\x1b[43m", YellowBg),
        ("\x1b[44m", BlueBg),
        ("\x1b[45m", MagentaBg),
        ("\x1b[46m", CyanBg),
        ("\x1b[47m", WhiteBg),
        ("\x1b[49m", DefaultBg),
    ] {
        assert_eq!(correct, color.to_string())
    }
}

#[test]
fn discrete_byte_color() {
    for i in (0u8..255).step_by(17) {
        assert_eq!(format!("\x1b[38;2;{i}m"), ByteFg(i).to_string());
        assert_eq!(format!("\x1b[48;2;{i}m"), ByteBg(i).to_string());
    }
}

#[test]
fn discrete_rgb_color() {
    for i in (0u8..255).step_by(17) {
        for j in (0u8..255).step_by(17) {
            for k in (0u8..255).step_by(17) {
                assert_eq!(format!("\x1b[38;5;{i};{j};{k}m"), RgbFg(i, j, k).to_string());
                assert_eq!(format!("\x1b[48;5;{i};{j};{k}m"), RgbBg(i, j, k).to_string());
            }
        }
    }
}

#[test]
fn from_str_seq() {
    assert_eq!(Ok(End), "End".parse());
    assert_eq!(Ok(Esc), "Esc".parse());
}

#[test]
fn from_str_styles() {
    for (src, style) in [
        ("Reset", Reset),
        ("Bold", Bold),
        ("Dim", Dim),
        ("Italic", Italic),
        ("Underline", Underline),
        ("Blinking", Blinking),
        ("Inverse", Inverse),
        ("Hidden", Hidden),
        ("Strikethrough", Strikethrough),
        ("NotBold", NotBold),
        ("NotDim", NotDim),
        ("NotItalic", NotItalic),
        ("NotUnderline", NotUnderline),
        ("NotBlinking", NotBlinking),
        ("NotInverse", NotInverse),
        ("NotHidden", NotHidden),
        ("NotStrikethrough", NotStrikethrough),
    ] {
        assert_eq!(Ok(style), src.parse())
    }
}

#[test]
fn from_str_standard_colors() {
    for (src, color) in [
        ("BlackFg", BlackFg),
        ("RedFg", RedFg),
        ("GreenFg", GreenFg),
        ("YellowFg", YellowFg),
        ("BlueFg", BlueFg),
        ("MagentaFg", MagentaFg),
        ("CyanFg", CyanFg),
        ("WhiteFg", WhiteFg),
        ("DefaultFg", DefaultFg),
        ("BlackBg", BlackBg),
        ("RedBg", RedBg),
        ("GreenBg", GreenBg),
        ("YellowBg", YellowBg),
        ("BlueBg", BlueBg),
        ("MagentaBg", MagentaBg),
        ("CyanBg", CyanBg),
        ("WhiteBg", WhiteBg),
        ("DefaultBg", DefaultBg),
    ] {
        assert_eq!(Ok(color), src.parse())
    }
}

#[test]
fn partial_styles() {
    for (correct, style) in [
        ("0", Reset),
        ("1", Bold),
        ("2", Dim),
        ("3", Italic),
        ("4", Underline),
        ("5", Blinking),
        ("7", Inverse),
        ("8", Hidden),
        ("9", Strikethrough),
        ("22", NotBold),
        ("22", NotDim),
        ("23", NotItalic),
        ("24", NotUnderline),
        ("25", NotBlinking),
        ("27", NotInverse),
        ("28", NotHidden),
        ("29", NotStrikethrough),
    ] {
        assert_eq!(correct, style.partial_display())
    }
}

#[test]
fn partial_standard_colors() {
    for (correct, color) in [
        ("30", BlackFg),
        ("31", RedFg),
        ("32", GreenFg),
        ("33", YellowFg),
        ("34", BlueFg),
        ("35", MagentaFg),
        ("36", CyanFg),
        ("37", WhiteFg),
        ("39", DefaultFg),
        ("40", BlackBg),
        ("41", RedBg),
        ("42", GreenBg),
        ("43", YellowBg),
        ("44", BlueBg),
        ("45", MagentaBg),
        ("46", CyanBg),
        ("47", WhiteBg),
        ("49", DefaultBg),
    ] {
        assert_eq!(correct, color.partial_display())
    }
}

#[test]
fn partial_byte_color() {
    for i in (0u8..255).step_by(17) {
        assert_eq!(format!("38;2;{i}"), ByteFg(i).partial_display());
        assert_eq!(format!("48;2;{i}"), ByteBg(i).partial_display());
    }
}

#[test]
fn partial_rgb_color() {
    for i in (0u8..255).step_by(17) {
        for j in (0u8..255).step_by(17) {
            for k in (0u8..255).step_by(17) {
                assert_eq!(format!("38;5;{i};{j};{k}"), RgbFg(i, j, k).partial_display());
                assert_eq!(format!("48;5;{i};{j};{k}"), RgbBg(i, j, k).partial_display());
            }
        }
    }
}

#[test]
fn partial_values_make_one_sequence() {
    let joined = format!(
        "{}{};{}{}",
        Esc.to_string(),
        Italic.partial_display(),
        RedFg.partial_display(),
        End.to_string()
    );
    assert_eq!("\x1b[3;31m", joined);
}

#[test]
fn from_str_errors() {
    assert_eq!(Err::<Sequence, _>(ParseSeqError), "esc".parse());
    assert_eq!(Err::<Style, _>(ParseStyleError), "bold".parse());
    assert_eq!(Err::<Style, _>(ParseStyleError), "".parse());
    assert_eq!(Err::<Color, _>(ParseColorError::Invalid("Red".to_string())), "Red".parse());
    assert_eq!(Err::<Color, _>(ParseColorError::Invalid("Purple".to_string())), "Purple".parse());
    assert_eq!(Err::<Color, _>(ParseColorError::MissingNum("ByteFg".to_string())), "ByteFg".parse());
    assert_eq!(Err::<Color, _>(ParseColorError::Brace("ByteFg20)".to_string())), "ByteFg20)".parse());
    assert_eq!(Err::<Color, _>(ParseColorError::Brace("ByteBg(20".to_string())), "ByteBg(20".parse());
    assert_eq!(
        Err::<Color, _>(ParseColorError::ParseIntError(IntErrorKind::PosOverflow)),
        "ByteFg(256)".parse()
    );
    assert_eq!(
        Err::<Color, _>(ParseColorError::ParseIntError(IntErrorKind::InvalidDigit)),
        "ByteFg(x)".parse()
    );
    assert_eq!(Err::<Color, _>(ParseColorError::Len(1)), "RgbFg(20)".parse());
    assert_eq!(Err::<Color, _>(ParseColorError::Len(4)), "RgbBg(20,30,40,50)".parse());
    assert_eq!(
        Err::<Color, _>(ParseColorError::ParseIntError(IntErrorKind::PosOverflow)),
        "RgbFg(1,2,300)".parse()
    );
    assert_eq!(
        Err::<Color, _>(ParseColorError::ParseIntError(IntErrorKind::InvalidDigit)),
        "RgbFg(1,2,3,x)".parse()
    );
    assert_eq!(
        Err::<Color, _>(ParseColorError::ParseIntError(IntErrorKind::Empty)),
        "RgbBg(1,,3)".parse()
    );
    assert_eq!(Err::<Color, _>(ParseColorError::Len(2)), "RgbBg(1,2)".parse());
}

#[test]
fn from_str_complex_colors() {
    assert_eq!(Ok(ByteFg(20)), "ByteFg(20)".parse());
    assert_eq!(Ok(ByteBg(255)), "ByteBg(255)".parse());
    assert_eq!(Ok(RgbFg(1, 2, 3)), "RgbFg(1,2,3)".parse());
    assert_eq!(Ok(RgbBg(255, 0, 17)), "RgbBg(255,0,17)".parse());
}

#[test]
fn color_error_messages() {
    assert_eq!("Invalid string: Red", ParseColorError::Invalid("Red".to_string()).to_string());
    assert_eq!("Missing number: ByteFg", ParseColorError::MissingNum("ByteFg".to_string()).to_string());
    assert_eq!("Missing braces: ByteFg20)", ParseColorError::Brace("ByteFg20)".to_string()).to_string());
    assert_eq!(
        "Error parsing int: number too large to fit in target type",
        ParseColorError::ParseIntError(IntErrorKind::PosOverflow).to_string()
    );
    assert_eq!(
        "Found wrong number of items in string: 124. Needed 2",
        ParseColorError::Len(124).to_string()
    );
}
