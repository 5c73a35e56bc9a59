use view_options::options::error::NumberError;
use view_options::options::vars::{self, MockVars, Vars};
use view_options::text::{
    parse_signed_within, parse_unsigned, same_text, same_text_ignoring_ascii_case, split_first,
    split_line,
};

#[test]
fn same_text_compares_characters() {
    assert!(same_text("", ""));
    assert!(same_text("iso", "iso"));
    assert!(!same_text("iso", "isO"));
    assert!(!same_text("iso", "is"));
    assert!(!same_text("is", "iso"));
    assert!(same_text("né", "né"));
}

#[test]
fn same_text_ignoring_case() {
    assert!(same_text_ignoring_ascii_case("Short", "sHORT"));
    assert!(same_text_ignoring_ascii_case("", ""));
    assert!(!same_text_ignoring_ascii_case("short", "shor"));
    assert!(!same_text_ignoring_ascii_case("[", "{"));
    assert!(!same_text_ignoring_ascii_case("@", "`"));
    assert!(!same_text_ignoring_ascii_case("É", "é"));
}

#[test]
fn split_first_at_the_separator() {
    assert_eq!(split_first("size,age", ','), ("size", Some("age")));
    assert_eq!(split_first("size", ','), ("size", None));
    assert_eq!(split_first("size,", ','), ("size", Some("")));
    assert_eq!(split_first(",", ','), ("", Some("")));
    assert_eq!(split_first("", ','), ("", None));
    assert_eq!(split_first("a,b,c", ','), ("a", Some("b,c")));
    assert_eq!(split_first("é,ü", ','), ("é", Some("ü")));
}

#[test]
fn split_line_strips_the_line_ending() {
    assert_eq!(split_line("one\ntwo"), ("one", Some("two")));
    assert_eq!(split_line("one\r\ntwo"), ("one", Some("two")));
    assert_eq!(split_line("one\r"), ("one\r", None));
    assert_eq!(split_line("one\r\r\n"), ("one\r", Some("")));
    assert_eq!(split_line("\n"), ("", Some("")));
    assert_eq!(split_line(""), ("", None));
}

#[test]
fn parse_unsigned_values() {
    assert_eq!(parse_unsigned("0"), Ok(0));
    assert_eq!(parse_unsigned("80"), Ok(80));
    assert_eq!(parse_unsigned("+80"), Ok(80));
    assert_eq!(parse_unsigned("00080"), Ok(80));
    assert_eq!(parse_unsigned(&usize::MAX.to_string()), Ok(usize::MAX));
}

#[test]
fn parse_unsigned_errors() {
    assert_eq!(parse_unsigned(""), Err(NumberError::Empty));
    assert_eq!(parse_unsigned("+"), Err(NumberError::InvalidDigit));
    assert_eq!(parse_unsigned("-"), Err(NumberError::InvalidDigit));
    assert_eq!(parse_unsigned("-1"), Err(NumberError::InvalidDigit));
    assert_eq!(parse_unsigned("++1"), Err(NumberError::InvalidDigit));
    assert_eq!(parse_unsigned("8 0"), Err(NumberError::InvalidDigit));
    assert_eq!(parse_unsigned("٣"), Err(NumberError::InvalidDigit));
    assert_eq!(
        parse_unsigned("18446744073709551616"),
        Err(NumberError::PosOverflow)
    );
    assert_eq!(
        parse_unsigned("99999999999999999999999x"),
        Err(NumberError::PosOverflow)
    );
    assert_eq!(
        parse_unsigned("9x99999999999999999999999"),
        Err(NumberError::InvalidDigit)
    );
}

#[test]
fn parse_unsigned_agrees_with_std() {
    let max = usize::MAX.to_string();
    let over = format!("{}0", max);
    let texts = [
        "", "0", "7", "+7", "-7", "+", "-", "0012", "12a", "a12", " 12", "1_000", max.as_str(),
        over.as_str(), "18446744073709551616", "184467440737095516150", "99999999999999999999z",
    ];
    for text in texts {
        let expected = match text.parse::<usize>() {
            Ok(n) => Ok(n),
            Err(e) => Err(match e.kind() {
                std::num::IntErrorKind::Empty => NumberError::Empty,
                std::num::IntErrorKind::InvalidDigit => NumberError::InvalidDigit,
                std::num::IntErrorKind::PosOverflow => NumberError::PosOverflow,
                other => panic!("{:?}", other),
            }),
        };
        assert_eq!(parse_unsigned(text), expected);
    }
}

#[test]
fn parse_signed_within_bounds() {
    assert_eq!(parse_signed_within("60", 100), Some(60));
    assert_eq!(parse_signed_within("-100", 100), Some(-100));
    assert_eq!(parse_signed_within("+100", 100), Some(100));
    assert_eq!(parse_signed_within("101", 100), None);
    assert_eq!(parse_signed_within("-101", 100), None);
    assert_eq!(parse_signed_within("", 100), None);
    assert_eq!(parse_signed_within("-", 100), None);
    assert_eq!(parse_signed_within("1x", 100), None);
    assert_eq!(parse_signed_within("65535", 65535), Some(65535));
    assert_eq!(parse_signed_within("65536", 65535), None);
    assert_eq!(parse_signed_within("0", 0), Some(0));
    assert_eq!(parse_signed_within("1", 0), None);
}

#[test]
fn mock_vars_start_empty() {
    let vars = MockVars::default();
    for key in [
        vars::COLUMNS,
        vars::TIME_STYLE,
        vars::EZA_GRID_ROWS,
        vars::EXA_GRID_ROWS,
        vars::EZA_OVERRIDE_GIT,
        vars::EXA_OVERRIDE_GIT,
        vars::EZA_MIN_LUMINANCE,
        vars::EXA_MIN_LUMINANCE,
        vars::EZA_WINDOWS_ATTRIBUTES,
        "HOME",
    ] {
        assert_eq!(vars.get(key), None);
    }
}

#[test]
fn mock_vars_set_one_variable() {
    let keys = [
        vars::COLUMNS,
        vars::TIME_STYLE,
        vars::EZA_GRID_ROWS,
        vars::EXA_GRID_ROWS,
        vars::EZA_OVERRIDE_GIT,
        vars::EXA_OVERRIDE_GIT,
        vars::EZA_MIN_LUMINANCE,
        vars::EXA_MIN_LUMINANCE,
        vars::EZA_WINDOWS_ATTRIBUTES,
    ];
    for key in keys {
        let mut vars = MockVars::default();
        vars.set(key, &String::from("value"));
        for other in keys {
            let expected = if other == key { Some(String::from("value")) } else { None };
            assert_eq!(vars.get(other), expected);
        }
    }
    let mut vars = MockVars::default();
    vars.set("HOME", &String::from("/root"));
    assert_eq!(vars, MockVars::default());
}

#[test]
fn vars_fallback_and_source() {
    let mut vars = MockVars::default();
    assert_eq!(vars.get_with_fallback(vars::EZA_GRID_ROWS, vars::EXA_GRID_ROWS), None);
    assert_eq!(vars.source(vars::EZA_GRID_ROWS, vars::EXA_GRID_ROWS), None);
    vars.set(vars::EXA_GRID_ROWS, &String::from("1"));
    assert_eq!(
        vars.get_with_fallback(vars::EZA_GRID_ROWS, vars::EXA_GRID_ROWS),
        Some(String::from("1"))
    );
    assert_eq!(
        vars.source(vars::EZA_GRID_ROWS, vars::EXA_GRID_ROWS),
        Some("EXA_GRID_ROWS")
    );
    vars.set(vars::EZA_GRID_ROWS, &String::from("2"));
    assert_eq!(
        vars.get_with_fallback(vars::EZA_GRID_ROWS, vars::EXA_GRID_ROWS),
        Some(String::from("2"))
    );
    assert_eq!(
        vars.source(vars::EZA_GRID_ROWS, vars::EXA_GRID_ROWS),
        Some("EZA_GRID_ROWS")
    );
}
