use querable::default::{DefaultTokenizer, SlashTokenizer};
use querable::error::{Error, IndexError, KeyError};
use querable::types::Tokenizer;

#[test]
fn default_split_is_leftmost() {
    assert_eq!(
        DefaultTokenizer::dict_parse("a.b.c"),
        Ok((Some("a"), Some("b.c")))
    );
}

#[test]
fn default_split_round_trip() {
    for path in ["a.b.c", "id", "[0].[1]", "x.y", "é.ü.[3]"] {
        let (step, rest) = DefaultTokenizer::dict_parse(path).unwrap();
        let step = step.unwrap();
        let joined = match rest {
            Some(r) => format!("{}.{}", step, r),
            None => String::from(step),
        };
        assert_eq!(joined, path);
    }
}

#[test]
fn slash_split_round_trip() {
    for path in ["/a/b/c", "/id", "/0/1", "/a/", "/é/ü"] {
        let (step, rest) = SlashTokenizer::dict_parse(path).unwrap();
        let step = step.unwrap();
        let joined = format!("/{}{}", step, rest.unwrap_or(""));
        assert_eq!(joined, path);
    }
}

#[test]
fn split_base_case_has_no_remainder() {
    assert_eq!(DefaultTokenizer::dict_parse("abc"), Ok((Some("abc"), None)));
    assert_eq!(DefaultTokenizer::dict_parse("[7]"), Ok((Some("[7]"), None)));
    assert_eq!(SlashTokenizer::dict_parse("/abc"), Ok((Some("abc"), None)));
}

#[test]
fn slash_split_keeps_separator_on_remainder() {
    assert_eq!(
        SlashTokenizer::dict_parse("/a/1"),
        Ok((Some("a"), Some("/1")))
    );
}

#[test]
fn default_split_rejects_empty_and_blank_steps() {
    assert_eq!(DefaultTokenizer::dict_parse(""), Err(KeyError::EmptyKey));
    assert_eq!(DefaultTokenizer::dict_parse(".test"), Err(KeyError::EmptyKey));
    assert_eq!(DefaultTokenizer::dict_parse("   .test"), Err(KeyError::EmptyKey));
    assert_eq!(DefaultTokenizer::dict_parse("\t"), Err(KeyError::EmptyKey));
}

#[test]
fn default_split_rejects_whitespace_in_step() {
    assert_eq!(
        DefaultTokenizer::dict_parse("a b.c"),
        Err(KeyError::ParseError(String::from("a b")))
    );
    assert_eq!(
        DefaultTokenizer::dict_parse("a\u{3000}b.c"),
        Err(KeyError::ParseError(String::from("a\u{3000}b")))
    );
}

#[test]
fn slash_split_errors() {
    assert_eq!(SlashTokenizer::dict_parse(""), Err(KeyError::EmptyKey));
    assert_eq!(SlashTokenizer::dict_parse("//"), Err(KeyError::EmptyKey));
    assert_eq!(SlashTokenizer::dict_parse("/"), Err(KeyError::EmptyKey));
    assert_eq!(
        SlashTokenizer::dict_parse("test."),
        Err(KeyError::ParseError(String::from("test.")))
    );
    assert_eq!(
        SlashTokenizer::dict_parse("/a b/c"),
        Err(KeyError::ParseError(String::from("a b")))
    );
}

#[test]
fn default_index_parse() {
    assert_eq!(DefaultTokenizer::index_parse("[0]"), Ok(0));
    assert_eq!(DefaultTokenizer::index_parse("[42]"), Ok(42));
    assert_eq!(DefaultTokenizer::index_parse("[+7]"), Ok(7));
    assert_eq!(DefaultTokenizer::index_parse("[007]"), Ok(7));
    assert_eq!(
        DefaultTokenizer::index_parse("[]"),
        Err(IndexError::ParseError(String::from("[]")))
    );
    assert_eq!(
        DefaultTokenizer::index_parse("3"),
        Err(IndexError::ParseError(String::from("3")))
    );
    assert!(matches!(
        DefaultTokenizer::index_parse("[x]"),
        Err(IndexError::IntError(_))
    ));
    assert!(matches!(
        DefaultTokenizer::index_parse("[-1]"),
        Err(IndexError::IntError(_))
    ));
}

#[test]
fn index_parse_largest_position() {
    let max = format!("[{}]", usize::MAX);
    assert_eq!(DefaultTokenizer::index_parse(&max), Ok(usize::MAX));
    let over = format!("[{}0]", usize::MAX);
    assert!(matches!(
        DefaultTokenizer::index_parse(&over),
        Err(IndexError::IntError(_))
    ));
}

#[test]
fn slash_index_parse() {
    assert_eq!(SlashTokenizer::index_parse("12"), Ok(12));
    assert_eq!(SlashTokenizer::index_parse("+3"), Ok(3));
    assert!(matches!(
        SlashTokenizer::index_parse(""),
        Err(IndexError::IntError(_))
    ));
    assert!(matches!(
        SlashTokenizer::index_parse("[1]"),
        Err(IndexError::IntError(_))
    ));
    assert!(matches!(
        SlashTokenizer::index_parse(" 1"),
        Err(IndexError::IntError(_))
    ));
}

#[test]
fn nested_errors_convert_into_error() {
    assert_eq!(
        Error::from(KeyError::EmptyKey),
        Error::KeyError(KeyError::EmptyKey)
    );
    assert_eq!(
        Error::from(IndexError::ParseError(String::from("[]"))),
        Error::IndexError(IndexError::ParseError(String::from("[]")))
    );
}

#[test]
fn default_split_rejects_trailing_separator() {
    assert_eq!(DefaultTokenizer::dict_parse("x."), Err(KeyError::EmptyKey));
    assert_eq!(DefaultTokenizer::dict_parse("a.b."), Ok((Some("a"), Some("b."))));
    assert_eq!(DefaultTokenizer::dict_parse("b."), Err(KeyError::EmptyKey));
    assert_eq!(DefaultTokenizer::dict_parse("."), Err(KeyError::EmptyKey));
}

#[test]
fn last_step_may_hold_whitespace() {
    assert_eq!(DefaultTokenizer::dict_parse("a b"), Ok((Some("a b"), None)));
    assert_eq!(
        DefaultTokenizer::dict_parse("a\u{3000}b"),
        Ok((Some("a\u{3000}b"), None))
    );
    assert_eq!(SlashTokenizer::dict_parse("/a b"), Ok((Some("a b"), None)));
}

#[test]
fn whitespace_step_before_trailing_separator_is_parse_error() {
    assert_eq!(
        DefaultTokenizer::dict_parse("a b."),
        Err(KeyError::ParseError(String::from("a b")))
    );
    assert_eq!(
        SlashTokenizer::dict_parse("/a b/"),
        Err(KeyError::ParseError(String::from("a b")))
    );
}
