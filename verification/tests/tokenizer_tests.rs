use figcomplete::parse;

#[test]
fn tokenize_empty_input_yields_one_empty_token() {
    let toks = parse("").unwrap();
    assert_eq!(toks, vec!["".to_string()]);
}

#[test]
fn tokenize_two_words() {
    let toks = parse("foo bar").unwrap();
    assert_eq!(toks, vec!["foo".to_string(), "bar".to_string()]);
}

#[test]
fn tokenize_quoted_span_kept_whole_with_quotes() {
    let toks = parse("foo \"bar baz\"").unwrap();
    assert_eq!(toks, vec!["foo".to_string(), "\"bar baz\"".to_string()]);
}

#[test]
fn tokenize_trailing_space_yields_trailing_empty_token() {
    let toks = parse("foo ").unwrap();
    assert_eq!(toks, vec!["foo".to_string(), "".to_string()]);
}

#[test]
fn tokenize_unterminated_quote_still_flushes() {
    let toks = parse("foo \"bar").unwrap();
    assert_eq!(toks, vec!["foo".to_string(), "\"bar".to_string()]);
}

#[test]
fn tokenize_double_space_yields_empty_middle_token() {
    let toks = parse("a  b").unwrap();
    assert_eq!(toks, vec!["a".to_string(), "".to_string(), "b".to_string()]);
}
