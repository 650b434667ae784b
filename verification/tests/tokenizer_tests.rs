use shellcore::tokenizer::tokenize;

fn toks(line: &str) -> Vec<String> {
    tokenize(line).expect("line should tokenize")
}

#[test]
fn empty_line_yields_no_tokens() {
    assert_eq!(toks(""), Vec::<String>::new());
}

#[test]
fn whitespace_only_line_yields_no_tokens() {
    assert_eq!(toks("   \t   "), Vec::<String>::new());
    assert_eq!(toks(" \r\n "), Vec::<String>::new());
}

#[test]
fn plain_words_split_on_whitespace() {
    assert_eq!(toks("echo hello world"), vec!["echo", "hello", "world"]);
    assert_eq!(toks("  a   b  "), vec!["a", "b"]);
}

#[test]
fn quoted_words_tokenize() {
    assert_eq!(toks("echo a 'b c' \"d e\""), vec!["echo", "a", "b c", "d e"]);
}

#[test]
fn single_quotes_are_literal() {
    assert_eq!(toks("'a  b'"), vec!["a  b"]);
    assert_eq!(toks(r"'a\nb'"), vec![r"a\nb"]);
    assert_eq!(toks("'\"'"), vec!["\""]);
}

#[test]
fn double_quote_escapes() {
    assert_eq!(toks("\"a\\\"b\""), vec!["a\"b"]);
    assert_eq!(toks("\"a\\\\b\""), vec!["a\\b"]);
    // a backslash before anything else stays in the token
    assert_eq!(toks("\"a\\nb\""), vec!["a\\nb"]);
}

#[test]
fn unquoted_backslash_escapes_anything() {
    assert_eq!(toks("a\\ b"), vec!["a b"]);
    assert_eq!(toks("\\'"), vec!["'"]);
}

#[test]
fn adjacent_pieces_join_into_one_token() {
    assert_eq!(toks("a'b'c"), vec!["abc"]);
    assert_eq!(toks("\"a\"'b'"), vec!["ab"]);
}

#[test]
fn empty_quotes_make_an_empty_token() {
    assert_eq!(toks("''"), vec![""]);
    assert_eq!(toks("\"\""), vec![""]);
    assert_eq!(toks("echo ''"), vec!["echo", ""]);
}

#[test]
fn unclosed_quote_is_malformed() {
    assert_eq!(tokenize("'abc"), None);
    assert_eq!(tokenize("\"abc"), None);
    assert_eq!(tokenize("echo 'a b"), None);
}

#[test]
fn trailing_backslash_is_malformed() {
    assert_eq!(tokenize("abc\\"), None);
}
