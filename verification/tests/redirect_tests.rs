use shellcore::redirect::extract_redirections;
use shellcore::parse::LineParse;
use shellcore::parse::parse_command_line;
use shellcore::shell::CommandKind;
use shellcore::shell::dispatch_command;

fn strings(words: &[&str]) -> Vec<String> {
    words.iter().map(|w| w.to_string()).collect()
}

#[test]
fn no_operators_leave_tokens_alone() {
    let (clean, out_t, err_t) = extract_redirections(&strings(&["echo", "a", "b"]));
    assert_eq!(clean, strings(&["echo", "a", "b"]));
    assert_eq!(out_t, None);
    assert_eq!(err_t, None);
}

#[test]
fn gt_redirects_stdout() {
    let (clean, out_t, err_t) = extract_redirections(&strings(&["echo", "hello", ">", "/tmp/out.txt"]));
    assert_eq!(clean, strings(&["echo", "hello"]));
    assert_eq!(out_t, Some("/tmp/out.txt".to_string()));
    assert_eq!(err_t, None);
}

#[test]
fn one_gt_redirects_stdout_too() {
    let (clean, out_t, err_t) = extract_redirections(&strings(&["echo", "hello", "1>", "f"]));
    assert_eq!(clean, strings(&["echo", "hello"]));
    assert_eq!(out_t, Some("f".to_string()));
    assert_eq!(err_t, None);
}

#[test]
fn two_gt_redirects_stderr() {
    let (clean, out_t, err_t) = extract_redirections(&strings(&["cmd", "2>", "err.txt"]));
    assert_eq!(clean, strings(&["cmd"]));
    assert_eq!(out_t, None);
    assert_eq!(err_t, Some("err.txt".to_string()));
}

#[test]
fn both_streams_can_be_redirected_at_once() {
    let (clean, out_t, err_t) =
        extract_redirections(&strings(&["cmd", "1>", "out.txt", "2>", "err.txt"]));
    assert_eq!(clean, strings(&["cmd"]));
    assert_eq!(out_t, Some("out.txt".to_string()));
    assert_eq!(err_t, Some("err.txt".to_string()));
}

#[test]
fn operator_as_last_token_is_silently_dropped() {
    let (clean, out_t, err_t) = extract_redirections(&strings(&["echo", "a", ">"]));
    assert_eq!(clean, strings(&["echo", "a"]));
    assert_eq!(out_t, None);
    assert_eq!(err_t, None);

    let (clean, out_t, err_t) = extract_redirections(&strings(&["echo", "a", "2>"]));
    assert_eq!(clean, strings(&["echo", "a"]));
    assert_eq!(out_t, None);
    assert_eq!(err_t, None);
}

#[test]
fn last_occurrence_of_an_operator_wins() {
    let (clean, out_t, err_t) =
        extract_redirections(&strings(&["echo", "a", ">", "f1", ">", "f2"]));
    assert_eq!(clean, strings(&["echo", "a"]));
    assert_eq!(out_t, Some("f2".to_string()));
    assert_eq!(err_t, None);
}

#[test]
fn parse_extracts_a_redirect_from_a_raw_line() {
    match parse_command_line("echo a > f") {
        LineParse::Parsed(pc) => {
            assert_eq!(pc.name, "echo");
            assert_eq!(pc.args, strings(&["a"]));
            assert_eq!(pc.stdout_target, Some("f".to_string()));
            assert_eq!(pc.stderr_target, None);
        },
        _ => panic!("expected a parsed command"),
    }
}

#[test]
fn parse_empty_line_is_empty() {
    assert!(matches!(parse_command_line(""), LineParse::Empty));
    assert!(matches!(parse_command_line("   "), LineParse::Empty));
}

#[test]
fn parse_quoted_empty_command_word_dispatches_to_nothing() {
    match parse_command_line("''") {
        LineParse::Parsed(pc) => {
            assert_eq!(pc.name, "");
            assert_eq!(dispatch_command(pc.name.as_str()), CommandKind::NoOp);
        },
        _ => panic!("expected a parsed command"),
    }
}

#[test]
fn parse_unclosed_quote_is_malformed() {
    assert!(matches!(parse_command_line("echo 'oops"), LineParse::Malformed));
}

#[test]
fn parse_splits_name_args_and_targets() {
    match parse_command_line("cmd a b 1> out.txt 2> err.txt") {
        LineParse::Parsed(pc) => {
            assert_eq!(pc.name, "cmd");
            assert_eq!(pc.args, strings(&["a", "b"]));
            assert_eq!(pc.stdout_target, Some("out.txt".to_string()));
            assert_eq!(pc.stderr_target, Some("err.txt".to_string()));
        },
        _ => panic!("expected a parsed command"),
    }
}
