use shellcore::executor::CaptureOutput;
use shellcore::executor::try_execute_command;
use shellcore::parse::LineParse;
use shellcore::parse::parse_command_line;
use shellcore::records::OutputRecord;
use shellcore::records::Stream;
use shellcore::resolver::candidate_paths;
use shellcore::resolver::first_executable;
use shellcore::router::render_stream;
use shellcore::shell::run_echo_command;

fn strings(words: &[&str]) -> Vec<String> {
    words.iter().map(|w| w.to_string()).collect()
}

fn capture(out_text: Option<&str>, err_text: Option<&str>) -> Option<CaptureOutput> {
    Some(CaptureOutput {
        out_text: out_text.map(|t| t.to_string()),
        err_text: err_text.map(|t| t.to_string()),
    })
}

#[test]
fn unresolved_command_is_not_found() {
    let mut output: Vec<OutputRecord> = Vec::new();
    try_execute_command(&mut output, &"nope".to_string(), &None, &None);
    assert_eq!(output.len(), 1);
    assert_eq!(output[0].text, "nope: command not found");
    assert_eq!(output[0].stream, Stream::Stderr);
}

#[test]
fn failed_spawn_is_reported() {
    let mut output: Vec<OutputRecord> = Vec::new();
    try_execute_command(&mut output, &"prog".to_string(), &Some("/bin/prog".to_string()), &None);
    assert_eq!(output.len(), 1);
    assert_eq!(output[0].text, "couldn't execute program");
    assert_eq!(output[0].stream, Stream::Stderr);
}

#[test]
fn undecodable_stream_is_reported() {
    let mut output: Vec<OutputRecord> = Vec::new();
    try_execute_command(
        &mut output,
        &"prog".to_string(),
        &Some("/bin/prog".to_string()),
        &capture(None, Some("")),
    );
    assert_eq!(output.len(), 1);
    assert_eq!(output[0].text, "failed to parse program output as text");
    assert_eq!(output[0].stream, Stream::Stderr);
}

#[test]
fn both_streams_become_independent_records() {
    let mut output: Vec<OutputRecord> = Vec::new();
    try_execute_command(
        &mut output,
        &"prog".to_string(),
        &Some("/bin/prog".to_string()),
        &capture(Some("result\n"), Some("warning\n")),
    );
    assert_eq!(output.len(), 2);
    assert_eq!(output[0].text, "result");
    assert_eq!(output[0].stream, Stream::Stdout);
    assert_eq!(output[1].text, "warning");
    assert_eq!(output[1].stream, Stream::Stderr);
    // and each routes to its own target, never merged
    assert_eq!(render_stream(&output, Stream::Stdout), "result\n");
    assert_eq!(render_stream(&output, Stream::Stderr), "warning\n");
}

#[test]
fn captured_text_is_trimmed_of_trailing_whitespace_only() {
    let mut output: Vec<OutputRecord> = Vec::new();
    try_execute_command(
        &mut output,
        &"prog".to_string(),
        &Some("/bin/prog".to_string()),
        &capture(Some("  hello world \t\n"), Some("")),
    );
    assert_eq!(output.len(), 1);
    // trailing whitespace goes; leading whitespace is part of the output
    assert_eq!(output[0].text, "  hello world");
    assert_eq!(output[0].stream, Stream::Stdout);
}

#[test]
fn empty_streams_produce_no_records() {
    let mut output: Vec<OutputRecord> = Vec::new();
    try_execute_command(
        &mut output,
        &"prog".to_string(),
        &Some("/bin/prog".to_string()),
        &capture(Some("\n"), Some("   ")),
    );
    assert!(output.is_empty());
}

#[test]
fn candidate_paths_join_each_directory_with_the_name() {
    let cands = candidate_paths(&strings(&["/bin", "/usr/bin"]), "ls");
    assert_eq!(cands, strings(&["/bin/ls", "/usr/bin/ls"]));
}

#[test]
fn first_executable_takes_the_first_marked_candidate() {
    let cands = strings(&["/a/x", "/b/x", "/c/x"]);
    assert_eq!(first_executable(&cands, &vec![false, true, true]), Some("/b/x".to_string()));
    assert_eq!(first_executable(&cands, &vec![true, true, true]), Some("/a/x".to_string()));
    assert_eq!(first_executable(&cands, &vec![false, false, false]), None);
    assert_eq!(first_executable(&Vec::<String>::new(), &Vec::<bool>::new()), None);
}

#[test]
fn echo_redirected_to_a_file_writes_one_line_and_nothing_to_the_terminal() {
    // `echo hello > /tmp/out.txt`: the file receives exactly "hello\n" and
    // the terminal streams stay empty
    match parse_command_line("echo hello > /tmp/out.txt") {
        LineParse::Parsed(pc) => {
            assert_eq!(pc.name, "echo");
            assert_eq!(pc.stdout_target, Some("/tmp/out.txt".to_string()));
            assert_eq!(pc.stderr_target, None);
            let mut output: Vec<OutputRecord> = Vec::new();
            run_echo_command(&mut output, &pc.args);
            assert_eq!(render_stream(&output, Stream::Stdout), "hello\n");
            assert_eq!(render_stream(&output, Stream::Stderr), "");
        },
        _ => panic!("expected a parsed command"),
    }
}

#[test]
fn rendering_keeps_record_order_within_a_stream() {
    let mut output: Vec<OutputRecord> = Vec::new();
    run_echo_command(&mut output, &strings(&["first"]));
    run_echo_command(&mut output, &strings(&["second"]));
    assert_eq!(render_stream(&output, Stream::Stdout), "first\nsecond\n");
}
