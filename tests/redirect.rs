use minishell::{extract_redirection, parse, ParsedCommand, Token};

fn argv(p: &ParsedCommand) -> Vec<&str> {
    p.parts.iter().map(|s| s.as_str()).collect()
}

fn stdout_of(p: &ParsedCommand) -> Option<(&str, bool)> {
    p.redirection.stdout.as_ref().map(|t| (t.path.as_str(), t.append))
}

fn stderr_of(p: &ParsedCommand) -> Option<(&str, bool)> {
    p.redirection.stderr.as_ref().map(|t| (t.path.as_str(), t.append))
}

#[test]
fn stdout_truncate() {
    let p = parse("echo hi > out.txt");
    assert_eq!(argv(&p), vec!["echo", "hi"]);
    assert_eq!(stdout_of(&p), Some(("out.txt", false)));
    assert_eq!(stderr_of(&p), None);
}

#[test]
fn stdout_append() {
    let p = parse("echo hi >> out.txt");
    assert_eq!(argv(&p), vec!["echo", "hi"]);
    assert_eq!(stdout_of(&p), Some(("out.txt", true)));
}

#[test]
fn stderr_append() {
    let p = parse("cmd 2>> err.log");
    assert_eq!(argv(&p), vec!["cmd"]);
    assert_eq!(stderr_of(&p), Some(("err.log", true)));
    assert_eq!(stdout_of(&p), None);
}

#[test]
fn explicit_descriptor_spellings() {
    let p = parse("ls 1> a 2> b");
    assert_eq!(argv(&p), vec!["ls"]);
    assert_eq!(stdout_of(&p), Some(("a", false)));
    assert_eq!(stderr_of(&p), Some(("b", false)));
    let p = parse("ls 1>>a");
    assert_eq!(stdout_of(&p), Some(("a", true)));
}

#[test]
fn last_write_wins() {
    let p = parse("echo hi > a.txt > b.txt");
    assert_eq!(argv(&p), vec!["echo", "hi"]);
    assert_eq!(stdout_of(&p), Some(("b.txt", false)));
    let p = parse("x 2>> a 2> b");
    assert_eq!(stderr_of(&p), Some(("b", false)));
}

#[test]
fn dangling_operator_is_dropped() {
    let p = parse("echo hi >");
    assert_eq!(argv(&p), vec!["echo", "hi"]);
    assert_eq!(stdout_of(&p), None);
    assert_eq!(stderr_of(&p), None);
}

#[test]
fn quoted_operator_stays_an_argument() {
    let p = parse("echo '>' x");
    assert_eq!(argv(&p), vec!["echo", ">", "x"]);
    assert_eq!(stdout_of(&p), None);
}

#[test]
fn operator_takes_next_token_as_target() {
    let p = parse("echo > > x");
    assert_eq!(argv(&p), vec!["echo", "x"]);
    assert_eq!(stdout_of(&p), Some((">", false)));
}

#[test]
fn extract_from_tokens() {
    let tok = |s: &str, op: bool| Token { text: s.to_string(), operator: op };
    let p = extract_redirection(vec![
        tok("cat", false),
        tok("2>", true),
        tok("e", false),
        tok("f", false),
        tok(">>", false),
    ]);
    assert_eq!(argv(&p), vec!["cat", "f", ">>"]);
    assert_eq!(stderr_of(&p), Some(("e", false)));
    assert_eq!(stdout_of(&p), None);
}
