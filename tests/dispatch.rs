use minishell::{cd_failure, cd_target, command_not_found, echo_output, execute_command, type_report, Action};

#[test]
fn exit_line_ends_the_loop() {
    assert!(matches!(execute_command("exit"), Action::Exit));
}

#[test]
fn exit_with_arguments_does_not_end_the_loop() {
    match execute_command("exit 0") {
        Action::External { name, args, .. } => {
            assert_eq!(name, "exit");
            assert_eq!(args, vec!["0".to_string()]);
        }
        other => panic!("expected external, got {:?}", other),
    }
    assert!(matches!(execute_command("exit > f"), Action::Exit));
    assert!(matches!(execute_command("'exit'"), Action::Exit));
}

#[test]
fn echo_goes_to_the_builtin() {
    match execute_command("echo hi there > f") {
        Action::Echo { args, redirection } => {
            assert_eq!(args, vec!["hi".to_string(), "there".to_string()]);
            assert_eq!(redirection.stdout.map(|t| t.path), Some("f".to_string()));
        }
        other => panic!("expected echo, got {:?}", other),
    }
}

#[test]
fn other_builtins() {
    assert!(matches!(execute_command("pwd"), Action::Pwd));
    assert!(matches!(execute_command("pwd x"), Action::Pwd));
    match execute_command("cd /tmp") {
        Action::Cd { args } => assert_eq!(args, vec!["/tmp".to_string()]),
        other => panic!("expected cd, got {:?}", other),
    }
    match execute_command("type echo ls") {
        Action::Type { args } => assert_eq!(args, vec!["echo".to_string(), "ls".to_string()]),
        other => panic!("expected type, got {:?}", other),
    }
}

#[test]
fn external_command_keeps_typed_name() {
    match execute_command("ls -l 2>> err") {
        Action::External { name, args, redirection } => {
            assert_eq!(name, "ls");
            assert_eq!(args, vec!["-l".to_string()]);
            assert!(redirection.stdout.is_none());
            let e = redirection.stderr.unwrap();
            assert_eq!(e.path, "err");
            assert!(e.append);
        }
        other => panic!("expected external, got {:?}", other),
    }
}

#[test]
fn blank_line_does_nothing() {
    assert!(matches!(execute_command(""), Action::Nothing));
    assert!(matches!(execute_command("  > f"), Action::Nothing));
}

#[test]
fn echo_joins_with_single_spaces() {
    let args = vec!["a".to_string(), "b c".to_string(), "d".to_string()];
    assert_eq!(echo_output(&args), "a b c d");
    assert_eq!(echo_output(&vec![]), "");
    assert_eq!(echo_output(&vec!["x".to_string()]), "x");
}

#[test]
fn cd_target_choice() {
    let home = Some("/home/u".to_string());
    assert_eq!(cd_target(&vec![], home.clone()), "/home/u");
    assert_eq!(cd_target(&vec!["~".to_string()], home.clone()), "/home/u");
    assert_eq!(cd_target(&vec!["~".to_string()], None), "/");
    assert_eq!(cd_target(&vec!["dir".to_string(), "x".to_string()], home), "dir");
}

#[test]
fn type_report_lines() {
    assert_eq!(type_report("echo", Some("/bin/echo".to_string())), "echo is a shell builtin");
    assert_eq!(type_report("ls", Some("/bin/ls".to_string())), "ls is /bin/ls");
    assert_eq!(type_report("zz", None), "zz: not found");
}

#[test]
fn error_reports() {
    assert_eq!(command_not_found("foo"), "foo: command not found");
    assert_eq!(cd_failure("/nope"), "cd: /nope: No such file or directory");
}
