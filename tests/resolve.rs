use minishell::{builtin_named, find_in_path, is_builtin, is_executable, search_candidates, Builtin};

fn strings(v: &[&str]) -> Vec<String> {
    v.iter().map(|s| s.to_string()).collect()
}

#[test]
fn builtin_names() {
    for name in ["echo", "exit", "type", "pwd", "cd"] {
        assert!(is_builtin(name));
    }
    assert!(!is_builtin("ech"));
    assert!(!is_builtin("Echo"));
    assert!(!is_builtin("echo "));
    assert!(!is_builtin(""));
    assert_eq!(builtin_named("cd"), Some(Builtin::Cd));
    assert_eq!(builtin_named("pwd"), Some(Builtin::Pwd));
    assert_eq!(builtin_named("ls"), None);
}

#[test]
fn execute_bits() {
    assert!(is_executable(0o755));
    assert!(is_executable(0o100));
    assert!(is_executable(0o010));
    assert!(is_executable(0o001));
    assert!(!is_executable(0o644));
    assert!(!is_executable(0o100644 & !0o111));
}

#[test]
fn candidates_follow_search_path() {
    assert_eq!(search_candidates("/nope:/usr/bin", "x"), strings(&["/nope/x", "/usr/bin/x"]));
    assert_eq!(search_candidates("/bin/", "x"), strings(&["/bin/x"]));
    assert_eq!(search_candidates("a::b", "x"), strings(&["a/x", "x", "b/x"]));
    assert_eq!(search_candidates("/bin:/usr/bin", "/opt/t"), strings(&["/opt/t", "/opt/t"]));
}

#[test]
fn empty_search_path_has_no_candidates() {
    assert!(search_candidates("", "x").is_empty());
}

#[test]
fn first_qualifying_candidate_wins() {
    let c = search_candidates("/nope:/usr/bin", "x");
    assert_eq!(find_in_path(&c, &vec![false, true]), Some("/usr/bin/x".to_string()));
    assert_eq!(find_in_path(&c, &vec![false, false]), None);
    assert_eq!(find_in_path(&c, &vec![true, true]), Some("/nope/x".to_string()));
    assert_eq!(find_in_path(&c, &vec![false]), None);
    assert_eq!(find_in_path(&vec![], &vec![]), None);
}
