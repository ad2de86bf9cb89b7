use rustrc::client::{cmd, Command};

#[test]
fn test_macro() {
    let cmd = cmd("ls", &["-l", "-a"]);
    assert_eq!(cmd.get_cmd(), "ls");
    assert_eq!(cmd.get_args(), &vec!["-l", "-a"]);
}

#[test]
fn arg_builds_in_order() {
    let c = Command::new("ls").arg("-l").arg("-a");
    assert_eq!(c.get_cmd(), "ls");
    assert_eq!(c.get_args(), &vec!["-l", "-a"]);
}

#[test]
fn args_matches_arg() {
    let one_by_one = Command::new("ls").arg("-l").arg("-a");
    let at_once = Command::new("ls").args(&["-l", "-a"]);
    assert_eq!(one_by_one.get_cmd(), at_once.get_cmd());
    assert_eq!(one_by_one.get_args(), at_once.get_args());
    assert_eq!(one_by_one.to_bytes(), at_once.to_bytes());
}

#[test]
fn serialize_without_args_has_no_trailing_space() {
    let c = Command::new("uptime");
    assert_eq!(c.to_bytes(), b"uptime".to_vec());
    assert_eq!(c.to_line(), "uptime");
}

#[test]
fn serialize_joins_with_single_spaces() {
    let c = Command::new("ls").arg("-l").arg("-a");
    assert_eq!(c.to_bytes(), b"ls -l -a".to_vec());
    let v: Vec<u8> = Vec::from(Command::new("echo").args(&["a b", "$HOME"]));
    assert_eq!(v, b"echo a b $HOME".to_vec());
}

#[test]
fn serialize_keeps_empty_args_and_utf8() {
    let c = Command::new("printf").arg("").arg("é");
    assert_eq!(c.to_bytes(), "printf  é".as_bytes().to_vec());
}

#[test]
fn args_with_empty_list_changes_nothing() {
    let c = Command::new("ls").arg("-l").args(&[]);
    assert_eq!(c.get_args(), &vec!["-l"]);
}
