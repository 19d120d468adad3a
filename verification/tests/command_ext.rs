use fleeting::command_ext::{capture_stdout, new_argv, DETACHED_CREATION_FLAGS, DETACHED_PROCESS_GROUP};

#[test]
fn command_line_is_split_into_program_and_arguments() {
    let argv = vec![String::from("docker"), String::from("run"), String::from("img")];
    let split = new_argv(&argv).unwrap();
    assert_eq!(split.program, "docker");
    assert_eq!(split.args, vec!["run", "img"]);
    let split = new_argv(&vec![String::from("docker")]).unwrap();
    assert_eq!(split.program, "docker");
    assert!(split.args.is_empty());
}

#[test]
fn empty_command_line_names_no_program() {
    assert!(new_argv(&Vec::new()).is_none());
}

#[test]
fn detached_process_is_in_a_group_of_its_own() {
    assert_eq!(DETACHED_CREATION_FLAGS, 0x00000008 | 0x00000200 | 0x08000000);
    assert_eq!(DETACHED_PROCESS_GROUP, 0);
}

#[test]
fn output_of_a_command_that_succeeded() {
    assert_eq!(capture_stdout(true, "ExitStatus(0)", b"out".to_vec(), "warnings"), Ok(b"out".to_vec()));
}

#[test]
fn error_of_a_command_that_failed() {
    assert_eq!(
        capture_stdout(false, "ExitStatus(unix_wait_status(256))", b"out".to_vec(), "no such instance"),
        Err(String::from("command failed with status ExitStatus(unix_wait_status(256)): no such instance"))
    );
}
