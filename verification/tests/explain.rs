use agnoshi::explain::Interpreter;

fn make_interpreter() -> Interpreter {
    Interpreter::new()
}

#[test]
fn explain_test_known_command_ls() {
    let interp = make_interpreter();
    let result = interp.explain("ls", &[]);
    assert!(
        result.contains("files and directories"),
        "ls explanation should mention files and directories"
    );
    assert!(
        !result.starts_with("Executes the"),
        "ls should not return the generic fallback"
    );
}

#[test]
fn explain_test_known_command_rm() {
    let interp = make_interpreter();
    let result = interp.explain("rm", &[]);
    assert!(
        result.contains("caution"),
        "rm explanation should include a safety note"
    );
}

#[test]
fn explain_test_known_command_grep() {
    let interp = make_interpreter();
    let result = interp.explain("grep", &[]);
    assert!(
        result.contains("pattern"),
        "grep explanation should mention patterns"
    );
}

#[test]
fn explain_test_known_command_sudo() {
    let interp = make_interpreter();
    let result = interp.explain("sudo", &[]);
    assert!(
        result.contains("superuser") || result.contains("root"),
        "sudo explanation should mention elevated privileges"
    );
    assert!(
        result.contains("careful") || result.contains("caution"),
        "sudo explanation should include a safety note"
    );
}

#[test]
fn explain_test_known_command_chmod() {
    let interp = make_interpreter();
    let result = interp.explain("chmod", &[]);
    assert!(
        result.contains("permission"),
        "chmod explanation should mention permissions"
    );
}

#[test]
fn explain_test_known_command_kill() {
    let interp = make_interpreter();
    let result = interp.explain("kill", &[]);
    assert!(
        result.contains("signal") || result.contains("terminate"),
        "kill explanation should mention signals or termination"
    );
}

#[test]
fn explain_test_known_command_tar() {
    let interp = make_interpreter();
    let result = interp.explain("tar", &[]);
    assert!(
        result.contains("archive"),
        "tar explanation should mention archives"
    );
}

#[test]
fn explain_test_known_command_git() {
    let interp = make_interpreter();
    let result = interp.explain("git", &[]);
    assert!(
        result.contains("version control"),
        "git explanation should mention version control"
    );
}

#[test]
fn explain_test_known_command_docker() {
    let interp = make_interpreter();
    let result = interp.explain("docker", &[]);
    assert!(
        result.contains("container"),
        "docker explanation should mention containers"
    );
}

#[test]
fn explain_test_known_command_reboot() {
    let interp = make_interpreter();
    let result = interp.explain("reboot", &[]);
    assert!(
        result.contains("Restart") || result.contains("restart") || result.contains("Restarts"),
        "reboot explanation should mention restarting"
    );
    assert!(
        result.contains("saved") || result.contains("ensure"),
        "reboot explanation should include a safety note"
    );
}

#[test]
fn explain_test_known_command_curl() {
    let interp = make_interpreter();
    let result = interp.explain("curl", &[]);
    assert!(
        result.contains("Transfer") || result.contains("transfer"),
        "curl explanation should mention data transfer"
    );
}

#[test]
fn explain_test_unknown_command_returns_fallback() {
    let interp = make_interpreter();
    let result = interp.explain("nonexistentcommand123", &[]);
    assert_eq!(result, "Executes the nonexistentcommand123 command");
}

#[test]
fn explain_test_unknown_command_fallback_format() {
    let interp = make_interpreter();
    let result = interp.explain("zzzyyyxxx", &[]);
    assert!(
        result.starts_with("Executes the"),
        "Unknown commands should return the generic fallback"
    );
    assert!(
        result.contains("zzzyyyxxx"),
        "Fallback should include the command name"
    );
}

#[test]
fn explain_test_case_insensitivity() {
    let interp = make_interpreter();
    let upper = interp.explain("LS", &[]);
    let lower = interp.explain("ls", &[]);
    assert_eq!(upper, lower, "Command lookup should be case-insensitive");
}
