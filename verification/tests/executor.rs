use bashx::command_executor::{
    bash_command, chmod_command, clone_failure, git_clone_command, render_exit_code, run_bash_script,
    run_git_clone, set_executable_permission, Invocation, ProcessOutcome,
};
use bashx::gate::{confirmation_request, consent};

fn ended(code: Option<i32>, stderr: &[u8]) -> ProcessOutcome {
    ProcessOutcome::Ended { code, stderr: stderr.to_vec() }
}

fn not_started(reason: &str) -> ProcessOutcome {
    ProcessOutcome::NotStarted { reason: String::from(reason) }
}

#[test]
fn git_gets_clone_url_and_destination() {
    assert_eq!(
        git_clone_command("https://example.org/scripts.git", "/home/alice/.bashx/cache"),
        Invocation {
            program: String::from("git"),
            args: vec![
                String::from("clone"),
                String::from("https://example.org/scripts.git"),
                String::from("/home/alice/.bashx/cache"),
            ],
            working_dir: None,
            captured: true,
        }
    );
}

#[test]
fn chmod_gets_plus_x_and_the_file() {
    assert_eq!(
        chmod_command("/c/foo/deploy.sh"),
        Invocation {
            program: String::from("chmod"),
            args: vec![String::from("+x"), String::from("/c/foo/deploy.sh")],
            working_dir: None,
            captured: true,
        }
    );
}

#[test]
fn bash_runs_in_the_given_directory() {
    assert_eq!(
        bash_command("/c/foo/deploy.sh", "/c/foo"),
        Invocation {
            program: String::from("bash"),
            args: vec![String::from("/c/foo/deploy.sh")],
            working_dir: Some(String::from("/c/foo")),
            captured: false,
        }
    );
}

#[test]
fn success_is_exit_code_zero() {
    assert!(ended(Some(0), b"").success());
    assert!(ended(Some(0), b"warning: something").success());
    assert!(!ended(Some(1), b"").success());
    assert!(!ended(Some(-1), b"").success());
    assert!(!ended(None, b"").success());
    assert!(!not_started("No such file or directory (os error 2)").success());
}

#[test]
fn a_clone_that_left_with_zero_succeeded() {
    assert_eq!(run_git_clone(&ended(Some(0), b"Cloning into 'cache'...\n")), Ok(()));
}

#[test]
fn a_clone_that_failed_shows_what_git_wrote() {
    assert_eq!(
        run_git_clone(&ended(Some(128), b"fatal: repository 'x' does not exist\n")),
        Err(String::from("Error cloning repository: fatal: repository 'x' does not exist\n"))
    );
    assert_eq!(run_git_clone(&ended(None, b"")), Err(String::from("Error cloning repository: ")));
}

#[test]
fn what_git_wrote_is_decoded_leniently() {
    assert_eq!(
        run_git_clone(&ended(Some(1), &[0x66, 0xff, 0x6f, 0xc3, 0xa9])),
        Err(String::from("Error cloning repository: f\u{fffd}o\u{e9}"))
    );
}

#[test]
fn a_clone_that_could_not_start_shows_the_reason() {
    assert_eq!(
        run_git_clone(&not_started("No such file or directory (os error 2)")),
        Err(String::from("Failed to execute git command: No such file or directory (os error 2)"))
    );
}

#[test]
fn clone_failure_puts_the_text_behind_the_complaint() {
    assert_eq!(clone_failure("fatal: x"), "Error cloning repository: fatal: x");
    assert_eq!(clone_failure(""), "Error cloning repository: ");
}

#[test]
fn permission_is_set_when_chmod_left_with_zero() {
    assert_eq!(set_executable_permission(&ended(Some(0), b"")), Ok(()));
}

#[test]
fn permission_failure_has_a_fixed_complaint() {
    assert_eq!(
        set_executable_permission(&ended(Some(1), b"chmod: cannot access")),
        Err(String::from("Error setting permissions"))
    );
    assert_eq!(set_executable_permission(&ended(None, b"")), Err(String::from("Error setting permissions")));
}

#[test]
fn chmod_that_could_not_start_shows_the_reason() {
    assert_eq!(
        set_executable_permission(&not_started("No such file or directory (os error 2)")),
        Err(String::from(
            "Failed to set permissions for the script: No such file or directory (os error 2)"
        ))
    );
    let long = "x".repeat(200);
    let complaint = set_executable_permission(&not_started(&long)).unwrap_err();
    assert!(complaint.ends_with(&long));
    assert_eq!(
        set_executable_permission(&not_started("")),
        Err(String::from("Failed to set permissions for the script: "))
    );
}

#[test]
fn a_script_that_left_with_zero_succeeded() {
    assert_eq!(run_bash_script(&ended(Some(0), b"")), Ok(()));
}

#[test]
fn a_script_that_left_with_seven_failed_with_seven() {
    assert_eq!(
        run_bash_script(&ended(Some(7), b"")),
        Err(String::from("Script failed with exit code: Some(7)"))
    );
}

#[test]
fn a_script_that_a_signal_ended_failed_without_a_code() {
    assert_eq!(run_bash_script(&ended(None, b"")), Err(String::from("Script failed with exit code: None")));
}

#[test]
fn a_script_failure_shows_any_code() {
    assert_eq!(run_bash_script(&ended(Some(255), b"")), Err(String::from("Script failed with exit code: Some(255)")));
    assert_eq!(run_bash_script(&ended(Some(-1), b"")), Err(String::from("Script failed with exit code: Some(-1)")));
    assert_eq!(run_bash_script(&ended(Some(130), b"")), Err(String::from("Script failed with exit code: Some(130)")));
}

#[test]
fn a_script_that_could_not_start_shows_the_reason() {
    assert_eq!(
        run_bash_script(&not_started("No such file or directory (os error 2)")),
        Err(String::from("Failed to execute script: No such file or directory (os error 2)"))
    );
}

#[test]
fn exit_codes_are_shown_as_options() {
    assert_eq!(render_exit_code(Some(7)), "Some(7)");
    assert_eq!(render_exit_code(Some(0)), "Some(0)");
    assert_eq!(render_exit_code(Some(-2)), "Some(-2)");
    assert_eq!(render_exit_code(None), "None");
    for code in [Some(1), Some(42), Some(i32::MIN), None] {
        assert_eq!(render_exit_code(code), format!("{:?}", code));
    }
}

#[test]
fn the_request_warns_asks_and_defaults_to_no() {
    let request = confirmation_request();
    assert_eq!(
        request.warning,
        "The file you are about to run may contain malicious code. Please review the script before running it."
    );
    assert_eq!(request.prompt, "Do you want to run this script?");
    assert!(!request.default_answer);
}

#[test]
fn only_an_explicit_yes_is_consent() {
    assert!(consent(Some(true)));
    assert!(!consent(Some(false)));
    assert!(!consent(None));
}
