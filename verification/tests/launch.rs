use envr::launch::plan_invocation;
use envr::launch::render_command_line;
use envr::launch::Outcome;

fn tokens(list: &[&str]) -> Vec<String> {
    list.iter().map(|t| t.to_string()).collect()
}

#[test]
fn missing_command_is_fatal_with_code_101() {
    // No child specification is produced, so nothing can be spawned.
    match plan_invocation(&tokens(&[])) {
        Err(o) => {
            assert!(matches!(o, Outcome::MissingCommand));
            assert_eq!(o.exit_code(), 101);
            assert_eq!(o.message(), Some("fatal: command not specified".to_owned()));
            assert!(!o.is_help());
        }
        Ok(_) => panic!("expected a missing-command outcome"),
    }
}

#[test]
fn missing_command_after_flags_and_variables() {
    match plan_invocation(&tokens(&["-i", "A=1"])) {
        Err(o) => {
            assert!(matches!(o, Outcome::MissingCommand));
            assert_eq!(o.exit_code(), 101);
        }
        Ok(_) => panic!("expected a missing-command outcome"),
    }
}

#[test]
fn plan_with_variable_and_command() {
    let spec = plan_invocation(&tokens(&["FOO=bar", "--", "printenv", "FOO"]))
        .unwrap_or_else(|_| panic!("expected a child specification"));
    assert_eq!(spec.program, "printenv");
    assert_eq!(spec.args, vec!["FOO".to_owned()]);
    assert!(!spec.clear_environment);
    assert_eq!(spec.environment_overlay, vec![("FOO".to_owned(), "bar".to_owned())]);
}

#[test]
fn plan_with_ignored_environment() {
    let spec = plan_invocation(&tokens(&["--ignore-environment", "--", "printenv", "PATH"]))
        .unwrap_or_else(|_| panic!("expected a child specification"));
    assert_eq!(spec.program, "printenv");
    assert_eq!(spec.args, vec!["PATH".to_owned()]);
    assert!(spec.clear_environment);
    assert!(spec.environment_overlay.is_empty());
}

#[test]
fn usage_error_yields_no_child_specification() {
    // The bad token is reported before any child specification exists,
    // so no spawn can be attempted.
    match plan_invocation(&tokens(&["BADTOKEN", "--", "true"])) {
        Err(o) => {
            assert!(matches!(o, Outcome::UsageError { .. }));
            assert_eq!(o.exit_code(), 2);
            assert_eq!(
                o.message(),
                Some("\"BADTOKEN\" is not a equals-sign-separated key-value pair".to_owned()),
            );
        }
        Ok(_) => panic!("expected a usage error"),
    }
}

#[test]
fn help_request_prints_usage_and_succeeds() {
    match plan_invocation(&tokens(&["--help"])) {
        Err(o) => {
            assert!(o.is_help());
            assert_eq!(o.exit_code(), 0);
            let message = o.message().unwrap_or_else(|| panic!("expected a message"));
            assert!(message.contains("--ignore-environment"));
        }
        Ok(_) => panic!("expected a help request"),
    }
}

#[test]
fn success_mirrors_child_exit_code() {
    let o = Outcome::Success { child_code: 42 };
    assert_eq!(o.exit_code(), 42);
    assert_eq!(o.message(), None);

    let o = Outcome::Success { child_code: 0 };
    assert_eq!(o.exit_code(), 0);
}

#[test]
fn spawn_failure_reports_command_and_code_102() {
    let o = Outcome::SpawnFailure {
        command_line: "nosuchprogram --flag".to_owned(),
        os_error: "No such file or directory".to_owned(),
    };
    assert_eq!(o.exit_code(), 102);
    assert_eq!(
        o.message(),
        Some(
            "fatal: command \"nosuchprogram --flag\" failed to spawn: No such file or directory"
                .to_owned(),
        ),
    );
}

#[test]
fn wait_failure_reports_code_103() {
    let o = Outcome::WaitFailure { os_error: "interrupted".to_owned() };
    assert_eq!(o.exit_code(), 103);
    assert_eq!(
        o.message(),
        Some("fatal: unable to wait for command to complete: interrupted".to_owned()),
    );
}

#[test]
fn command_line_rendering() {
    assert_eq!(
        render_command_line(&"printenv".to_owned(), &tokens(&["FOO", "BAR"])),
        "printenv FOO BAR",
    );
    assert_eq!(render_command_line(&"true".to_owned(), &tokens(&[])), "true");
}
