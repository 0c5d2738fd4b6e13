use rebazel::invocation::parse_invocation;
use rebazel::invocation::InvocationError;

fn argv(parts: &[&str]) -> Vec<String> {
    parts.iter().map(|p| p.to_string()).collect()
}

#[test]
fn missing_action_is_fatal() {
    match parse_invocation(&argv(&["rebazel"])) {
        Err(e) => assert_eq!(e, InvocationError::MissingAction),
        Ok(_) => panic!("an argument list without an action must be rejected"),
    }
}

#[test]
fn missing_action_message_names_the_actions() {
    let m = InvocationError::MissingAction.message();
    assert!(m.contains("action"));
    assert!(m.contains("'build', 'test', or 'run'"));
}

#[test]
fn missing_targets_is_fatal() {
    match parse_invocation(&argv(&["rebazel", "build"])) {
        Err(e) => assert_eq!(e, InvocationError::MissingTargets),
        Ok(_) => panic!("an argument list without targets must be rejected"),
    }
}

#[test]
fn flags_alone_are_not_targets() {
    match parse_invocation(&argv(&["rebazel", "test", "--verbose", "-x"])) {
        Err(e) => assert_eq!(e, InvocationError::MissingTargets),
        Ok(_) => panic!("pure flags must not count as targets"),
    }
}

#[test]
fn missing_targets_message_mentions_targets() {
    let m = InvocationError::MissingTargets.message();
    assert!(m.contains("target"));
}

#[test]
fn action_args_and_targets_are_derived() {
    let inv = parse_invocation(&argv(&[
        "rebazel", "test", "--watch", "-x", "//app:bin", "//lib:all",
    ]))
    .ok()
    .expect("a complete argument list must parse");
    assert_eq!(inv.action, "test");
    assert_eq!(inv.args, argv(&["--watch", "-x", "//app:bin", "//lib:all"]));
    assert_eq!(inv.targets, argv(&["//app:bin", "//lib:all"]));
}

#[test]
fn flags_after_the_first_target_are_kept_as_targets() {
    let inv = parse_invocation(&argv(&["rebazel", "build", "//app:bin", "-x"]))
        .ok()
        .expect("a complete argument list must parse");
    assert_eq!(inv.targets, argv(&["//app:bin", "-x"]));
}
