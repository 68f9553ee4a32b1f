use iuutils::identity::{IdOp, IdTriple};
use iuutils::messages::{
    drop_failure_message, exec_failure_message, help_hint_line, identity_query_failure_message,
    invalid_command_message, no_command_message, usage_line,
};
use iuutils::pipeline::{
    dispatch_action, simulate_run, DispatchAction, EXIT_OS_FAILURE, EXIT_SUCCESS, EXIT_USAGE,
};
use iuutils::subcommand::{classify, SubCommand};

fn user() -> IdTriple {
    IdTriple { real: 1000, effective: 0, saved: 0 }
}

fn group() -> IdTriple {
    IdTriple { real: 1000, effective: 50, saved: 50 }
}

fn args(a: &[&str]) -> Vec<String> {
    a.iter().map(|s| s.to_string()).collect()
}

#[test]
fn scenario_a_ls_execs_with_untouched_args_and_collapsed_identity() {
    let r = simulate_run(
        Some("ls".to_string()),
        args(&["-la", "/tmp"]),
        user(),
        group(),
        true,
        true,
        true,
        true,
    );
    assert_eq!(r.exec_path.as_deref(), Some("/usr/bin/ls"));
    assert_eq!(r.exec_args, Some(args(&["-la", "/tmp"])));
    assert_eq!(r.exit_status, None);
    assert_eq!(r.dropped_user, Some(IdTriple { real: 0, effective: 0, saved: 0 }));
    assert_eq!(r.dropped_group, Some(IdTriple { real: 50, effective: 50, saved: 50 }));
    assert_eq!(r.id_ops, vec![IdOp::SetGroup(50), IdOp::SetUser(0)]);
}

#[test]
fn scenario_b_unknown_token_is_reported_and_never_execs() {
    let r = simulate_run(
        Some("frobnicate".to_string()),
        args(&[]),
        user(),
        group(),
        true,
        true,
        true,
        true,
    );
    assert_eq!(r.exit_status, Some(EXIT_USAGE));
    assert!(r.exec_path.is_none());
    assert!(!r.identity_queried);
    assert!(r.id_ops.is_empty());
    let token = "frobnicate".to_string();
    let message = invalid_command_message(&token);
    assert!(message.contains("frobnicate"));
    assert_eq!(message, "error: invalid subcommand \"frobnicate\"");
}

#[test]
fn scenario_c_no_subcommand_reports_usage_error() {
    let r = simulate_run(None, args(&[]), user(), group(), true, true, true, true);
    assert_eq!(r.exit_status, Some(EXIT_USAGE));
    assert!(r.exec_path.is_none());
    assert!(!r.identity_queried);
    assert_eq!(no_command_message(), "error: no subcommand specified");
}

#[test]
fn scenario_d_failed_drop_exits_without_exec() {
    let r = simulate_run(
        Some("ls".to_string()),
        args(&["-la"]),
        user(),
        group(),
        true,
        false,
        true,
        true,
    );
    assert_eq!(r.exit_status, Some(EXIT_OS_FAILURE));
    assert!(r.exec_path.is_none());
    assert_eq!(r.id_ops, vec![IdOp::SetGroup(50)]);
}

#[test]
fn empty_token_behaves_like_no_subcommand() {
    let r = simulate_run(Some(String::new()), args(&[]), user(), group(), true, true, true, true);
    assert_eq!(r.exit_status, Some(EXIT_USAGE));
    assert!(r.exec_path.is_none());
    assert!(!r.identity_queried);
}

#[test]
fn help_and_version_never_touch_identity_or_exec() {
    for token in ["--help", "-h", "--version", "-V"] {
        let r = simulate_run(
            Some(token.to_string()),
            args(&["ignored"]),
            user(),
            group(),
            true,
            true,
            true,
            true,
        );
        assert_eq!(r.exit_status, Some(EXIT_SUCCESS));
        assert!(!r.identity_queried);
        assert!(r.id_ops.is_empty());
        assert!(r.exec_path.is_none());
    }
}

#[test]
fn failed_identity_query_exits_without_any_identity_change() {
    let r = simulate_run(
        Some("rm".to_string()),
        args(&["f"]),
        user(),
        group(),
        false,
        true,
        true,
        true,
    );
    assert_eq!(r.exit_status, Some(EXIT_OS_FAILURE));
    assert!(r.identity_queried);
    assert!(r.id_ops.is_empty());
    assert!(r.exec_path.is_none());
}

#[test]
fn failed_user_change_exits_without_exec() {
    let r = simulate_run(
        Some("cp".to_string()),
        args(&["a", "b"]),
        user(),
        group(),
        true,
        true,
        false,
        true,
    );
    assert_eq!(r.exit_status, Some(EXIT_OS_FAILURE));
    assert!(r.exec_path.is_none());
    assert_eq!(r.id_ops, vec![IdOp::SetGroup(50), IdOp::SetUser(0)]);
}

#[test]
fn failed_exec_exits_with_os_failure_after_the_drop() {
    let r = simulate_run(
        Some("mv".to_string()),
        args(&["a", "b"]),
        user(),
        group(),
        true,
        true,
        true,
        false,
    );
    assert_eq!(r.exit_status, Some(EXIT_OS_FAILURE));
    assert_eq!(r.exec_path.as_deref(), Some("/usr/bin/mv"));
    assert_eq!(r.id_ops, vec![IdOp::SetGroup(50), IdOp::SetUser(0)]);
}

#[test]
fn every_allow_listed_token_reaches_exactly_its_path() {
    let table = [
        ("ls", "/usr/bin/ls"),
        ("cp", "/usr/bin/cp"),
        ("mv", "/usr/bin/mv"),
        ("rm", "/usr/bin/rm"),
        ("ln", "/usr/bin/ln"),
        ("mkdir", "/usr/bin/mkdir"),
        ("touch", "/usr/bin/touch"),
        ("id", "/usr/bin/id"),
    ];
    for (token, path) in table {
        let r = simulate_run(
            Some(token.to_string()),
            args(&[]),
            user(),
            group(),
            true,
            true,
            true,
            true,
        );
        assert_eq!(r.exec_path.as_deref(), Some(path));
        assert_eq!(r.exit_status, None);
    }
}

#[test]
fn dispatch_actions_match_classification() {
    match dispatch_action(classify(Some("ls".to_string()))) {
        DispatchAction::Run(p) => assert_eq!(p, "/usr/bin/ls"),
        _ => panic!("expected Run"),
    }
    assert!(matches!(
        dispatch_action(classify(Some("--help".to_string()))),
        DispatchAction::PrintHelp
    ));
    assert!(matches!(
        dispatch_action(classify(Some("-V".to_string()))),
        DispatchAction::PrintVersion
    ));
    assert!(matches!(dispatch_action(classify(None)), DispatchAction::UsageNoCommand));
    match dispatch_action(classify(Some("frobnicate".to_string()))) {
        DispatchAction::UsageInvalid(t) => assert_eq!(t, "frobnicate"),
        _ => panic!("expected UsageInvalid"),
    }
}

#[test]
fn diagnostic_messages_carry_their_details() {
    assert_eq!(usage_line(), "usage: iu <command> [ARGS...]");
    assert_eq!(help_hint_line(), "Use 'iu --help' to see the list of subcommands.");
    let detail = "EPERM: Operation not permitted".to_string();
    assert_eq!(
        identity_query_failure_message(&detail),
        "iuutils: error: failed to get user/group IDs: EPERM: Operation not permitted"
    );
    assert_eq!(
        drop_failure_message(&detail),
        "iuutils: error: failed to set user/group IDs: EPERM: Operation not permitted"
    );
    let detail = "ENOENT: No such file or directory".to_string();
    assert_eq!(
        exec_failure_message("/usr/bin/ls", &detail),
        "iuutils: error: failed to exec '/usr/bin/ls': ENOENT: No such file or directory"
    );
}
