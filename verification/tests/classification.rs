use iuutils::subcommand::{classify, command_path, SubCommand};

fn tok(s: &str) -> Option<String> {
    Some(s.to_string())
}

#[test]
fn allow_list_tokens_classify_to_their_commands() {
    assert!(matches!(classify(tok("ls")), SubCommand::Ls));
    assert!(matches!(classify(tok("cp")), SubCommand::Cp));
    assert!(matches!(classify(tok("mv")), SubCommand::Mv));
    assert!(matches!(classify(tok("rm")), SubCommand::Rm));
    assert!(matches!(classify(tok("ln")), SubCommand::Ln));
    assert!(matches!(classify(tok("mkdir")), SubCommand::Mkdir));
    assert!(matches!(classify(tok("touch")), SubCommand::Touch));
    assert!(matches!(classify(tok("id")), SubCommand::Id));
}

#[test]
fn allow_list_commands_resolve_to_documented_paths() {
    assert_eq!(command_path(&SubCommand::Ls), Some("/usr/bin/ls"));
    assert_eq!(command_path(&SubCommand::Cp), Some("/usr/bin/cp"));
    assert_eq!(command_path(&SubCommand::Mv), Some("/usr/bin/mv"));
    assert_eq!(command_path(&SubCommand::Rm), Some("/usr/bin/rm"));
    assert_eq!(command_path(&SubCommand::Ln), Some("/usr/bin/ln"));
    assert_eq!(command_path(&SubCommand::Mkdir), Some("/usr/bin/mkdir"));
    assert_eq!(command_path(&SubCommand::Touch), Some("/usr/bin/touch"));
    assert_eq!(command_path(&SubCommand::Id), Some("/usr/bin/id"));
}

#[test]
fn non_runnable_variants_resolve_to_no_path() {
    assert_eq!(command_path(&SubCommand::Help), None);
    assert_eq!(command_path(&SubCommand::Version), None);
    assert_eq!(command_path(&SubCommand::NoCommand), None);
    assert_eq!(command_path(&SubCommand::Invalid("x".to_string())), None);
}

#[test]
fn help_and_version_aliases() {
    assert!(matches!(classify(tok("--help")), SubCommand::Help));
    assert!(matches!(classify(tok("-h")), SubCommand::Help));
    assert!(matches!(classify(tok("--version")), SubCommand::Version));
    assert!(matches!(classify(tok("-V")), SubCommand::Version));
}

#[test]
fn unknown_token_is_invalid_and_preserved() {
    match classify(tok("frobnicate")) {
        SubCommand::Invalid(s) => assert_eq!(s, "frobnicate"),
        _ => panic!("expected Invalid"),
    }
    match classify(tok("LS")) {
        SubCommand::Invalid(s) => assert_eq!(s, "LS"),
        _ => panic!("case must not fold: expected Invalid"),
    }
    match classify(tok("ls ")) {
        SubCommand::Invalid(s) => assert_eq!(s, "ls "),
        _ => panic!("no trimming: expected Invalid"),
    }
    match classify(tok("l")) {
        SubCommand::Invalid(s) => assert_eq!(s, "l"),
        _ => panic!("no prefix matching: expected Invalid"),
    }
}

#[test]
fn absent_or_empty_token_is_no_command() {
    assert!(matches!(classify(None), SubCommand::NoCommand));
    assert!(matches!(classify(tok("")), SubCommand::NoCommand));
}

#[test]
fn runnable_exactly_the_eight_commands() {
    assert!(SubCommand::Ls.is_runnable());
    assert!(SubCommand::Cp.is_runnable());
    assert!(SubCommand::Mv.is_runnable());
    assert!(SubCommand::Rm.is_runnable());
    assert!(SubCommand::Ln.is_runnable());
    assert!(SubCommand::Mkdir.is_runnable());
    assert!(SubCommand::Touch.is_runnable());
    assert!(SubCommand::Id.is_runnable());
    assert!(!SubCommand::Help.is_runnable());
    assert!(!SubCommand::Version.is_runnable());
    assert!(!SubCommand::NoCommand.is_runnable());
    assert!(!SubCommand::Invalid("rm -rf".to_string()).is_runnable());
}
