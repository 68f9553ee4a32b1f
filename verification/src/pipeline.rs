//! The fail-closed control flow: classification decides everything, a
//! runnable command queries identity, drops privileges (group before
//! user), and only then reaches the executor. Help, version, and error
//! classifications never touch identity or exec. The whole pipeline is
//! verified here over injected OS outcomes; the surrounding binary only
//! performs the effects in the order this model fixes.

use vstd::prelude::*;
use crate::identity::{IdOp, IdTriple};
use crate::identity::simulate_drop;
use crate::subcommand::{spec_classify, spec_command_path, classify, command_path, SubCommand};

verus! {

/// Exit status of a help or version request.
pub const EXIT_SUCCESS: i32 = 0;

/// Exit status of a usage error: no subcommand, or an unrecognized one.
pub const EXIT_USAGE: i32 = 64;

/// Exit status of an OS-level failure: identity query, privilege drop,
/// or exec.
pub const EXIT_OS_FAILURE: i32 = 71;

/// What the dispatch front must do for a classification: run an
/// allow-listed path, print help or version text, or report a usage
/// error (carrying the offending token when there is one).
#[derive(Debug)]
pub enum DispatchAction {
    Run(&'static str),
    PrintHelp,
    PrintVersion,
    UsageNoCommand,
    UsageInvalid(String),
}

/// Decide what to do for a classification. A runnable command maps to
/// exactly its allow-listed path; every other variant maps to an
/// output-only action that never reaches identity or exec.
pub fn dispatch_action(c: SubCommand) -> (r: DispatchAction)
    ensures
        c.spec_is_runnable() ==> (r matches DispatchAction::Run(p) && spec_command_path(c)
            == Option::Some(p@)),
        c is Help ==> r is PrintHelp,
        c is Version ==> r is PrintVersion,
        c is NoCommand ==> r is UsageNoCommand,
        c matches SubCommand::Invalid(t) ==> r == DispatchAction::UsageInvalid(t),
{
    match command_path(&c) {
        Option::Some(p) => DispatchAction::Run(p),
        Option::None => match c {
            SubCommand::Help => DispatchAction::PrintHelp,
            SubCommand::Version => DispatchAction::PrintVersion,
            SubCommand::NoCommand => DispatchAction::UsageNoCommand,
            SubCommand::Invalid(t) => DispatchAction::UsageInvalid(t),
            SubCommand::Ls
            | SubCommand::Cp
            | SubCommand::Mv
            | SubCommand::Rm
            | SubCommand::Ln
            | SubCommand::Mkdir
            | SubCommand::Touch
            | SubCommand::Id => unreached(),
        },
    }
}

/// Everything one run decides, recorded: whether identity was queried,
/// which identity changes were attempted and in what order, the path
/// and argument vector handed to the executor if it was reached, the
/// observed post-drop triples, and the exit status (`None` exactly when
/// the process image is replaced).
#[derive(Debug)]
pub struct RunReport {
    pub identity_queried: bool,
    pub id_ops: Vec<IdOp>,
    pub exec_path: Option<String>,
    pub exec_args: Option<Vec<String>>,
    pub dropped_user: Option<IdTriple>,
    pub dropped_group: Option<IdTriple>,
    pub exit_status: Option<i32>,
}

/// One whole run over injected OS outcomes: classify the token, and
/// for a runnable command walk query, drop (group before user), and
/// exec, failing closed at the first refusal. Non-runnable
/// classifications never query identity, never change it, and never
/// reach the executor; the argument vector reaches the executor exactly
/// as received.
pub fn simulate_run(
    token: Option<String>,
    args: Vec<String>,
    user: IdTriple,
    group: IdTriple,
    query_ok: bool,
    group_change_ok: bool,
    user_change_ok: bool,
    exec_ok: bool,
) -> (r: RunReport)
    ensures
        spec_classify(token) is Help || spec_classify(token) is Version ==> r.exit_status
            == Option::Some(EXIT_SUCCESS),
        spec_classify(token) is NoCommand || spec_classify(token) is Invalid ==> r.exit_status
            == Option::Some(EXIT_USAGE),
        !spec_classify(token).spec_is_runnable() ==> !r.identity_queried && r.id_ops@
            == Seq::<IdOp>::empty() && r.exec_path is None,
        spec_classify(token).spec_is_runnable() ==> r.identity_queried,
        spec_classify(token).spec_is_runnable() && !query_ok ==> r.id_ops@ == Seq::<IdOp>::empty()
            && r.exec_path is None && r.exit_status == Option::Some(EXIT_OS_FAILURE),
        spec_classify(token).spec_is_runnable() && query_ok && !group_change_ok ==> r.id_ops@
            == seq![IdOp::SetGroup(group.effective)] && r.exec_path is None && r.exit_status
            == Option::Some(EXIT_OS_FAILURE),
        spec_classify(token).spec_is_runnable() && query_ok && group_change_ok && !user_change_ok
            ==> r.id_ops@ == seq![IdOp::SetGroup(group.effective), IdOp::SetUser(user.effective)]
            && r.exec_path is None && r.exit_status == Option::Some(EXIT_OS_FAILURE),
        spec_classify(token).spec_is_runnable() && query_ok && group_change_ok && user_change_ok
            ==> (r.id_ops@ == seq![
            IdOp::SetGroup(group.effective),
            IdOp::SetUser(user.effective),
        ] && r.dropped_user == Option::Some(user.spec_collapse()) && r.dropped_group
            == Option::Some(group.spec_collapse()) && (r.exec_path matches Option::Some(p)
            && spec_command_path(spec_classify(token)) == Option::Some(p@)) && r.exec_args
            == Option::Some(args) && r.exit_status == (if exec_ok {
            Option::<i32>::None
        } else {
            Option::Some(EXIT_OS_FAILURE)
        })),
        r.exec_path is Some ==> r.id_ops@.len() == 2 && r.id_ops@[0] is SetGroup && r.id_ops@[1]
            is SetUser,
        r.exit_status is None <==> (spec_classify(token).spec_is_runnable() && query_ok
            && group_change_ok && user_change_ok && exec_ok),
{
    let c = classify(token);
    match c {
        SubCommand::Help | SubCommand::Version => RunReport {
            identity_queried: false,
            id_ops: Vec::new(),
            exec_path: Option::None,
            exec_args: Option::None,
            dropped_user: Option::None,
            dropped_group: Option::None,
            exit_status: Option::Some(EXIT_SUCCESS),
        },
        SubCommand::NoCommand | SubCommand::Invalid(_) => RunReport {
            identity_queried: false,
            id_ops: Vec::new(),
            exec_path: Option::None,
            exec_args: Option::None,
            dropped_user: Option::None,
            dropped_group: Option::None,
            exit_status: Option::Some(EXIT_USAGE),
        },
        SubCommand::Ls
        | SubCommand::Cp
        | SubCommand::Mv
        | SubCommand::Rm
        | SubCommand::Ln
        | SubCommand::Mkdir
        | SubCommand::Touch
        | SubCommand::Id => {
            if !query_ok {
                RunReport {
                    identity_queried: true,
                    id_ops: Vec::new(),
                    exec_path: Option::None,
                    exec_args: Option::None,
                    dropped_user: Option::None,
                    dropped_group: Option::None,
                    exit_status: Option::Some(EXIT_OS_FAILURE),
                }
            } else {
                let (res, ops) = simulate_drop(&user, &group, group_change_ok, user_change_ok);
                match res {
                    Result::Err(_) => RunReport {
                        identity_queried: true,
                        id_ops: ops,
                        exec_path: Option::None,
                        exec_args: Option::None,
                        dropped_user: Option::None,
                        dropped_group: Option::None,
                        exit_status: Option::Some(EXIT_OS_FAILURE),
                    },
                    Result::Ok(t) => {
                        let path: &'static str = match command_path(&c) {
                            Option::Some(p) => p,
                            Option::None => unreached(),
                        };
                        RunReport {
                            identity_queried: true,
                            id_ops: ops,
                            exec_path: Option::Some(path.to_owned()),
                            exec_args: Option::Some(args),
                            dropped_user: Option::Some(t.0),
                            dropped_group: Option::Some(t.1),
                            exit_status: if exec_ok {
                                Option::None
                            } else {
                                Option::Some(EXIT_OS_FAILURE)
                            },
                        }
                    },
                }
            }
        },
    }
}

} // verus!
