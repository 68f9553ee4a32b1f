//! Closed classification of the subcommand token and the fixed
//! command table mapping each runnable command to an absolute path.
//!
//! Classification is exact string equality against a compiled-in table:
//! no prefix matching, no filesystem access, no environment lookup. The
//! set of paths reachable from the resolver is exactly the allow-list.

use vstd::prelude::*;

verus! {

/// The classification of a raw subcommand token: one variant per
/// allow-listed command, help and version requests, a missing or empty
/// token, and an unrecognized token carrying its original text.
#[derive(Debug)]
pub enum SubCommand {
    Ls,
    Cp,
    Mv,
    Rm,
    Ln,
    Mkdir,
    Touch,
    Id,
    Help,
    Version,
    NoCommand,
    Invalid(String),
}

impl SubCommand {
    /// A runnable command: one that resolves to an allow-listed path.
    pub open spec fn spec_is_runnable(self) -> bool {
        match self {
            SubCommand::Ls
            | SubCommand::Cp
            | SubCommand::Mv
            | SubCommand::Rm
            | SubCommand::Ln
            | SubCommand::Mkdir
            | SubCommand::Touch
            | SubCommand::Id => true,
            SubCommand::Help
            | SubCommand::Version
            | SubCommand::NoCommand
            | SubCommand::Invalid(_) => false,
        }
    }

    pub fn is_runnable(&self) -> (r: bool)
        ensures
            r == self.spec_is_runnable(),
    {
        match self {
            SubCommand::Ls
            | SubCommand::Cp
            | SubCommand::Mv
            | SubCommand::Rm
            | SubCommand::Ln
            | SubCommand::Mkdir
            | SubCommand::Touch
            | SubCommand::Id => true,
            SubCommand::Help
            | SubCommand::Version
            | SubCommand::NoCommand
            | SubCommand::Invalid(_) => false,
        }
    }
}

/// What classification yields for a present token: the table is walked
/// by exact equality, in a fixed order, and anything unmatched and
/// non-empty is `Invalid` with the original text preserved.
pub open spec fn spec_classify_token(s: String) -> SubCommand {
    if s@.len() == 0 {
        SubCommand::NoCommand
    } else if s@ == "ls"@ {
        SubCommand::Ls
    } else if s@ == "cp"@ {
        SubCommand::Cp
    } else if s@ == "mv"@ {
        SubCommand::Mv
    } else if s@ == "rm"@ {
        SubCommand::Rm
    } else if s@ == "ln"@ {
        SubCommand::Ln
    } else if s@ == "mkdir"@ {
        SubCommand::Mkdir
    } else if s@ == "touch"@ {
        SubCommand::Touch
    } else if s@ == "id"@ {
        SubCommand::Id
    } else if s@ == "--help"@ || s@ == "-h"@ {
        SubCommand::Help
    } else if s@ == "--version"@ || s@ == "-V"@ {
        SubCommand::Version
    } else {
        SubCommand::Invalid(s)
    }
}

/// What classification yields for the raw token, absent tokens included.
pub open spec fn spec_classify(token: Option<String>) -> SubCommand {
    match token {
        Option::None => SubCommand::NoCommand,
        Option::Some(s) => spec_classify_token(s),
    }
}

/// True of `s` and `name` exactly when they hold the same characters.
fn token_matches(s: &String, name: &str) -> (r: bool)
    ensures
        r == (s@ == name@),
{
    let owned: String = name.to_owned();
    s.eq(&owned)
}

/// Classify a present subcommand token by exact equality against the
/// fixed table.
pub fn classify_token(s: String) -> (r: SubCommand)
    ensures
        r == spec_classify_token(s),
{
    if s.as_str().is_empty() {
        SubCommand::NoCommand
    } else if token_matches(&s, "ls") {
        SubCommand::Ls
    } else if token_matches(&s, "cp") {
        SubCommand::Cp
    } else if token_matches(&s, "mv") {
        SubCommand::Mv
    } else if token_matches(&s, "rm") {
        SubCommand::Rm
    } else if token_matches(&s, "ln") {
        SubCommand::Ln
    } else if token_matches(&s, "mkdir") {
        SubCommand::Mkdir
    } else if token_matches(&s, "touch") {
        SubCommand::Touch
    } else if token_matches(&s, "id") {
        SubCommand::Id
    } else if token_matches(&s, "--help") || token_matches(&s, "-h") {
        SubCommand::Help
    } else if token_matches(&s, "--version") || token_matches(&s, "-V") {
        SubCommand::Version
    } else {
        SubCommand::Invalid(s)
    }
}

/// Classify the raw subcommand token; an absent token classifies the
/// same way as an empty one.
pub fn classify(token: Option<String>) -> (r: SubCommand)
    ensures
        r == spec_classify(token),
{
    match token {
        Option::None => SubCommand::NoCommand,
        Option::Some(s) => classify_token(s),
    }
}

/// The fixed command table: the absolute path of each runnable command,
/// and nothing for the variants that never execute anything.
pub open spec fn spec_command_path(c: SubCommand) -> Option<Seq<char>> {
    match c {
        SubCommand::Ls => Option::Some("/usr/bin/ls"@),
        SubCommand::Cp => Option::Some("/usr/bin/cp"@),
        SubCommand::Mv => Option::Some("/usr/bin/mv"@),
        SubCommand::Rm => Option::Some("/usr/bin/rm"@),
        SubCommand::Ln => Option::Some("/usr/bin/ln"@),
        SubCommand::Mkdir => Option::Some("/usr/bin/mkdir"@),
        SubCommand::Touch => Option::Some("/usr/bin/touch"@),
        SubCommand::Id => Option::Some("/usr/bin/id"@),
        SubCommand::Help => Option::None,
        SubCommand::Version => Option::None,
        SubCommand::NoCommand => Option::None,
        SubCommand::Invalid(_) => Option::None,
    }
}

/// Resolve a classification to its allow-listed path, or to nothing for
/// the variants that never execute anything.
pub fn command_path(c: &SubCommand) -> (r: Option<&'static str>)
    ensures
        match r {
            Option::Some(p) => spec_command_path(*c) == Option::Some(p@),
            Option::None => spec_command_path(*c) is None,
        },
{
    match c {
        SubCommand::Ls => Option::Some("/usr/bin/ls"),
        SubCommand::Cp => Option::Some("/usr/bin/cp"),
        SubCommand::Mv => Option::Some("/usr/bin/mv"),
        SubCommand::Rm => Option::Some("/usr/bin/rm"),
        SubCommand::Ln => Option::Some("/usr/bin/ln"),
        SubCommand::Mkdir => Option::Some("/usr/bin/mkdir"),
        SubCommand::Touch => Option::Some("/usr/bin/touch"),
        SubCommand::Id => Option::Some("/usr/bin/id"),
        SubCommand::Help => Option::None,
        SubCommand::Version => Option::None,
        SubCommand::NoCommand => Option::None,
        SubCommand::Invalid(_) => Option::None,
    }
}

/// The twelve table tokens are pairwise distinct and non-empty, so the
/// equality chain of `spec_classify_token` picks out exactly one entry.
pub proof fn lemma_table_tokens_distinct()
    ensures
        "ls"@.len() == 2 && "cp"@.len() == 2 && "mv"@.len() == 2 && "rm"@.len() == 2,
        "ln"@.len() == 2 && "id"@.len() == 2 && "-h"@.len() == 2 && "-V"@.len() == 2,
        "mkdir"@.len() == 5 && "touch"@.len() == 5,
        "--help"@.len() == 6 && "--version"@.len() == 9,
        "cp"@ != "ls"@,
        "mv"@ != "ls"@ && "mv"@ != "cp"@,
        "rm"@ != "ls"@ && "rm"@ != "cp"@ && "rm"@ != "mv"@,
        "ln"@ != "ls"@ && "ln"@ != "cp"@ && "ln"@ != "mv"@ && "ln"@ != "rm"@,
        "touch"@ != "mkdir"@,
        "id"@ != "ls"@ && "id"@ != "cp"@ && "id"@ != "mv"@ && "id"@ != "rm"@ && "id"@ != "ln"@,
        "-h"@ != "ls"@ && "-h"@ != "cp"@ && "-h"@ != "mv"@ && "-h"@ != "rm"@ && "-h"@ != "ln"@
            && "-h"@ != "id"@,
        "-V"@ != "ls"@ && "-V"@ != "cp"@ && "-V"@ != "mv"@ && "-V"@ != "rm"@ && "-V"@ != "ln"@
            && "-V"@ != "id"@ && "-V"@ != "-h"@,
{
    reveal_strlit("ls");
    reveal_strlit("cp");
    reveal_strlit("mv");
    reveal_strlit("rm");
    reveal_strlit("ln");
    reveal_strlit("mkdir");
    reveal_strlit("touch");
    reveal_strlit("id");
    reveal_strlit("--help");
    reveal_strlit("-h");
    reveal_strlit("--version");
    reveal_strlit("-V");
    assert("ls"@[0] == 'l' && "ls"@[1] == 's');
    assert("cp"@[0] == 'c' && "cp"@[1] == 'p');
    assert("mv"@[0] == 'm' && "mv"@[1] == 'v');
    assert("rm"@[0] == 'r' && "rm"@[1] == 'm');
    assert("ln"@[0] == 'l' && "ln"@[1] == 'n');
    assert("id"@[0] == 'i' && "id"@[1] == 'd');
    assert("-h"@[0] == '-' && "-h"@[1] == 'h');
    assert("-V"@[0] == '-' && "-V"@[1] == 'V');
    assert("mkdir"@[0] == 'm');
    assert("touch"@[0] == 't');
}

/// Every token of the allow-list classifies to its own command and to
/// exactly the documented path, and no path outside the eight documented
/// ones is ever reachable from the resolver.
pub proof fn lemma_allow_list(token: String)
    ensures
        token@ == "ls"@ ==> spec_classify_token(token) == SubCommand::Ls,
        token@ == "cp"@ ==> spec_classify_token(token) == SubCommand::Cp,
        token@ == "mv"@ ==> spec_classify_token(token) == SubCommand::Mv,
        token@ == "rm"@ ==> spec_classify_token(token) == SubCommand::Rm,
        token@ == "ln"@ ==> spec_classify_token(token) == SubCommand::Ln,
        token@ == "mkdir"@ ==> spec_classify_token(token) == SubCommand::Mkdir,
        token@ == "touch"@ ==> spec_classify_token(token) == SubCommand::Touch,
        token@ == "id"@ ==> spec_classify_token(token) == SubCommand::Id,
        token@ == "--help"@ || token@ == "-h"@ ==> spec_classify_token(token) == SubCommand::Help,
        token@ == "--version"@ || token@ == "-V"@ ==> spec_classify_token(token)
            == SubCommand::Version,
        spec_command_path(SubCommand::Ls) == Option::Some("/usr/bin/ls"@),
        spec_command_path(SubCommand::Cp) == Option::Some("/usr/bin/cp"@),
        spec_command_path(SubCommand::Mv) == Option::Some("/usr/bin/mv"@),
        spec_command_path(SubCommand::Rm) == Option::Some("/usr/bin/rm"@),
        spec_command_path(SubCommand::Ln) == Option::Some("/usr/bin/ln"@),
        spec_command_path(SubCommand::Mkdir) == Option::Some("/usr/bin/mkdir"@),
        spec_command_path(SubCommand::Touch) == Option::Some("/usr/bin/touch"@),
        spec_command_path(SubCommand::Id) == Option::Some("/usr/bin/id"@),
        forall|c: SubCommand| #[trigger] spec_command_path(c) is Some ==> c.spec_is_runnable(),
        forall|c: SubCommand|
            #[trigger] spec_command_path(c) is Some ==> (spec_command_path(c)
                == Option::Some("/usr/bin/ls"@) || spec_command_path(c) == Option::Some(
                "/usr/bin/cp"@,
            ) || spec_command_path(c) == Option::Some("/usr/bin/mv"@) || spec_command_path(c)
                == Option::Some("/usr/bin/rm"@) || spec_command_path(c) == Option::Some(
                "/usr/bin/ln"@,
            ) || spec_command_path(c) == Option::Some("/usr/bin/mkdir"@) || spec_command_path(c)
                == Option::Some("/usr/bin/touch"@) || spec_command_path(c) == Option::Some(
                "/usr/bin/id"@,
            )),
{
    lemma_table_tokens_distinct();
}

/// A non-empty token that matches no table entry classifies to
/// `Invalid` carrying exactly the original text.
pub proof fn lemma_unknown_token_invalid(token: String)
    requires
        token@.len() > 0,
        token@ != "ls"@,
        token@ != "cp"@,
        token@ != "mv"@,
        token@ != "rm"@,
        token@ != "ln"@,
        token@ != "mkdir"@,
        token@ != "touch"@,
        token@ != "id"@,
        token@ != "--help"@,
        token@ != "-h"@,
        token@ != "--version"@,
        token@ != "-V"@,
    ensures
        spec_classify(Option::Some(token)) == SubCommand::Invalid(token),
{
}

} // verus!
