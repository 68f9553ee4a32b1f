//! Diagnostic message construction. The text itself never affects the
//! trust boundary; each builder's contract pins the exact characters,
//! so an error line provably quotes the offending token or path.

use vstd::prelude::*;
use vstd::string::StringExecFns;

verus! {

/// The error line reported when no subcommand was given.
pub fn no_command_message() -> (r: String)
    ensures
        r@ == "error: no subcommand specified"@,
{
    "error: no subcommand specified".to_owned()
}

/// The error line for an unrecognized subcommand, quoting the token.
pub fn invalid_command_message(token: &String) -> (r: String)
    ensures
        r@ == "error: invalid subcommand \""@ + token@ + "\""@,
{
    let mut r: String = "error: invalid subcommand \"".to_owned();
    r.append(token.as_str());
    r.append("\"");
    r
}

/// The one-line usage synopsis.
pub fn usage_line() -> (r: String)
    ensures
        r@ == "usage: iu <command> [ARGS...]"@,
{
    "usage: iu <command> [ARGS...]".to_owned()
}

/// The hint pointing at the full help listing.
pub fn help_hint_line() -> (r: String)
    ensures
        r@ == "Use 'iu --help' to see the list of subcommands."@,
{
    "Use 'iu --help' to see the list of subcommands.".to_owned()
}

/// The error line for a failed credential query, with the OS detail.
pub fn identity_query_failure_message(detail: &String) -> (r: String)
    ensures
        r@ == "iuutils: error: failed to get user/group IDs: "@ + detail@,
{
    let mut r: String = "iuutils: error: failed to get user/group IDs: ".to_owned();
    r.append(detail.as_str());
    r
}

/// The error line for a refused identity change, with the OS detail.
pub fn drop_failure_message(detail: &String) -> (r: String)
    ensures
        r@ == "iuutils: error: failed to set user/group IDs: "@ + detail@,
{
    let mut r: String = "iuutils: error: failed to set user/group IDs: ".to_owned();
    r.append(detail.as_str());
    r
}

/// The error line for a failed exec, naming the attempted path.
pub fn exec_failure_message(path: &str, detail: &String) -> (r: String)
    ensures
        r@ == "iuutils: error: failed to exec '"@ + path@ + "': "@ + detail@,
{
    let mut r: String = "iuutils: error: failed to exec '".to_owned();
    r.append(path);
    r.append("': ");
    r.append(detail.as_str());
    r
}

} // verus!
