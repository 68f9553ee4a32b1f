//! Process credential model: real/effective/saved identity triples and
//! the collapse performed by a privilege drop.

use vstd::prelude::*;

verus! {

/// One credential axis (user or group) as the three POSIX identifiers:
/// the real, effective, and saved id.
#[derive(Clone, Copy, Debug, PartialEq, Eq, Structural)]
pub struct IdTriple {
    pub real: u32,
    pub effective: u32,
    pub saved: u32,
}

impl IdTriple {
    /// The triple a successful privilege drop leaves behind: all three
    /// identifiers equal to the pre-drop effective value.
    pub open spec fn spec_collapse(self) -> IdTriple {
        IdTriple { real: self.effective, effective: self.effective, saved: self.effective }
    }

    /// A fully dropped triple: real = effective = saved.
    pub open spec fn spec_is_collapsed(self) -> bool {
        self.real == self.effective && self.saved == self.effective
    }

    /// Collapse the triple down to its effective value, as a drop does.
    pub fn collapse(&self) -> (r: IdTriple)
        ensures
            r == self.spec_collapse(),
            r.spec_is_collapsed(),
            r.effective == self.effective,
    {
        IdTriple { real: self.effective, effective: self.effective, saved: self.effective }
    }
}

/// Collapsing is idempotent: a dropped triple is already collapsed, and
/// dropping it again changes nothing while keeping the effective value.
pub proof fn lemma_collapse_idempotent(t: IdTriple)
    ensures
        t.spec_collapse().spec_is_collapsed(),
        t.spec_collapse().spec_collapse() == t.spec_collapse(),
        t.spec_collapse().effective == t.effective,
{
}

/// The two stages of a privilege drop, in the order they must run.
#[derive(Clone, Copy, Debug, PartialEq, Eq, Structural)]
pub enum DropStage {
    GroupChange,
    UserChange,
}

/// One attempted identity-change operation, carrying the id it set.
#[derive(Clone, Copy, Debug, PartialEq, Eq, Structural)]
pub enum IdOp {
    SetGroup(u32),
    SetUser(u32),
}

/// The OS refused to report the process credentials.
#[derive(Debug)]
pub struct IdentityQueryError {
    pub message: String,
}

/// The OS refused an identity change; the stage names which one.
#[derive(Debug)]
pub struct DropError {
    pub stage: DropStage,
    pub message: String,
}

/// Relies on nix::unistd::getresuid: on success it returns the real,
/// effective and saved user ids of the calling process; on failure the
/// error text carries the errno. The result depends on process state,
/// so nothing more is stated of it.
#[verifier::external_body]
fn query_user_ids() -> (r: Result<IdTriple, String>) {
    match nix::unistd::getresuid() {
        Ok(ids) => Ok(
            IdTriple {
                real: ids.real.as_raw(),
                effective: ids.effective.as_raw(),
                saved: ids.saved.as_raw(),
            },
        ),
        Err(e) => Err(format!("{}", e)),
    }
}

/// Relies on nix::unistd::getresgid: on success it returns the real,
/// effective and saved group ids of the calling process; on failure the
/// error text carries the errno. The result depends on process state,
/// so nothing more is stated of it.
#[verifier::external_body]
fn query_group_ids() -> (r: Result<IdTriple, String>) {
    match nix::unistd::getresgid() {
        Ok(ids) => Ok(
            IdTriple {
                real: ids.real.as_raw(),
                effective: ids.effective.as_raw(),
                saved: ids.saved.as_raw(),
            },
        ),
        Err(e) => Err(format!("{}", e)),
    }
}

/// Relies on nix::unistd::setresgid: asks the OS to set the real,
/// effective and saved group ids all to `gid`; on refusal the error
/// text carries the errno. Whether the OS permits the change depends on
/// process state, so nothing more is stated of it.
#[verifier::external_body]
fn set_group_ids(gid: u32) -> (r: Result<(), String>) {
    match nix::unistd::setresgid(
        nix::unistd::Gid::from_raw(gid),
        nix::unistd::Gid::from_raw(gid),
        nix::unistd::Gid::from_raw(gid),
    ) {
        Ok(()) => Ok(()),
        Err(e) => Err(format!("{}", e)),
    }
}

/// Relies on nix::unistd::setresuid: asks the OS to set the real,
/// effective and saved user ids all to `uid`; on refusal the error
/// text carries the errno. Whether the OS permits the change depends on
/// process state, so nothing more is stated of it.
#[verifier::external_body]
fn set_user_ids(uid: u32) -> (r: Result<(), String>) {
    match nix::unistd::setresuid(
        nix::unistd::Uid::from_raw(uid),
        nix::unistd::Uid::from_raw(uid),
        nix::unistd::Uid::from_raw(uid),
    ) {
        Ok(()) => Ok(()),
        Err(e) => Err(format!("{}", e)),
    }
}

/// Read the process's current user and group triples, user axis first,
/// in two read-only OS queries. Fails if either query fails; the OS
/// decides, so success cannot be promised. Callers must query before
/// any drop and thread the returned triples into it.
pub fn query_identity() -> (r: Result<(IdTriple, IdTriple), IdentityQueryError>) {
    match query_user_ids() {
        Err(m) => Err(IdentityQueryError { message: m }),
        Ok(user) => match query_group_ids() {
            Err(m) => Err(IdentityQueryError { message: m }),
            Ok(group) => Ok((user, group)),
        },
    }
}

/// Irreversibly collapse both credential axes to their effective
/// values: the group identity first, then the user identity. The order
/// is mandatory, since dropping the user identity first can remove the
/// permission needed to change the group identity. If the group change
/// is refused, the user change is never attempted; a partial drop is
/// reported as failure and the caller must not proceed to execution.
/// On success the returned triples are the observed post-drop state.
pub fn drop_privileges(user: &IdTriple, group: &IdTriple) -> (r: Result<
    (IdTriple, IdTriple),
    DropError,
>)
    ensures
        r matches Ok(t) ==> t.0 == user.spec_collapse() && t.1 == group.spec_collapse()
            && t.0.spec_is_collapsed() && t.1.spec_is_collapsed(),
{
    match set_group_ids(group.effective) {
        Err(m) => Err(DropError { stage: DropStage::GroupChange, message: m }),
        Ok(_) => match set_user_ids(user.effective) {
            Err(m) => Err(DropError { stage: DropStage::UserChange, message: m }),
            Ok(_) => Ok((user.collapse(), group.collapse())),
        },
    }
}

/// The drop-privilege operation over injected OS outcomes: the same
/// decisions as `drop_privileges`, with the recorded sequence of
/// attempted identity changes returned beside the result. The group
/// change is always attempted first; the user change is attempted only
/// after the group change succeeded; and a failure at either stage
/// stops the operation with that stage reported.
pub fn simulate_drop(
    user: &IdTriple,
    group: &IdTriple,
    group_change_ok: bool,
    user_change_ok: bool,
) -> (r: (Result<(IdTriple, IdTriple), DropStage>, Vec<IdOp>))
    ensures
        r.1@.len() >= 1 && r.1@[0] == IdOp::SetGroup(group.effective),
        forall|i: int|
            0 <= i < r.1@.len() && (#[trigger] r.1@[i]) is SetUser ==> i == 1 && r.1@[i]
                == IdOp::SetUser(user.effective),
        !group_change_ok ==> r.0 == Result::<(IdTriple, IdTriple), DropStage>::Err(
            DropStage::GroupChange,
        ) && r.1@ == seq![IdOp::SetGroup(group.effective)],
        group_change_ok && !user_change_ok ==> r.0 == Result::<(IdTriple, IdTriple), DropStage>::Err(
            DropStage::UserChange,
        ) && r.1@ == seq![IdOp::SetGroup(group.effective), IdOp::SetUser(user.effective)],
        group_change_ok && user_change_ok ==> r.0 == Result::<(IdTriple, IdTriple), DropStage>::Ok(
            (user.spec_collapse(), group.spec_collapse()),
        ) && r.1@ == seq![IdOp::SetGroup(group.effective), IdOp::SetUser(user.effective)],
{
    let mut ops: Vec<IdOp> = Vec::new();
    ops.push(IdOp::SetGroup(group.effective));
    if !group_change_ok {
        proof {
            assert(ops@ =~= seq![IdOp::SetGroup(group.effective)]);
        }
        return (Err(DropStage::GroupChange), ops);
    }
    ops.push(IdOp::SetUser(user.effective));
    proof {
        assert(ops@ =~= seq![IdOp::SetGroup(group.effective), IdOp::SetUser(user.effective)]);
    }
    if !user_change_ok {
        return (Err(DropStage::UserChange), ops);
    }
    (Ok((user.collapse(), group.collapse())), ops)
}

} // verus!
