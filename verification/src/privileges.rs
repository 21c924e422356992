//! The privilege drop: the ordered syscall plan that irreversibly demotes a
//! process to the target user, the runner that follows it, and the system
//! calls behind it. The order — supplementary groups, then gid, then uid — is
//! security-critical: setting the uid first would strip the right to set the
//! gid afterward. The drop runs in the session child, never in the parent; a
//! failure prevents the child's exec and reaches the parent as an ordinary
//! spawn failure.

use vstd::prelude::*;
use vstd::string::StringSliceAdditionalSpecFns;

verus! {

/// One step of the privilege drop, with the identity it sets.
#[derive(Clone, PartialEq, Debug)]
pub enum PrivilegeStep {
    SetGroups(Vec<u32>),
    SetGid(u32),
    SetUid(u32),
}

/// Which call a step makes, as a recording test double observes it.
#[derive(Clone, Copy, PartialEq, Eq, Structural, Debug)]
pub enum PrivilegeCall {
    Groups,
    Gid,
    Uid,
}

/// A failed drop: which call failed, and the system's error number.
#[derive(Clone, Copy, PartialEq, Eq, Structural, Debug)]
pub struct PrivilegeDropError {
    pub call: PrivilegeCall,
    pub errno: i32,
}

pub open spec fn spec_call_of(step: PrivilegeStep) -> PrivilegeCall {
    match step {
        PrivilegeStep::SetGroups(_) => PrivilegeCall::Groups,
        PrivilegeStep::SetGid(_) => PrivilegeCall::Gid,
        PrivilegeStep::SetUid(_) => PrivilegeCall::Uid,
    }
}

fn call_of(step: &PrivilegeStep) -> (c: PrivilegeCall)
    ensures
        c == spec_call_of(*step),
{
    match step {
        PrivilegeStep::SetGroups(_) => PrivilegeCall::Groups,
        PrivilegeStep::SetGid(_) => PrivilegeCall::Gid,
        PrivilegeStep::SetUid(_) => PrivilegeCall::Uid,
    }
}

/// The plan for demoting to the given identity: supplementary groups first,
/// then the gid, then the uid, and nothing else.
pub fn privilege_drop_plan(uid: u32, gid: u32, groups: Vec<u32>) -> (r: Vec<PrivilegeStep>)
    ensures
        r@ == seq![
            PrivilegeStep::SetGroups(groups),
            PrivilegeStep::SetGid(gid),
            PrivilegeStep::SetUid(uid),
        ],
{
    let mut r: Vec<PrivilegeStep> = Vec::new();
    r.push(PrivilegeStep::SetGroups(groups));
    r.push(PrivilegeStep::SetGid(gid));
    r.push(PrivilegeStep::SetUid(uid));
    proof {
        assert(r@ =~= seq![
            PrivilegeStep::SetGroups(groups),
            PrivilegeStep::SetGid(gid),
            PrivilegeStep::SetUid(uid),
        ]);
    }
    r
}

/// Run a privilege plan against injected outcomes (a recording test double):
/// each step's call is recorded in plan order, and the run stops at the first
/// step whose outcome is a failure, attempting nothing after it. Returns the
/// recorded calls and whether every step succeeded.
pub fn run_privilege_plan_trace(plan: &Vec<PrivilegeStep>, outcomes: &Vec<bool>) -> (res: (
    Vec<PrivilegeCall>,
    bool,
))
    requires
        outcomes@.len() == plan@.len(),
    ensures
        res.0@.len() <= plan@.len(),
        forall|j: int| 0 <= j < res.0@.len() ==> res.0@[j] == spec_call_of(plan@[j]),
        forall|j: int| 0 <= j < res.0@.len() - 1 ==> outcomes@[j],
        res.1 <==> (forall|j: int| 0 <= j < outcomes@.len() ==> outcomes@[j]),
        res.1 ==> res.0@.len() == plan@.len(),
        !res.1 ==> res.0@.len() >= 1 && !outcomes@[res.0@.len() - 1],
{
    let mut calls: Vec<PrivilegeCall> = Vec::new();
    let mut i: usize = 0;
    while i < plan.len()
        invariant
            0 <= i <= plan@.len(),
            outcomes@.len() == plan@.len(),
            calls@.len() == i,
            forall|j: int| 0 <= j < i ==> calls@[j] == spec_call_of(plan@[j]),
            forall|j: int| 0 <= j < i ==> outcomes@[j],
        decreases plan@.len() - i,
    {
        calls.push(call_of(&plan[i]));
        if !outcomes[i] {
            return (calls, false);
        }
        i += 1;
    }
    (calls, true)
}

/// Law: whatever the injected outcomes, the calls a run of the privilege-drop
/// plan attempts are a prefix of supplementary groups, then gid, then uid;
/// the groups call always comes first, and the uid call is attempted only
/// after both of the others succeeded.
pub proof fn lemma_privilege_drop_order(
    plan: Seq<PrivilegeStep>,
    calls: Seq<PrivilegeCall>,
    uid: u32,
    gid: u32,
    groups: Vec<u32>,
)
    requires
        plan == seq![
            PrivilegeStep::SetGroups(groups),
            PrivilegeStep::SetGid(gid),
            PrivilegeStep::SetUid(uid),
        ],
        calls.len() <= plan.len(),
        forall|j: int| 0 <= j < calls.len() ==> calls[j] == spec_call_of(plan[j]),
    ensures
        calls.is_prefix_of(seq![PrivilegeCall::Groups, PrivilegeCall::Gid, PrivilegeCall::Uid]),
        calls.len() > 0 ==> calls[0] == PrivilegeCall::Groups,
        calls.contains(PrivilegeCall::Uid) ==> calls == seq![
            PrivilegeCall::Groups,
            PrivilegeCall::Gid,
            PrivilegeCall::Uid,
        ],
{
    let order = seq![PrivilegeCall::Groups, PrivilegeCall::Gid, PrivilegeCall::Uid];
    assert(calls =~= order.subrange(0, calls.len() as int));
    if calls.contains(PrivilegeCall::Uid) {
        let k = choose|k: int| 0 <= k < calls.len() && calls[k] == PrivilegeCall::Uid;
        assert(k == 2);
        assert(calls =~= order);
    }
}

/// Relies on nix::unistd::setgroups: sets the calling process's supplementary
/// group list to exactly the given ids; a failure comes back as the system's
/// error number.
#[verifier::external_body]
fn sys_set_groups(groups: &Vec<u32>) -> (r: Result<(), i32>) {
    let gids: Vec<nix::unistd::Gid> =
        groups.iter().map(|g| nix::unistd::Gid::from_raw(*g)).collect();
    match nix::unistd::setgroups(&gids) {
        Ok(()) => Ok(()),
        Err(e) => Err(e as i32),
    }
}

/// Relies on nix::unistd::setgid: sets the calling process's group id; a
/// failure comes back as the system's error number.
#[verifier::external_body]
fn sys_set_gid(gid: u32) -> (r: Result<(), i32>) {
    match nix::unistd::setgid(nix::unistd::Gid::from_raw(gid)) {
        Ok(()) => Ok(()),
        Err(e) => Err(e as i32),
    }
}

/// Relies on nix::unistd::setuid: sets the calling process's user id; a
/// failure comes back as the system's error number.
#[verifier::external_body]
fn sys_set_uid(uid: u32) -> (r: Result<(), i32>) {
    match nix::unistd::setuid(nix::unistd::Uid::from_raw(uid)) {
        Ok(()) => Ok(()),
        Err(e) => Err(e as i32),
    }
}

/// Perform the calls a privilege plan prescribes, in plan order, stopping at
/// the first failing call. Whether a call succeeds is the system's decision;
/// an error names the step that failed.
pub fn apply_privilege_plan(plan: &Vec<PrivilegeStep>) -> (r: Result<(), PrivilegeDropError>)
    ensures
        r matches Err(e) ==> exists|j: int|
            0 <= j < plan@.len() && spec_call_of(plan@[j]) == e.call,
{
    let mut i: usize = 0;
    while i < plan.len()
        invariant
            0 <= i <= plan@.len(),
        decreases plan@.len() - i,
    {
        let step_result: Result<(), i32> = match &plan[i] {
            PrivilegeStep::SetGroups(groups) => sys_set_groups(groups),
            PrivilegeStep::SetGid(gid) => sys_set_gid(*gid),
            PrivilegeStep::SetUid(uid) => sys_set_uid(*uid),
        };
        if let Err(errno) = step_result {
            return Err(PrivilegeDropError { call: call_of(&plan[i]), errno });
        }
        i += 1;
    }
    Ok(())
}

/// Drop this process's privileges to the target identity, in the fixed order
/// of the plan. Any failure names the call that failed; the calls after it
/// are not attempted.
pub fn drop_privileges(uid: u32, gid: u32, groups: Vec<u32>) -> (r: Result<(), PrivilegeDropError>)
    ensures
        r matches Err(e) ==> (e.call == PrivilegeCall::Groups || e.call == PrivilegeCall::Gid
            || e.call == PrivilegeCall::Uid),
{
    let plan = privilege_drop_plan(uid, gid, groups);
    apply_privilege_plan(&plan)
}

/// Whether the UTF-8 encoding of a string contains a zero byte — such a name
/// cannot be handed to the system's user database.
pub open spec fn spec_has_nul(s: &str) -> bool {
    exists|i: int| 0 <= i < s.spec_bytes().len() && s.spec_bytes()[i] == 0
}

fn str_contains_nul(s: &str) -> (r: bool)
    ensures
        r == spec_has_nul(s),
{
    let bytes = s.as_bytes();
    let mut i: usize = 0;
    while i < bytes.len()
        invariant
            0 <= i <= bytes@.len(),
            bytes@ == s.spec_bytes(),
            forall|j: int| 0 <= j < i ==> bytes@[j] != 0,
        decreases bytes@.len() - i,
    {
        if bytes[i] == 0 {
            return true;
        }
        i += 1;
    }
    false
}

/// Relies on users::get_user_groups: the ids of the groups the named user
/// belongs to, the given primary gid among them; None when the lookup fails.
/// The result depends on the system's user database, so nothing more is
/// promised of it.
#[verifier::external_body]
fn sys_user_group_ids(username: &str, gid: u32) -> (r: Option<Vec<u32>>)
    requires
        !spec_has_nul(username),
{
    users::get_user_groups(username, gid).map(|gs| gs.iter().map(|g| g.gid()).collect())
}

/// The supplementary-group ids for a user, from the system's user database.
/// None when the name cannot be passed to the lookup or the lookup fails.
pub fn user_group_ids(username: &str, gid: u32) -> (r: Option<Vec<u32>>)
    ensures
        spec_has_nul(username) ==> r is None,
{
    if str_contains_nul(username) {
        None
    } else {
        sys_user_group_ids(username, gid)
    }
}

} // verus!
