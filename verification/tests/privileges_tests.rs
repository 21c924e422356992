use lemurs::privileges::{
    privilege_drop_plan, run_privilege_plan_trace, user_group_ids, PrivilegeCall, PrivilegeStep,
};

#[test]
fn plan_is_groups_then_gid_then_uid() {
    let plan = privilege_drop_plan(1000, 100, vec![4, 27]);
    assert_eq!(
        plan,
        vec![
            PrivilegeStep::SetGroups(vec![4, 27]),
            PrivilegeStep::SetGid(100),
            PrivilegeStep::SetUid(1000),
        ]
    );
}

#[test]
fn run_attempts_every_call_in_order_when_all_succeed() {
    let plan = privilege_drop_plan(1000, 100, vec![4, 27]);
    let (calls, ok) = run_privilege_plan_trace(&plan, &vec![true, true, true]);
    assert!(ok);
    assert_eq!(calls, vec![PrivilegeCall::Groups, PrivilegeCall::Gid, PrivilegeCall::Uid]);
}

#[test]
fn run_stops_at_a_failing_gid_and_never_reaches_uid() {
    let plan = privilege_drop_plan(1000, 100, vec![4, 27]);
    let (calls, ok) = run_privilege_plan_trace(&plan, &vec![true, false, true]);
    assert!(!ok);
    assert_eq!(calls, vec![PrivilegeCall::Groups, PrivilegeCall::Gid]);
}

#[test]
fn run_stops_at_failing_groups_before_anything_else() {
    let plan = privilege_drop_plan(1000, 100, vec![4, 27]);
    let (calls, ok) = run_privilege_plan_trace(&plan, &vec![false, true, true]);
    assert!(!ok);
    assert_eq!(calls, vec![PrivilegeCall::Groups]);
}

#[test]
fn group_lookup_rejects_a_name_with_a_nul_byte() {
    assert!(user_group_ids("al\0ice", 1000).is_none());
}
