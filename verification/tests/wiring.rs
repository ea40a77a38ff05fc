use proc_spawn::stdio::Stdio;
use proc_spawn::strutil::decimal_string_u32;
use proc_spawn::wiring::{ipc_env_entry, ipc_env_key, plan_wiring};

#[test]
fn extra_slots_map_to_descriptors_from_three() {
    let extra = vec![Stdio::Piped, Stdio::Null, Stdio::Piped, Stdio::Inherit, Stdio::Piped];
    let plan = plan_wiring(None, &extra);
    assert_eq!(plan.ipc_child_fd, None);
    assert_eq!(plan.extra_child_fds, vec![Some(3), None, Some(5), None, Some(7)]);
}

#[test]
fn non_piped_extra_modes_open_nothing() {
    let extra = vec![Stdio::Inherit, Stdio::Null, Stdio::IpcForInternalUse];
    let plan = plan_wiring(None, &extra);
    assert_eq!(plan.extra_child_fds, vec![None, None, None]);
}

#[test]
fn empty_extra_stdio_plans_nothing() {
    let extra: Vec<Stdio> = vec![];
    let plan = plan_wiring(Some(0), &extra);
    assert_eq!(plan.extra_child_fds.len(), 0);
    assert_eq!(plan.ipc_child_fd, Some(0));
}

#[test]
fn negative_ipc_slot_is_ignored() {
    let extra: Vec<Stdio> = vec![];
    let plan = plan_wiring(Some(-1), &extra);
    assert_eq!(plan.ipc_child_fd, None);
}

#[test]
fn ipc_env_entry_advertises_slot() {
    let (key, value) = ipc_env_entry(4);
    assert_eq!(key, "NODE_CHANNEL_FD");
    assert_eq!(value, "4");
    assert_eq!(ipc_env_key(), "NODE_CHANNEL_FD");
}

#[test]
fn decimal_rendering_matches_display() {
    for n in [0u32, 1, 9, 10, 42, 100, 999, 1000, 65536, u32::MAX] {
        assert_eq!(decimal_string_u32(n), format!("{}", n));
    }
}
