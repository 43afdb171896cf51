use tendhost::state::HostState;
use tendhost::state::HostState::{
    Failed, Idle, PendingUpdates, Querying, Rebooting, Updating, Verifying, WaitingReboot,
};

#[test]
fn test_valid_transitions() {

    // Normal flow
    assert!(Idle.can_transition_to(Querying));
    assert!(Querying.can_transition_to(PendingUpdates));
    assert!(PendingUpdates.can_transition_to(Updating));
    assert!(Updating.can_transition_to(WaitingReboot));
    assert!(Updating.can_transition_to(Idle));
    assert!(WaitingReboot.can_transition_to(Rebooting));
    assert!(Rebooting.can_transition_to(Verifying));
    assert!(Verifying.can_transition_to(Idle));

    // Error recovery
    assert!(Querying.can_transition_to(Idle));
    assert!(Rebooting.can_transition_to(Idle));

    // Error transitions
    assert!(Querying.can_transition_to(Failed));
    assert!(Updating.can_transition_to(Failed));
    assert!(Rebooting.can_transition_to(Failed));

    // Recovery from failed
    assert!(Failed.can_transition_to(Idle));
}

#[test]
fn test_invalid_transitions() {

    assert!(!Idle.can_transition_to(Updating)); // must query first
    assert!(!Querying.can_transition_to(Rebooting));
    assert!(!PendingUpdates.can_transition_to(Verifying));
    assert!(!Idle.can_transition_to(Idle)); // no self-transition
}

#[test]
fn test_is_busy() {

    assert!(!Idle.is_busy());
    assert!(!Failed.is_busy());
    assert!(!PendingUpdates.is_busy());
    assert!(!WaitingReboot.is_busy());

    assert!(Querying.is_busy());
    assert!(Updating.is_busy());
    assert!(Rebooting.is_busy());
    assert!(Verifying.is_busy());
}

#[test]
fn test_display() {
    assert_eq!(HostState::Idle.to_string(), "idle");
    assert_eq!(HostState::PendingUpdates.to_string(), "pending_updates");
}

#[test]
fn no_self_transitions_and_full_table() {
    let all = [Idle, Querying, PendingUpdates, Updating, WaitingReboot, Rebooting, Verifying, Failed];
    let mut allowed = 0;
    for a in all {
        assert!(!a.can_transition_to(a));
        for b in all {
            if a.can_transition_to(b) {
                allowed += 1;
            }
        }
    }
    assert_eq!(allowed, 15);
    assert!(!Failed.can_transition_to(Querying));
    assert!(!PendingUpdates.can_transition_to(Querying));
}

#[test]
fn startable_states() {
    assert!(HostState::Idle.can_start_operation());
    assert!(HostState::PendingUpdates.can_start_operation());
    assert!(!HostState::Failed.can_start_operation());
    assert!(!HostState::WaitingReboot.can_start_operation());
    assert_eq!(HostState::default(), HostState::Idle);
    assert_eq!(HostState::WaitingReboot.as_str(), "waiting_reboot");
}
