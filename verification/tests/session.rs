use gearxchange::error::ErrorKind;
use gearxchange::statemanager::{
    delivery_result, get_user_state, is_valid_permission_level, log_out, set_user_state,
    take_notifications, Session, UserState,
};

#[test]
fn a_new_session_is_signed_out() {
    let session = Session::new();
    let state = get_user_state(&session);
    assert_eq!(state.username, "");
    assert_eq!(state.permission_level, "none");
}

#[test]
fn a_new_session_has_nothing_queued() {
    let mut session = Session::new();
    assert!(take_notifications(&mut session).is_empty());
}

#[test]
fn set_user_state_replaces_the_state() {
    let mut session = Session::new();
    assert_eq!(
        set_user_state(&mut session, "john_doe".to_string(), "regular".to_string()),
        Ok(())
    );
    let state = get_user_state(&session);
    assert_eq!(state.username, "john_doe");
    assert_eq!(state.permission_level, "regular");
}

#[test]
fn set_user_state_takes_each_of_the_three_levels() {
    for level in ["none", "regular", "admin"] {
        let mut session = Session::new();
        assert_eq!(
            set_user_state(&mut session, "someone".to_string(), level.to_string()),
            Ok(())
        );
        let state = get_user_state(&session);
        assert_eq!(state.username, "someone");
        assert_eq!(state.permission_level, level);
    }
}

#[test]
fn set_user_state_refuses_an_unknown_level() {
    let mut session = Session::new();
    set_user_state(&mut session, "john_doe".to_string(), "regular".to_string()).unwrap();
    take_notifications(&mut session);
    for level in ["root", "", "Admin", "regular ", "superuser"] {
        assert_eq!(
            set_user_state(&mut session, "mallory".to_string(), level.to_string()),
            Err(ErrorKind::InvalidPermissionLevel)
        );
        let state = get_user_state(&session);
        assert_eq!(state.username, "john_doe");
        assert_eq!(state.permission_level, "regular");
        assert!(take_notifications(&mut session).is_empty());
    }
}

#[test]
fn each_change_is_queued_once_in_order() {
    let mut session = Session::new();
    set_user_state(&mut session, "a".to_string(), "regular".to_string()).unwrap();
    set_user_state(&mut session, "b".to_string(), "admin".to_string()).unwrap();
    let queued = take_notifications(&mut session);
    assert_eq!(queued.len(), 2);
    assert_eq!(queued[0].username, "a");
    assert_eq!(queued[0].permission_level, "regular");
    assert_eq!(queued[1].username, "b");
    assert_eq!(queued[1].permission_level, "admin");
    assert!(take_notifications(&mut session).is_empty());
    let state = get_user_state(&session);
    assert_eq!(state.username, "b");
    assert_eq!(state.permission_level, "admin");
}

#[test]
fn log_out_resets_whatever_the_state_was() {
    for level in ["none", "regular", "admin"] {
        let mut session = Session::new();
        set_user_state(&mut session, "someone".to_string(), level.to_string()).unwrap();
        log_out(&mut session);
        let state = get_user_state(&session);
        assert_eq!(state.username, "");
        assert_eq!(state.permission_level, "none");
    }
}

#[test]
fn log_out_twice_is_log_out_once() {
    let mut session = Session::new();
    set_user_state(&mut session, "john_doe".to_string(), "regular".to_string()).unwrap();
    log_out(&mut session);
    let once = get_user_state(&session);
    log_out(&mut session);
    let twice = get_user_state(&session);
    assert_eq!(once.username, twice.username);
    assert_eq!(once.permission_level, twice.permission_level);
    assert_eq!(twice.username, "");
    assert_eq!(twice.permission_level, "none");
}

#[test]
fn log_out_on_a_new_session_changes_nothing() {
    let mut session = Session::new();
    log_out(&mut session);
    let state = get_user_state(&session);
    assert_eq!(state.username, "");
    assert_eq!(state.permission_level, "none");
}

#[test]
fn log_out_queues_nothing_and_keeps_the_queue() {
    let mut session = Session::new();
    set_user_state(&mut session, "john_doe".to_string(), "regular".to_string()).unwrap();
    log_out(&mut session);
    let queued = take_notifications(&mut session);
    assert_eq!(queued.len(), 1);
    assert_eq!(queued[0].username, "john_doe");
    log_out(&mut session);
    assert!(take_notifications(&mut session).is_empty());
}

#[test]
fn a_snapshot_does_not_follow_later_changes() {
    let mut session = Session::new();
    set_user_state(&mut session, "john_doe".to_string(), "regular".to_string()).unwrap();
    let snapshot = get_user_state(&session);
    log_out(&mut session);
    assert_eq!(snapshot.username, "john_doe");
    assert_eq!(snapshot.permission_level, "regular");
}

#[test]
fn user_state_can_be_cloned() {
    let state = UserState {
        username: "john_doe".to_string(),
        permission_level: "regular".to_string(),
    };
    let copy = state.clone();
    assert_eq!(copy.username, state.username);
    assert_eq!(copy.permission_level, state.permission_level);
}

#[test]
fn the_permission_levels() {
    assert!(is_valid_permission_level("none"));
    assert!(is_valid_permission_level("regular"));
    assert!(is_valid_permission_level("admin"));
    assert!(!is_valid_permission_level(""));
    assert!(!is_valid_permission_level("None"));
    assert!(!is_valid_permission_level("administrator"));
}

#[test]
fn a_failed_delivery_is_a_failure_of_its_own() {
    assert_eq!(delivery_result(true), Ok(()));
    assert_eq!(
        delivery_result(false),
        Err(ErrorKind::NotificationDeliveryFailure)
    );
}

#[test]
fn error_messages() {
    assert_eq!(ErrorKind::StorageUnavailable.message(), "storage unavailable");
    assert_eq!(
        ErrorKind::UniquenessViolation.message(),
        "username or email already in use"
    );
    assert_eq!(
        ErrorKind::ConstraintViolation.message(),
        "value violates a schema constraint"
    );
    assert_eq!(ErrorKind::NotFound.message(), "no such row");
    assert_eq!(
        ErrorKind::InvalidPermissionLevel.message(),
        "Invalid permission level"
    );
    assert_eq!(
        ErrorKind::NotificationDeliveryFailure.message(),
        "Failed to set user state"
    );
}
