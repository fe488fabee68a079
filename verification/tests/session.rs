use dictation_hud::session::SessionController;
use dictation_hud::session::SessionError;
use dictation_hud::session::SessionState;

#[test]
fn test_only_one_concurrent_start_succeeds() {
    let mut c = SessionController::new();
    assert!(c.request_start().is_ok());
    // A second start that raced the first observes Starting and is refused.
    assert_eq!(c.request_start(), Err(SessionError::AlreadyActive(SessionState::Starting)));
    assert!(c.is_active());
}

#[test]
fn test_start_refused_from_every_active_state() {
    let mut c = SessionController::new();
    c.request_start().unwrap();
    c.notify_recording(10);
    assert_eq!(c.request_start(), Err(SessionError::AlreadyActive(SessionState::Recording)));
    assert!(c.request_stop());
    assert_eq!(c.request_start(), Err(SessionError::AlreadyActive(SessionState::Stopping)));
}

#[test]
fn test_failed_probe_reverts_to_inactive() {
    let mut c = SessionController::new();
    c.request_start().unwrap();
    assert_eq!(c.resolve_probe(false), Err(SessionError::NoFocusTarget));
    assert!(!c.is_active());
    // The controller accepts a fresh start after the revert.
    assert!(c.request_start().is_ok());
    assert_eq!(c.resolve_probe(true), Ok(()));
    assert!(c.is_active());
}

#[test]
fn test_notify_complete_resets_from_any_state() {
    let mut c = SessionController::new();
    c.notify_complete();
    assert!(!c.is_active());

    c.request_start().unwrap();
    c.notify_complete();
    assert!(!c.is_active());

    c.request_start().unwrap();
    c.notify_recording(42);
    c.notify_complete();
    assert!(!c.is_active());

    c.request_start().unwrap();
    c.notify_recording(43);
    c.request_stop();
    c.notify_complete();
    assert!(!c.is_active());

    // Idempotent: resetting twice stays Inactive.
    c.notify_complete();
    assert!(!c.is_active());
}

#[test]
fn test_duplicate_advisory_notices_are_accepted_silently() {
    let mut c = SessionController::new();
    c.request_start().unwrap();
    assert!(c.notify_recording(1));
    assert!(!c.notify_recording(2));
    assert!(c.request_stop());
    assert!(!c.request_stop());
}

#[test]
fn test_state_commands_drive_transitions() {
    let mut c = SessionController::new();
    c.request_start().unwrap();
    assert_eq!(c.set_recording_active("recording", 7), Ok(true));
    assert_eq!(c.set_recording_active("stopping", 8), Ok(true));
    assert_eq!(c.set_recording_active("inactive", 9), Ok(true));
    assert!(!c.is_active());
    assert_eq!(c.set_recording_active("bogus", 10), Err(()));
}

#[test]
fn test_session_identifier_changes_per_session() {
    let mut c = SessionController::new();
    c.request_start().unwrap();
    let first = c.current_session();
    c.notify_complete();
    c.request_start().unwrap();
    assert_ne!(c.current_session(), first);
}
