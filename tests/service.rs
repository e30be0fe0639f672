use proxy_dashboard::service::{after_start, ServiceState, StartAction, StartOutcome};

#[test]
fn bind_starts_running() {
    let (state, action) = after_start(&StartOutcome::Bound);
    assert_eq!(state, ServiceState::Running);
    assert!(matches!(action, StartAction::Serve));
}

#[test]
fn bind_failure_is_reported_and_stays_stopped() {
    let (state, action) = after_start(&StartOutcome::Failed("Address already in use".to_string()));
    assert_eq!(state, ServiceState::Stopped);
    match action {
        StartAction::Report(m) => assert_eq!(m, "could not start server: Address already in use"),
        StartAction::Serve => panic!("a failure must be reported"),
    }
}
