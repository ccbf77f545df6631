use device_shutdown::{
    complete_shutdown, complete_termination, exit_code, handle_shutdown, windows_termination_outcome, CleanupStep,
    PlatformFailure, Reclamation, ShutdownError, ShutdownState, SystemConfig, CLEANUP_DEADLINE_MS,
};

#[test]
fn new_config_is_running() {
    let config = SystemConfig::new();
    assert_eq!(config.shutdown_state(), ShutdownState::Running);
    assert!(!config.is_shutdown_requested());
}

#[test]
fn request_shutdown_moves_to_shutting_down() {
    let mut config = SystemConfig::new();
    assert!(config.request_shutdown().is_ok());
    assert_eq!(config.shutdown_state(), ShutdownState::ShuttingDown);
    assert!(config.is_shutdown_requested());
    assert!(config.request_shutdown().is_ok());
    assert_eq!(config.shutdown_state(), ShutdownState::ShuttingDown);
}

#[test]
fn request_shutdown_after_completion_keeps_completed() {
    let mut config = SystemConfig::new();
    config.request_shutdown().unwrap();
    config.set_shutdown_state(ShutdownState::Completed).unwrap();
    config.request_shutdown().unwrap();
    assert_eq!(config.shutdown_state(), ShutdownState::Completed);
}

#[test]
fn phase_reads_never_decrease() {
    let mut config = SystemConfig::new();
    let mut reads = vec![config.shutdown_state().ordinal()];
    config.request_shutdown().unwrap();
    reads.push(config.shutdown_state().ordinal());
    assert_eq!(config.set_shutdown_state(ShutdownState::Running), Err(ShutdownState::ShuttingDown));
    reads.push(config.shutdown_state().ordinal());
    config.set_shutdown_state(ShutdownState::Completed).unwrap();
    reads.push(config.shutdown_state().ordinal());
    assert_eq!(config.set_shutdown_state(ShutdownState::ShuttingDown), Err(ShutdownState::Completed));
    reads.push(config.shutdown_state().ordinal());
    assert_eq!(reads, vec![0, 1, 1, 2, 2]);
    assert!(reads.windows(2).all(|w| w[0] <= w[1]));
}

#[test]
fn set_same_phase_is_allowed() {
    let mut config = SystemConfig::new();
    assert_eq!(config.set_shutdown_state(ShutdownState::Running), Ok(()));
    assert_eq!(config.shutdown_state(), ShutdownState::Running);
}

#[test]
fn terminating_nonexistent_process_fails_and_keeps_phase() {
    let mut config = SystemConfig::new();
    let r = handle_shutdown(&mut config, 2_000_000_000);
    assert!(matches!(r, Err(ShutdownError::PlatformError(PlatformFailure::SignalFailed(_)))));
    assert_eq!(config.shutdown_state(), ShutdownState::Running);
    assert!(!config.is_shutdown_requested());
}

#[test]
fn successful_termination_requests_shutdown() {
    let mut config = SystemConfig::new();
    assert_eq!(complete_termination(&mut config, Ok(())), Ok(()));
    assert_eq!(config.shutdown_state(), ShutdownState::ShuttingDown);
    assert!(config.is_shutdown_requested());
}

#[test]
fn failed_termination_reports_platform_error() {
    let mut config = SystemConfig::new();
    let r = complete_termination(&mut config, Err(PlatformFailure::TerminateFailed));
    assert_eq!(r, Err(ShutdownError::PlatformError(PlatformFailure::TerminateFailed)));
    assert_eq!(config.shutdown_state(), ShutdownState::Running);
}

#[test]
fn windows_outcomes_are_distinct() {
    assert_eq!(windows_termination_outcome(false, false, false), Err(PlatformFailure::OpenHandleFailed));
    assert_eq!(windows_termination_outcome(true, false, true), Err(PlatformFailure::TerminateFailed));
    assert_eq!(windows_termination_outcome(true, false, false), Err(PlatformFailure::TerminateFailed));
    assert_eq!(windows_termination_outcome(true, true, false), Err(PlatformFailure::CloseHandleFailed));
    assert_eq!(windows_termination_outcome(true, true, true), Ok(()));
}

#[test]
fn reclamation_runs_steps_in_order() {
    let mut rec = Reclamation::new(CLEANUP_DEADLINE_MS);
    assert_eq!(rec.outcome(), None);
    assert_eq!(rec.next_step(), Some(CleanupStep::CollectGarbage));
    rec.record_step(true, 100);
    assert_eq!(rec.next_step(), Some(CleanupStep::RemoveCache));
    assert_eq!(rec.outcome(), None);
    rec.record_step(true, 200);
    assert_eq!(rec.next_step(), None);
    assert_eq!(rec.outcome(), Some(Ok(0)));
}

#[test]
fn reclamation_swallows_step_failures() {
    let mut rec = Reclamation::new(CLEANUP_DEADLINE_MS);
    rec.record_step(false, 10);
    rec.record_step(false, 10);
    assert_eq!(rec.outcome(), Some(Ok(2)));
}

#[test]
fn slow_cleanup_step_times_out() {
    let mut rec = Reclamation::new(CLEANUP_DEADLINE_MS);
    rec.record_step(true, 6000);
    assert_eq!(rec.next_step(), None);
    assert_eq!(rec.outcome(), Some(Err(ShutdownError::Timeout)));
    rec.record_step(true, 1);
    assert_eq!(rec.outcome(), Some(Err(ShutdownError::Timeout)));
}

#[test]
fn reclamation_on_the_deadline_succeeds() {
    let mut rec = Reclamation::new(5000);
    rec.record_step(true, 2500);
    rec.record_step(true, 2500);
    assert_eq!(rec.outcome(), Some(Ok(0)));
}

#[test]
fn expired_timer_times_out_even_after_success() {
    let mut rec = Reclamation::new(CLEANUP_DEADLINE_MS);
    rec.record_step(true, 1);
    rec.expire();
    assert_eq!(rec.next_step(), None);
    assert_eq!(rec.outcome(), Some(Err(ShutdownError::Timeout)));
}

#[test]
fn elapsed_time_saturates() {
    let mut rec = Reclamation::new(u64::MAX);
    rec.record_step(true, u64::MAX);
    assert_eq!(rec.next_step(), Some(CleanupStep::RemoveCache));
    rec.record_step(true, 5);
    assert_eq!(rec.outcome(), Some(Ok(0)));
}

#[test]
fn shutdown_completes_after_reclamation() {
    let mut config = SystemConfig::new();
    config.request_shutdown().unwrap();
    assert_eq!(config.shutdown_state(), ShutdownState::ShuttingDown);
    let r = complete_shutdown(&mut config, Ok(0));
    assert_eq!(r, Ok(()));
    assert_eq!(config.shutdown_state(), ShutdownState::Completed);
    assert_eq!(exit_code(&r), 0);
}

#[test]
fn shutdown_timeout_is_fatal() {
    let mut config = SystemConfig::new();
    config.request_shutdown().unwrap();
    let r = complete_shutdown(&mut config, Err(ShutdownError::Timeout));
    assert_eq!(r, Err(ShutdownError::Timeout));
    assert_eq!(config.shutdown_state(), ShutdownState::ShuttingDown);
    assert_eq!(exit_code(&r), 1);
}

#[test]
fn error_messages() {
    assert_eq!(ShutdownError::Timeout.message(), "Cleanup timeout exceeded");
    assert_eq!(
        ShutdownError::PlatformError(PlatformFailure::CloseHandleFailed).message(),
        "Platform error: failed to close handle"
    );
    assert_eq!(
        ShutdownError::PlatformError(PlatformFailure::SignalFailed(3)).message(),
        "Platform error: failed to send SIGTERM"
    );
}

#[test]
fn skipping_shutting_down_is_refused() {
    let mut config = SystemConfig::new();
    assert_eq!(config.set_shutdown_state(ShutdownState::Completed), Err(ShutdownState::Running));
    assert_eq!(config.shutdown_state(), ShutdownState::Running);
    assert_eq!(config.set_shutdown_state(ShutdownState::ShuttingDown), Ok(()));
    assert_eq!(config.set_shutdown_state(ShutdownState::Completed), Ok(()));
    assert_eq!(config.set_shutdown_state(ShutdownState::Completed), Ok(()));
    assert_eq!(config.shutdown_state(), ShutdownState::Completed);
}
