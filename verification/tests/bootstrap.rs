use app_bootstrap::termination::{exit_code, fatal_message, RunStatus};
use app_bootstrap::verbosity::{log_verbosity, Verbosity};

#[test]
fn debug_build_selects_debug_verbosity() {
    assert_eq!(log_verbosity(true), Verbosity::Debug);
}

#[test]
fn release_build_selects_info_verbosity() {
    assert_eq!(log_verbosity(false), Verbosity::Info);
}

#[test]
fn startup_failure_exits_non_zero() {
    let code = exit_code(&RunStatus::StartupFailed);
    assert_ne!(code, 0);
    assert_eq!(code, 1);
}

#[test]
fn normal_completion_exits_zero() {
    assert_eq!(exit_code(&RunStatus::Completed), 0);
}

#[test]
fn fatal_message_describes_startup_failure() {
    assert_eq!(fatal_message(), "fatal: application failed to start");
}
