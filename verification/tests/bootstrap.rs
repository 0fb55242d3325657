use desktop_node::bootstrap::{
    check_fd_limit, log_directive, BootstrapGuard, BootstrapStep, LogLevel, LowFdLimit,
    RECOMMENDED_OPEN_FILE_DESCRIPTOR_LIMIT, SUPPORT_CONTACT,
};
use std::sync::atomic::{AtomicUsize, Ordering};
use std::sync::{Arc, Mutex};
use tokio::runtime::Builder;

#[test]
fn fresh_guard_is_not_completed() {
    assert!(!BootstrapGuard::new().is_completed());
}

#[test]
fn first_call_is_handed_the_steps_in_order() {
    let mut guard = BootstrapGuard::new();
    let steps = guard.ensure_initialized();
    assert_eq!(
        steps,
        Some(vec![
            BootstrapStep::LoadEnvironmentFile,
            BootstrapStep::SetDefaultAddressFormat,
            BootstrapStep::InstallPanicHandler,
            BootstrapStep::InitLogger(LogLevel::Info),
            BootstrapStep::RaiseFdLimit,
        ])
    );
    assert!(guard.is_completed());
}

#[test]
fn later_calls_are_handed_nothing() {
    let mut guard = BootstrapGuard::new();
    assert!(guard.ensure_initialized().is_some());
    for _ in 0..10 {
        assert_eq!(guard.ensure_initialized(), None);
        assert!(guard.is_completed());
    }
}

#[test]
fn two_guards_do_not_share_their_state() {
    let mut first = BootstrapGuard::new();
    let mut second = BootstrapGuard::new();
    assert!(first.ensure_initialized().is_some());
    assert!(!second.is_completed());
    assert!(second.ensure_initialized().is_some());
    assert_eq!(first.ensure_initialized(), None);
    assert_eq!(second.ensure_initialized(), None);
}

#[test]
fn fifty_concurrent_callers_initialize_once() {
    let runtime = Builder::new_current_thread().build().expect("a runtime is built");
    let guard = Arc::new(Mutex::new(BootstrapGuard::new()));
    let side_effects = Arc::new(AtomicUsize::new(0));
    let mut callers = Vec::new();
    for _ in 0..50 {
        let guard = Arc::clone(&guard);
        let side_effects = Arc::clone(&side_effects);
        callers.push(runtime.spawn_blocking(move || {
            let mut guard = guard.lock().unwrap();
            let steps = guard.ensure_initialized();
            if let Some(steps) = &steps {
                assert_eq!(steps.len(), 5);
                side_effects.fetch_add(1, Ordering::SeqCst);
            }
            steps.is_some()
        }));
    }
    let mut handed_out = 0;
    for caller in callers {
        if runtime.block_on(caller).expect("the caller finishes") {
            handed_out += 1;
        }
    }
    assert_eq!(handed_out, 1);
    assert_eq!(side_effects.load(Ordering::SeqCst), 1);
    assert!(guard.lock().unwrap().is_completed());
}

#[test]
fn low_fd_limit_calls_for_a_warning() {
    assert_eq!(check_fd_limit(Some(256)), Some(LowFdLimit { current: 256, recommended: 10_000 }));
    assert_eq!(check_fd_limit(Some(0)), Some(LowFdLimit { current: 0, recommended: 10_000 }));
    assert_eq!(check_fd_limit(Some(9_999)), Some(LowFdLimit { current: 9_999, recommended: 10_000 }));
}

#[test]
fn sufficient_or_unknown_fd_limit_calls_for_none() {
    assert_eq!(check_fd_limit(Some(10_000)), None);
    assert_eq!(check_fd_limit(Some(10_001)), None);
    assert_eq!(check_fd_limit(Some(u64::MAX)), None);
    assert_eq!(check_fd_limit(None), None);
}

#[test]
fn log_directives() {
    assert_eq!(log_directive(LogLevel::Error), "error");
    assert_eq!(log_directive(LogLevel::Warn), "warn");
    assert_eq!(log_directive(LogLevel::Info), "info");
    assert_eq!(log_directive(LogLevel::Debug), "debug");
    assert_eq!(log_directive(LogLevel::Trace), "trace");
}

#[test]
fn bootstrap_constants() {
    assert_eq!(RECOMMENDED_OPEN_FILE_DESCRIPTOR_LIMIT, 10_000);
    assert_eq!(SUPPORT_CONTACT, "https://discord.gg/vhKF9w3x");
}
