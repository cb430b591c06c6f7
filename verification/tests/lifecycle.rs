use gpapi::lifecycle::{ExitReason, Lifecycle, LifecycleAction, LifecycleEvent, Phase};
use gpapi::utils::lock_file::{LockError, LockFile, Removal};

fn starting(pid: u32) -> Lifecycle {
    Lifecycle::new(LockFile::new("/var/run/gpservice.lock", pid))
}

fn running(pid: u32) -> Lifecycle {
    let mut lifecycle = starting(pid);
    lifecycle.start(None, &[]);
    assert_eq!(lifecycle.phase(), Phase::Running);
    lifecycle
}

#[test]
fn a_new_lifecycle_is_starting() {
    let lifecycle = starting(100);
    assert_eq!(lifecycle.phase(), Phase::Starting);
    assert_eq!(lifecycle.lock_file().pid(), 100);
    assert_eq!(lifecycle.lock_file().path(), "/var/run/gpservice.lock");
}

#[test]
fn with_the_lock_free_the_daemon_writes_its_record_and_launches() {
    let mut lifecycle = starting(100);
    let actions = lifecycle.start(None, &[]);
    assert_eq!(
        actions,
        vec![LifecycleAction::WriteLock(b"100".to_vec()), LifecycleAction::Launch]
    );
    assert_eq!(lifecycle.phase(), Phase::Running);
}

#[test]
fn a_stale_record_does_not_keep_the_daemon_from_starting() {
    let mut lifecycle = starting(300);
    let actions = lifecycle.start(Some(b"100"), &[]);
    assert_eq!(
        actions,
        vec![LifecycleAction::WriteLock(b"300".to_vec()), LifecycleAction::Launch]
    );
    assert_eq!(lifecycle.phase(), Phase::Running);
}

#[test]
fn with_the_lock_held_the_daemon_exits_and_writes_nothing() {
    let mut lifecycle = starting(200);
    let actions = lifecycle.start(Some(b"100"), &[100]);
    assert_eq!(actions, vec![LifecycleAction::Exit(ExitReason::AlreadyRunning)]);
    assert_eq!(lifecycle.phase(), Phase::Exited(ExitReason::AlreadyRunning));
    assert_ne!(ExitReason::AlreadyRunning.code(), 0);
}

#[test]
fn starting_twice_does_nothing_the_second_time() {
    let mut lifecycle = running(100);
    assert_eq!(lifecycle.start(None, &[]), vec![]);
    assert_eq!(lifecycle.phase(), Phase::Running);
}

#[test]
fn a_signal_and_a_request_shut_down_alike() {
    for event in [LifecycleEvent::ShutdownSignal, LifecycleEvent::ShutdownRequest] {
        let mut lifecycle = running(100);
        assert_eq!(lifecycle.step(event), vec![LifecycleAction::CancelVpnTask]);
        assert_eq!(lifecycle.phase(), Phase::Draining);
    }
}

#[test]
fn the_lock_is_given_back_once_both_have_ended() {
    let mut lifecycle = running(100);
    lifecycle.step(LifecycleEvent::ShutdownSignal);
    assert_eq!(lifecycle.step(LifecycleEvent::VpnTaskFinished), vec![]);
    assert_eq!(lifecycle.phase(), Phase::Draining);
    assert_eq!(lifecycle.step(LifecycleEvent::ServerFinished), vec![LifecycleAction::Unlock]);
    assert_eq!(lifecycle.phase(), Phase::Unlocking);
    assert_eq!(
        lifecycle.step(LifecycleEvent::Unlocked(Removal::Removed)),
        vec![LifecycleAction::Exit(ExitReason::Stopped)]
    );
    assert_eq!(lifecycle.phase(), Phase::Exited(ExitReason::Stopped));
}

#[test]
fn the_two_may_end_in_either_order() {
    let mut lifecycle = running(100);
    lifecycle.step(LifecycleEvent::ShutdownRequest);
    assert_eq!(lifecycle.step(LifecycleEvent::ServerFinished), vec![]);
    assert_eq!(lifecycle.step(LifecycleEvent::ServerFinished), vec![]);
    assert_eq!(lifecycle.step(LifecycleEvent::VpnTaskFinished), vec![LifecycleAction::Unlock]);
    assert_eq!(lifecycle.phase(), Phase::Unlocking);
}

#[test]
fn what_ended_before_the_shutdown_is_remembered() {
    let mut lifecycle = running(100);
    assert_eq!(lifecycle.step(LifecycleEvent::VpnTaskFinished), vec![]);
    assert_eq!(lifecycle.phase(), Phase::Running);
    assert_eq!(
        lifecycle.step(LifecycleEvent::ShutdownSignal),
        vec![LifecycleAction::CancelVpnTask]
    );
    assert_eq!(lifecycle.step(LifecycleEvent::ServerFinished), vec![LifecycleAction::Unlock]);

    let mut lifecycle = running(100);
    lifecycle.step(LifecycleEvent::VpnTaskFinished);
    lifecycle.step(LifecycleEvent::ServerFinished);
    assert_eq!(lifecycle.phase(), Phase::Running);
    assert_eq!(
        lifecycle.step(LifecycleEvent::ShutdownRequest),
        vec![LifecycleAction::CancelVpnTask, LifecycleAction::Unlock]
    );
    assert_eq!(lifecycle.phase(), Phase::Unlocking);
}

#[test]
fn a_record_that_was_gone_already_is_no_failure() {
    let mut lifecycle = running(100);
    lifecycle.step(LifecycleEvent::ShutdownSignal);
    lifecycle.step(LifecycleEvent::VpnTaskFinished);
    lifecycle.step(LifecycleEvent::ServerFinished);
    assert_eq!(
        lifecycle.step(LifecycleEvent::Unlocked(Removal::Absent)),
        vec![LifecycleAction::Exit(ExitReason::Stopped)]
    );
    assert_eq!(ExitReason::Stopped.code(), 0);
    assert_eq!(ExitReason::Stopped.error(), None);
}

#[test]
fn a_lock_that_cannot_be_given_back_fails_the_daemon() {
    let mut lifecycle = running(100);
    lifecycle.step(LifecycleEvent::ShutdownSignal);
    lifecycle.step(LifecycleEvent::VpnTaskFinished);
    lifecycle.step(LifecycleEvent::ServerFinished);
    assert_eq!(
        lifecycle.step(LifecycleEvent::Unlocked(Removal::Failed)),
        vec![LifecycleAction::Exit(ExitReason::UnlockFailed)]
    );
    assert_eq!(lifecycle.phase(), Phase::Exited(ExitReason::UnlockFailed));
    assert_eq!(ExitReason::UnlockFailed.code(), 1);
    assert_eq!(ExitReason::UnlockFailed.error(), Some(LockError::RemoveFailed));
    assert_eq!(ExitReason::AlreadyRunning.error(), Some(LockError::AlreadyRunning));
}

#[test]
fn events_out_of_place_change_nothing() {
    let mut lifecycle = starting(100);
    for event in [
        LifecycleEvent::ShutdownSignal,
        LifecycleEvent::ShutdownRequest,
        LifecycleEvent::VpnTaskFinished,
        LifecycleEvent::ServerFinished,
        LifecycleEvent::Unlocked(Removal::Removed),
    ] {
        assert_eq!(lifecycle.step(event), vec![]);
        assert_eq!(lifecycle.phase(), Phase::Starting);
    }

    let mut lifecycle = running(100);
    assert_eq!(lifecycle.step(LifecycleEvent::Unlocked(Removal::Removed)), vec![]);
    assert_eq!(lifecycle.phase(), Phase::Running);

    lifecycle.step(LifecycleEvent::ShutdownSignal);
    assert_eq!(lifecycle.step(LifecycleEvent::ShutdownSignal), vec![]);
    assert_eq!(lifecycle.step(LifecycleEvent::Unlocked(Removal::Removed)), vec![]);
    assert_eq!(lifecycle.phase(), Phase::Draining);

    lifecycle.step(LifecycleEvent::VpnTaskFinished);
    lifecycle.step(LifecycleEvent::ServerFinished);
    assert_eq!(lifecycle.step(LifecycleEvent::ShutdownRequest), vec![]);
    assert_eq!(lifecycle.step(LifecycleEvent::ServerFinished), vec![]);
    assert_eq!(lifecycle.phase(), Phase::Unlocking);

    lifecycle.step(LifecycleEvent::Unlocked(Removal::Removed));
    assert_eq!(lifecycle.step(LifecycleEvent::ShutdownSignal), vec![]);
    assert_eq!(lifecycle.start(None, &[]), vec![]);
    assert_eq!(lifecycle.phase(), Phase::Exited(ExitReason::Stopped));
}
