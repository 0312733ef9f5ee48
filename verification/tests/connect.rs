use idlewatcher::connect::{
    display_name, socket_path, timeout_millis, ConnectFailure, ConnectPlan, ConnectStage,
    DisplaySource, FIRST_SOCKET_INDEX, LAST_SOCKET_INDEX, MAX_SUBSCRIPTION_SECONDS,
    NOTIFIER_VERSION,
};

fn after(display_in_environment: bool, threshold: u64, reports: &[bool]) -> ConnectPlan {
    let mut plan = ConnectPlan::start(display_in_environment, threshold);
    for done in reports {
        plan.advance(*done);
    }
    plan
}

#[test]
fn probe_range_and_notifier_version() {
    assert_eq!(FIRST_SOCKET_INDEX, 1);
    assert_eq!(LAST_SOCKET_INDEX, 9);
    assert_eq!(NOTIFIER_VERSION, 1);
    assert_eq!(MAX_SUBSCRIPTION_SECONDS, 4294967);
}

#[test]
fn timeout_is_the_threshold_in_milliseconds() {
    assert_eq!(timeout_millis(0), Some(0));
    assert_eq!(timeout_millis(10), Some(10_000));
    assert_eq!(timeout_millis(3600), Some(3_600_000));
    assert_eq!(timeout_millis(4294967), Some(4_294_967_000));
}

#[test]
fn timeout_beyond_the_range_is_none() {
    assert_eq!(timeout_millis(4294968), None);
    assert_eq!(timeout_millis(1 << 32), None);
    assert_eq!(timeout_millis(u64::MAX), None);
}

#[test]
fn display_name_holds_the_index() {
    assert_eq!(display_name(1), "wayland-1");
    assert_eq!(display_name(9), "wayland-9");
    assert_eq!(display_name(0), "wayland-0");
    assert_eq!(display_name(255), "wayland-255");
}

#[test]
fn socket_path_lies_under_the_runtime_directory() {
    assert_eq!(socket_path(1000, 1), "/var/run/user/1000/wayland-1");
    assert_eq!(socket_path(0, 9), "/var/run/user/0/wayland-9");
    assert_eq!(socket_path(u32::MAX, 10), "/var/run/user/4294967295/wayland-10");
}

#[test]
fn attempt_starts_with_the_environment_or_the_first_probe() {
    let named = ConnectPlan::start(true, 10);
    assert_eq!(named.stage(), ConnectStage::Opening { display: DisplaySource::Environment });
    assert_eq!(named.threshold(), 10);
    let probing = ConnectPlan::start(false, 10);
    assert_eq!(probing.stage(), ConnectStage::Probing { index: 1 });
    assert!(!named.is_complete());
    assert_eq!(named.failure(), None);
}

#[test]
fn every_stage_done_completes_the_attempt() {
    let mut plan = ConnectPlan::start(true, 10);
    plan.advance(true);
    assert_eq!(plan.stage(), ConnectStage::Binding);
    plan.advance(true);
    assert_eq!(plan.stage(), ConnectStage::Settling);
    plan.advance(true);
    assert_eq!(plan.stage(), ConnectStage::Subscribing { timeout_ms: 10_000 });
    assert!(!plan.is_complete());
    plan.advance(true);
    assert_eq!(plan.stage(), ConnectStage::Complete);
    assert!(plan.is_complete());
    assert_eq!(plan.failure(), None);
    assert_eq!(plan.threshold(), 10);
}

#[test]
fn a_failing_stage_ends_the_attempt() {
    assert_eq!(after(true, 10, &[false]).failure(), Some(ConnectFailure::OpenFailed));
    assert_eq!(after(true, 10, &[true, false]).failure(), Some(ConnectFailure::BindFailed));
    assert_eq!(after(true, 10, &[true, true, false]).failure(), Some(ConnectFailure::SettleFailed));
    assert_eq!(
        after(true, 10, &[true, true, true, false]).failure(),
        Some(ConnectFailure::SubscribeFailed)
    );
    for failing in 0..4 {
        let mut reports = [true; 4];
        reports[failing] = false;
        let plan = after(true, 10, &reports);
        assert!(!plan.is_complete());
        assert!(plan.stage().is_final());
    }
}

#[test]
fn a_failed_attempt_stays_failed() {
    let plan = after(true, 10, &[true, false, true, true, true, true, true]);
    assert_eq!(plan.stage(), ConnectStage::Failed(ConnectFailure::BindFailed));
    assert!(!plan.is_complete());
}

#[test]
fn a_complete_attempt_stays_complete() {
    let plan = after(true, 10, &[true, true, true, true, false, true]);
    assert_eq!(plan.stage(), ConnectStage::Complete);
}

#[test]
fn a_threshold_beyond_the_range_ends_the_attempt_before_subscribing() {
    let plan = after(true, 4294968, &[true, true, true]);
    assert_eq!(plan.failure(), Some(ConnectFailure::ThresholdOutOfRange));
    let edge = after(true, 4294967, &[true, true, true]);
    assert_eq!(edge.stage(), ConnectStage::Subscribing { timeout_ms: 4_294_967_000 });
}

#[test]
fn probe_takes_the_first_socket_that_exists() {
    assert_eq!(
        after(false, 10, &[true]).stage(),
        ConnectStage::Opening { display: DisplaySource::Probed(1) }
    );
    assert_eq!(
        after(false, 10, &[false, false, true]).stage(),
        ConnectStage::Opening { display: DisplaySource::Probed(3) }
    );
    let mut last = vec![false; 8];
    last.push(true);
    assert_eq!(
        after(false, 10, &last).stage(),
        ConnectStage::Opening { display: DisplaySource::Probed(9) }
    );
}

#[test]
fn probe_moves_from_index_to_index() {
    for missing in 0u8..9 {
        let reports = vec![false; missing as usize];
        assert_eq!(after(false, 10, &reports).stage(), ConnectStage::Probing { index: missing + 1 });
    }
}

#[test]
fn no_socket_at_any_index_is_no_display_found() {
    let plan = after(false, 10, &[false; 9]);
    assert_eq!(plan.stage(), ConnectStage::Failed(ConnectFailure::NoDisplayFound));
    assert_eq!(plan.failure(), Some(ConnectFailure::NoDisplayFound));
    assert!(!plan.is_complete());
    let later = after(false, 10, &[false, false, false, false, false, false, false, false, false, true]);
    assert_eq!(later.failure(), Some(ConnectFailure::NoDisplayFound));
}

#[test]
fn a_probed_display_goes_through_the_same_stages() {
    let plan = after(false, 60, &[false, true, true, true, true, true]);
    assert!(plan.is_complete());
    let failed = after(false, 60, &[false, true, true, false]);
    assert_eq!(failed.failure(), Some(ConnectFailure::BindFailed));
}

#[test]
fn next_is_what_advance_does() {
    let stage = ConnectStage::Settling;
    assert_eq!(stage.next(5, true), ConnectStage::Subscribing { timeout_ms: 5000 });
    assert_eq!(stage.next(5, false), ConnectStage::Failed(ConnectFailure::SettleFailed));
    assert!(!stage.is_final());
    assert!(ConnectStage::Complete.is_final());
    assert!(ConnectStage::Failed(ConnectFailure::OpenFailed).is_final());
    assert_eq!(ConnectStage::Probing { index: 9 }.next(5, false), ConnectStage::Failed(ConnectFailure::NoDisplayFound));
}
