use idlewatcher::session::{
    idle_seconds, min_idle, qualifying_devices, sample, LoginRecord, SessionSample,
};

#[test]
fn idle_is_now_minus_last_access() {
    assert_eq!(idle_seconds(5000, 1400), 3600);
    assert_eq!(idle_seconds(100, 100), 0);
    assert_eq!(idle_seconds(100, 0), 100);
}

#[test]
fn idle_of_a_device_touched_after_now_is_zero() {
    assert_eq!(idle_seconds(100, 101), 0);
    assert_eq!(idle_seconds(0, i64::MAX), 0);
}

#[test]
fn idle_before_the_epoch_counts_both_sides() {
    assert_eq!(idle_seconds(100, -50), 150);
    assert_eq!(idle_seconds(0, -1), 1);
    assert_eq!(idle_seconds(7, i64::MIN), 7 + (1u64 << 63));
}

#[test]
fn idle_is_kept_within_the_range_of_a_duration() {
    assert_eq!(idle_seconds(u64::MAX, -1), u64::MAX);
    assert_eq!(idle_seconds(u64::MAX, i64::MIN), u64::MAX);
    assert_eq!(idle_seconds(u64::MAX, 0), u64::MAX);
    assert_eq!(idle_seconds(u64::MAX, 1), u64::MAX - 1);
}

#[test]
fn min_idle_takes_the_most_active_session() {
    let readings = vec![Some(100), Some(900), Some(500)];
    assert_eq!(min_idle(1000, &readings), SessionSample::MinIdle(100));
}

#[test]
fn min_idle_of_one_session() {
    assert_eq!(min_idle(4600, &vec![Some(1000)]), SessionSample::MinIdle(3600));
}

#[test]
fn min_idle_passes_over_unreadable_devices() {
    let readings = vec![None, Some(400), None, Some(700)];
    assert_eq!(min_idle(1000, &readings), SessionSample::MinIdle(300));
}

#[test]
fn min_idle_is_unavailable_without_a_readable_device() {
    assert_eq!(min_idle(1000, &vec![]), SessionSample::Unavailable);
    assert_eq!(min_idle(1000, &vec![None, None]), SessionSample::Unavailable);
}

#[test]
fn min_idle_does_not_depend_on_the_order() {
    let a = vec![Some(10), None, Some(990), Some(500)];
    let b = vec![Some(500), Some(990), Some(10), None];
    assert_eq!(min_idle(1000, &a), min_idle(1000, &b));
    assert_eq!(min_idle(1000, &a), SessionSample::MinIdle(10));
}

#[test]
fn sample_of_an_unreadable_table_is_unavailable() {
    assert_eq!(sample(1000, None), SessionSample::Unavailable);
}

#[test]
fn sample_of_a_readable_table_is_its_minimum() {
    let readings = vec![Some(980), Some(20)];
    assert_eq!(sample(1000, Some(&readings)), SessionSample::MinIdle(20));
    assert_eq!(sample(1000, Some(&vec![])), SessionSample::Unavailable);
}

#[test]
fn unavailable_exceeds_every_threshold() {
    assert!(SessionSample::Unavailable.exceeds(0));
    assert!(SessionSample::Unavailable.exceeds(3600));
    assert!(SessionSample::Unavailable.exceeds(u64::MAX));
}

#[test]
fn a_sample_exceeds_only_shorter_thresholds() {
    assert!(SessionSample::MinIdle(11).exceeds(10));
    assert!(!SessionSample::MinIdle(10).exceeds(10));
    assert!(!SessionSample::MinIdle(9).exceeds(10));
    assert!(!SessionSample::MinIdle(u64::MAX).exceeds(u64::MAX));
}

#[test]
fn device_path_of_a_user_process() {
    let record = LoginRecord::UserProcess { line: String::from("pts/3") };
    assert_eq!(record.device_path(), Some(String::from("/dev/pts/3")));
    let empty = LoginRecord::UserProcess { line: String::new() };
    assert_eq!(empty.device_path(), Some(String::from("/dev/")));
}

#[test]
fn other_records_have_no_device() {
    assert_eq!(LoginRecord::Other.device_path(), None);
}

#[test]
fn qualifying_devices_keeps_user_processes_in_order() {
    let records = vec![
        LoginRecord::Other,
        LoginRecord::UserProcess { line: String::from("tty1") },
        LoginRecord::Other,
        LoginRecord::UserProcess { line: String::from("pts/0") },
    ];
    assert_eq!(
        qualifying_devices(&records),
        vec![String::from("/dev/tty1"), String::from("/dev/pts/0")]
    );
    assert_eq!(qualifying_devices(&vec![]), Vec::<String>::new());
    assert_eq!(qualifying_devices(&vec![LoginRecord::Other]), Vec::<String>::new());
}
