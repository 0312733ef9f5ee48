use idlewatcher::fusion::{fuse, EpisodeTrigger};
use idlewatcher::session::SessionSample;

#[test]
fn fusion_truth_table() {
    let over = SessionSample::MinIdle(20);
    let under = SessionSample::MinIdle(5);
    assert!(!fuse(under, 10, false));
    assert!(!fuse(under, 10, true));
    assert!(!fuse(over, 10, false));
    assert!(fuse(over, 10, true));
}

#[test]
fn fusion_threshold_is_strict() {
    assert!(!fuse(SessionSample::MinIdle(10), 10, true));
    assert!(fuse(SessionSample::MinIdle(11), 10, true));
}

#[test]
fn fusion_with_an_unavailable_sample_follows_the_graphical_signal() {
    for threshold in [0u64, 10, 3600, u64::MAX] {
        assert!(fuse(SessionSample::Unavailable, threshold, true));
        assert!(!fuse(SessionSample::Unavailable, threshold, false));
    }
}

#[test]
fn trigger_starts_cleared() {
    assert!(!EpisodeTrigger::new().triggered());
}

#[test]
fn trigger_spawns_once_for_each_episode() {
    let mut trigger = EpisodeTrigger::new();
    let fires = [false, true, true, true, false, false, true, false, true, true];
    let expected = [false, true, false, false, false, false, true, false, true, false];
    for (fire, spawn) in fires.iter().zip(expected.iter()) {
        assert_eq!(trigger.observe(*fire), *spawn);
        assert_eq!(trigger.triggered(), *fire);
    }
}

#[test]
fn trigger_spawns_at_the_first_tick_when_due() {
    let mut trigger = EpisodeTrigger::new();
    assert!(trigger.observe(true));
    assert!(trigger.triggered());
    assert!(!trigger.observe(true));
}

#[test]
fn trigger_spawn_count_is_the_number_of_episodes() {
    let mut state: u32 = 12345;
    let mut trigger = EpisodeTrigger::new();
    let mut previous = false;
    let mut spawns = 0;
    let mut episodes = 0;
    for _ in 0..1000 {
        state = state.wrapping_mul(1664525).wrapping_add(1013904223);
        let fire = (state >> 16) % 3 != 0;
        if fire && !previous {
            episodes += 1;
        }
        if trigger.observe(fire) {
            spawns += 1;
            assert!(fire && !previous);
        }
        previous = fire;
    }
    assert_eq!(spawns, episodes);
}
