use radarflow::dma::pacing::{PaceStep, Pacer, MISMATCH_LIMIT, SECOND_AS_NANO};
use radarflow::radarflow::dma::{tick_remaining, RoundState, TICK_NANOS};

#[test]
fn pacer_target_is_a_second_over_the_rate() {
    assert_eq!(Pacer::new(60).target_nanos, 16_666_666);
    assert_eq!(Pacer::new(1).target_nanos, SECOND_AS_NANO);
    assert_eq!(Pacer::new(1000).target_nanos, 1_000_000);
}

#[test]
fn pacer_sleeps_the_rest_of_the_interval() {
    let mut p = Pacer::new(100);
    assert_eq!(p.pace(4_000_000), PaceStep { sleep_nanos: 6_000_000, warn: false });
    assert_eq!(p.pace(10_000_000), PaceStep { sleep_nanos: 0, warn: false });
    assert_eq!(p.mismatch_count, 0);
}

#[test]
fn pacer_counts_overruns() {
    let mut p = Pacer::new(100);
    assert_eq!(p.pace(10_000_001), PaceStep { sleep_nanos: 0, warn: false });
    assert_eq!(p.mismatch_count, 1);
    assert!(!p.warned);
}

#[test]
fn pacer_warns_once_after_the_limit() {
    let mut p = Pacer::new(1000);
    let mut warnings = 0;
    for _ in 0..MISMATCH_LIMIT {
        let step = p.pace(2_000_000);
        assert!(!step.warn);
    }
    assert_eq!(p.mismatch_count, MISMATCH_LIMIT);
    for _ in 0..10 {
        let step = p.pace(2_000_000);
        assert_eq!(step.sleep_nanos, 0);
        if step.warn {
            warnings += 1;
        }
    }
    assert_eq!(warnings, 1);
    assert!(p.warned);
    assert_eq!(p.mismatch_count, MISMATCH_LIMIT);
}

#[test]
fn pacer_sleep_and_poll_fill_the_interval() {
    let mut p = Pacer::new(60);
    for elapsed in [0u128, 1, 5_000_000, 16_666_666] {
        let step = p.pace(elapsed);
        assert_eq!(step.sleep_nanos as u128 + elapsed, 16_666_666);
    }
}

#[test]
fn tick_interval_is_a_128th_of_a_second() {
    assert_eq!(TICK_NANOS, 7_812_500);
    assert_eq!(tick_remaining(0), Some(7_812_500));
    assert_eq!(tick_remaining(2_812_500), Some(5_000_000));
    assert_eq!(tick_remaining(7_812_500), Some(0));
    assert_eq!(tick_remaining(7_812_501), None);
}

#[test]
fn round_state_starts_unseen() {
    let s = RoundState::new();
    assert_eq!(s, RoundState { last_tickcount: -1, last_round: -1, last_gamephase: -1, last_bomb_dropped: false });
}
