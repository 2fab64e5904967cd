use tickwork::fixed::FRAC_SCALE;
use tickwork::timer::{CountdownTimer, TimerMode};

#[test]
fn fresh_timer_reports_zero_fraction() {
    let t = CountdownTimer::new(1000, TimerMode::Once);
    assert_eq!(t.fraction(), 0);
    assert_eq!(t.fraction_remaining(), FRAC_SCALE);
    assert!(!t.finished());
}

#[test]
fn fraction_reaches_exactly_one_on_completion() {
    let mut t = CountdownTimer::new(1000, TimerMode::Once);
    assert!(!t.tick(300));
    assert_eq!(t.fraction(), 300);
    assert!(!t.tick(300));
    assert_eq!(t.fraction(), 600);
    assert!(t.tick(500));
    assert_eq!(t.fraction(), FRAC_SCALE);
    assert!(t.finished());
}

#[test]
fn just_finished_fires_exactly_once_regardless_of_split() {
    let schedules: [&[u64]; 4] = [&[1000], &[500, 500], &[999, 1], &[1, 1, 1, 997, 400, 600]];
    for deltas in schedules {
        let mut t = CountdownTimer::new(1000, TimerMode::Once);
        let mut edges = 0;
        for &d in deltas {
            if t.tick(d) {
                edges += 1;
            }
        }
        assert_eq!(edges, 1);
        assert_eq!(t.fraction(), FRAC_SCALE);
    }
}

#[test]
fn no_premature_finish_below_duration() {
    let mut t = CountdownTimer::new(1000, TimerMode::Once);
    let mut edges = 0;
    for &d in &[100u64, 200, 300, 399] {
        if t.tick(d) {
            edges += 1;
        }
    }
    assert_eq!(edges, 0);
    assert_eq!(t.elapsed_ms(), 999);
    assert!(!t.finished());
}

#[test]
fn overshoot_clamps_elapsed_at_duration() {
    let mut t = CountdownTimer::new(100, TimerMode::Once);
    assert!(t.tick(100000));
    assert_eq!(t.elapsed_ms(), 100);
    assert_eq!(t.fraction(), FRAC_SCALE);
    assert!(!t.tick(50));
    assert_eq!(t.fraction(), FRAC_SCALE);
}

#[test]
fn zero_duration_timer_is_fully_elapsed_and_fires_once() {
    let mut t = CountdownTimer::new(0, TimerMode::Once);
    assert_eq!(t.fraction(), FRAC_SCALE);
    assert!(!t.finished());
    assert!(t.tick(0));
    assert!(!t.tick(5));
    assert_eq!(t.fraction(), FRAC_SCALE);
}

#[test]
fn repeating_timer_wraps_and_reports_each_wrap() {
    let mut t = CountdownTimer::new(500, TimerMode::Repeating);
    assert!(t.tick(1200));
    assert_eq!(t.elapsed_ms(), 200);
    assert!(!t.tick(100));
    assert_eq!(t.elapsed_ms(), 300);
    assert!(t.tick(200));
    assert_eq!(t.elapsed_ms(), 0);
}

#[test]
fn extreme_deltas_and_durations_stay_clamped() {
    let mut t = CountdownTimer::new(1000, TimerMode::Once);
    assert!(t.tick(u64::MAX));
    assert_eq!(t.elapsed_ms(), 1000);
    assert_eq!(t.fraction(), FRAC_SCALE);

    let mut long = CountdownTimer::new(u64::MAX, TimerMode::Once);
    assert!(!long.tick(u64::MAX - 1));
    assert_eq!(long.fraction(), FRAC_SCALE - 1);
    assert!(long.tick(1));
    assert_eq!(long.fraction(), FRAC_SCALE);
}

#[test]
fn reset_rewinds_to_fresh() {
    let mut t = CountdownTimer::new(400, TimerMode::Once);
    assert!(t.tick(400));
    t.reset();
    assert_eq!(t.elapsed_ms(), 0);
    assert!(!t.finished());
    assert_eq!(t.duration_ms(), 400);
    assert!(t.tick(400));
}
