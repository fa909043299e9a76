use blockfall::components::{GravityTimer, RandomStream, RotationCenter, SpawnTimer};
use blockfall::timing::TimingSystem;

#[test]
fn spawn_timer_counts_only_while_active() {
    let mut t = SpawnTimer { time_since_clear: 0, spawn_threshold: 1000, active: false };
    t.add_time(400);
    assert_eq!(t.time_since_clear, 0);
    t.activate();
    t.add_time(400);
    assert_eq!(t.time_since_clear, 400);
    assert!(!t.should_spawn());
    t.add_time(601);
    assert!(t.should_spawn());
}

#[test]
fn spawn_timer_threshold_is_strict() {
    let t = SpawnTimer { time_since_clear: 1000, spawn_threshold: 1000, active: true };
    assert!(!t.should_spawn());
    let t = SpawnTimer { time_since_clear: 1001, spawn_threshold: 1000, active: true };
    assert!(t.should_spawn());
}

#[test]
fn inactive_spawn_timer_never_fires() {
    let t = SpawnTimer { time_since_clear: 5000, spawn_threshold: 1000, active: false };
    assert!(!t.should_spawn());
}

#[test]
fn spawn_timer_reset_clears_and_disarms() {
    let mut t = SpawnTimer { time_since_clear: 5000, spawn_threshold: 1000, active: true };
    t.reset();
    assert_eq!(t.time_since_clear, 0);
    assert!(!t.active);
    assert_eq!(t.spawn_threshold, 1000);
}

#[test]
fn spawn_timer_default_fires_at_once() {
    let t = SpawnTimer::default();
    assert!(t.should_spawn());
    assert_eq!(t.time_since_clear, 2000);
    assert_eq!(t.spawn_threshold, 1000);
}

#[test]
fn gravity_timer_accumulates_and_fires() {
    let mut t = GravityTimer::default();
    assert_eq!(t.threshold, 500);
    t.add_time(500);
    assert!(!t.should_apply_gravity());
    t.add_time(1);
    assert!(t.should_apply_gravity());
    t.reset();
    assert_eq!(t.timer, 0);
    assert!(!t.should_apply_gravity());
}

#[test]
fn gravity_timer_set_threshold() {
    let mut t = GravityTimer::default();
    t.set_threshold(100);
    assert_eq!(t.threshold, 100);
    t.add_time(101);
    assert!(t.should_apply_gravity());
}

#[test]
fn timers_saturate_at_the_top() {
    let mut g = GravityTimer { timer: u64::MAX - 5, threshold: 500 };
    g.add_time(10);
    assert_eq!(g.timer, u64::MAX);
    let mut s = SpawnTimer { time_since_clear: u64::MAX - 5, spawn_threshold: 1000, active: true };
    s.add_time(10);
    assert_eq!(s.time_since_clear, u64::MAX);
}

#[test]
fn timing_system_feeds_both_clocks() {
    let mut g = GravityTimer::default();
    let mut s = SpawnTimer { time_since_clear: 0, spawn_threshold: 1000, active: true };
    TimingSystem.run(&mut g, &mut s, 16);
    assert_eq!(g.timer, 16);
    assert_eq!(s.time_since_clear, 16);
    s.reset();
    TimingSystem.run(&mut g, &mut s, 16);
    assert_eq!(g.timer, 32);
    assert_eq!(s.time_since_clear, 0);
}

#[test]
fn rotation_center_default_is_origin() {
    let rc = RotationCenter::default();
    assert_eq!((rc.x, rc.y), (0, 0));
}

#[test]
fn random_stream_default_queue_is_well_formed() {
    let s = RandomStream::default();
    assert_eq!(s.next_nums.len(), 4);
    for &n in &s.next_nums {
        assert!(n < 7);
    }
    for w in s.next_nums.windows(2) {
        assert_ne!(w[0], w[1]);
    }
}
