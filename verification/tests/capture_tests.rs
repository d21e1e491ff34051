use native_sender::capture::{
    frame_interval_micros, probe_running, CaptureTuning, FramePacer, PacingAction,
};

#[test]
fn frame_interval_values() {
    assert_eq!(frame_interval_micros(60), 16_666);
    assert_eq!(frame_interval_micros(30), 33_333);
    assert_eq!(frame_interval_micros(1), 1_000_000);
    assert_eq!(frame_interval_micros(2_000_000), 0);
}

#[test]
fn pacer_starts_at_zero() {
    let p = FramePacer::new(CaptureTuning { target_fps: 60, probe_seconds: 5 });
    assert_eq!(p.interval_nanos, 16_666_000);
    assert_eq!(p.deadline_nanos, 5_000_000_000);
    assert_eq!(p.next_tick_nanos, 0);
    assert_eq!(p.frames, 0);
}

#[test]
fn pacer_runs_until_deadline() {
    let p = FramePacer::new(CaptureTuning { target_fps: 60, probe_seconds: 1 });
    assert!(p.keep_running(0));
    assert!(p.keep_running(999_999_999));
    assert!(!p.keep_running(1_000_000_000));
    let none = FramePacer::new(CaptureTuning { target_fps: 60, probe_seconds: 0 });
    assert!(!none.keep_running(0));
}

#[test]
fn pacer_sleeps_until_next_tick() {
    let mut p = FramePacer::new(CaptureTuning { target_fps: 100, probe_seconds: 1 });
    assert_eq!(p.tick(1_000), PacingAction::Sleep { nanos: 9_999_000 });
    assert_eq!(p.frames, 1);
    assert_eq!(p.next_tick_nanos, 10_000_000);
    assert_eq!(p.tick(10_000_000), PacingAction::Sleep { nanos: 10_000_000 });
    assert_eq!(p.frames, 2);
}

#[test]
fn pacer_resyncs_when_late() {
    let mut p = FramePacer::new(CaptureTuning { target_fps: 100, probe_seconds: 1 });
    assert_eq!(p.tick(25_000_000), PacingAction::Resync);
    assert_eq!(p.frames, 1);
    p.resync(25_000_100);
    assert_eq!(p.next_tick_nanos, 25_000_100);
    assert_eq!(p.frames, 1);
    assert_eq!(p.tick(25_000_200), PacingAction::Sleep { nanos: 9_999_900 });
}

#[test]
fn sleep_never_exceeds_interval_when_on_schedule() {
    let mut p = FramePacer::new(CaptureTuning { target_fps: 50, probe_seconds: 1 });
    let mut now: u128 = 0;
    for _ in 0..20 {
        match p.tick(now) {
            PacingAction::Sleep { nanos } => {
                assert!(nanos > 0 && nanos <= p.interval_nanos);
                now += nanos + 123;
            }
            PacingAction::Resync => p.resync(now),
        }
    }
    assert_eq!(p.frames, 20);
}

#[test]
fn probe_running_until_deadline() {
    assert!(probe_running(2, 0));
    assert!(probe_running(2, 1_999_999_999));
    assert!(!probe_running(2, 2_000_000_000));
    assert!(!probe_running(0, 0));
}

#[test]
fn frames_never_faster_than_interval() {
    // 10 fps for one second, a clock that always reads late.
    let mut p = FramePacer::new(CaptureTuning { target_fps: 10, probe_seconds: 1 });
    let mut now: u128 = 0;
    while p.keep_running(now) {
        match p.tick(now) {
            PacingAction::Sleep { nanos } => now += nanos + 1,
            PacingAction::Resync => p.resync(now),
        }
        assert!(u128::from(p.frames) * p.interval_nanos <= p.next_tick_nanos);
    }
    assert!(p.frames <= 10);
}
