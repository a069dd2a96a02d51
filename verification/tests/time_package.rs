use gpu_shell::packages::time_package::clamp_nanos;
use gpu_shell::packages::time_package::TimePackage;
use gpu_shell::packages::time_package::MILLIHERTZ_PER_TICK;

#[test]
fn tracker_starts_without_samples() {
    let tracker = TimePackage::new(8);
    assert_eq!(tracker.fps(), 0);
    assert_eq!(tracker.elapsed(), 0);
    assert_eq!(tracker.capacity(), 8);
    assert_eq!(tracker.past_fps(), Vec::<u64>::new());
}

#[test]
fn rate_is_millihertz_of_the_frame_time() {
    let mut tracker = TimePackage::new(8);
    tracker.advance(1_000_000_000);
    assert_eq!(tracker.fps(), 1_000);
    tracker.advance(1_016_666_667);
    assert_eq!(tracker.fps(), 59_999);
    tracker.advance(1_016_666_667 + 16_000_000);
    assert_eq!(tracker.fps(), 62_500);
    assert_eq!(tracker.past_fps(), vec![1_000, 59_999, 62_500]);
    assert_eq!(tracker.elapsed(), 1_032_666_667);
}

#[test]
fn frame_without_elapsed_time_counts_as_one_nanosecond() {
    let mut tracker = TimePackage::new(2);
    tracker.advance(0);
    assert_eq!(tracker.fps(), MILLIHERTZ_PER_TICK);
    assert_eq!(tracker.fps(), 1_000_000_000_000);
    assert_eq!(tracker.elapsed(), 0);
}

#[test]
fn history_keeps_the_most_recent_samples_in_order() {
    let mut tracker = TimePackage::new(3);
    let mut now = 0u64;
    for frame in 1..=5u64 {
        now += frame * 1_000_000;
        tracker.advance(now);
    }
    assert_eq!(tracker.past_fps(), vec![333_333, 250_000, 200_000]);
    assert_eq!(tracker.fps(), 200_000);
    assert_eq!(tracker.elapsed(), 15_000_000);
}

#[test]
fn history_is_bounded_by_capacity() {
    let mut tracker = TimePackage::new(4);
    for frame in 1..=100u64 {
        tracker.advance(frame * 10);
        let expected = if frame < 4 { frame as usize } else { 4 };
        assert_eq!(tracker.past_fps().len(), expected);
    }
}

#[test]
fn history_of_capacity_zero_stays_empty() {
    let mut tracker = TimePackage::new(0);
    tracker.advance(5);
    tracker.advance(10);
    assert_eq!(tracker.past_fps(), Vec::<u64>::new());
    assert_eq!(tracker.fps(), 200_000_000_000);
    assert_eq!(tracker.elapsed(), 10);
}

#[test]
fn history_of_capacity_one_holds_the_latest_sample() {
    let mut tracker = TimePackage::new(1);
    tracker.advance(1_000);
    tracker.advance(3_000);
    assert_eq!(tracker.past_fps(), vec![500_000_000]);
}

#[test]
fn elapsed_time_never_runs_backwards() {
    let mut tracker = TimePackage::new(4);
    tracker.advance(5_000);
    tracker.advance(2_000);
    assert_eq!(tracker.elapsed(), 5_000);
    assert_eq!(tracker.fps(), MILLIHERTZ_PER_TICK);
    tracker.advance(6_000);
    assert_eq!(tracker.elapsed(), 6_000);
    assert_eq!(tracker.fps(), 1_000_000_000);
}

#[test]
fn largest_time_is_accepted() {
    let mut tracker = TimePackage::new(2);
    tracker.advance(u64::MAX);
    assert_eq!(tracker.elapsed(), u64::MAX);
    assert_eq!(tracker.fps(), 0);
    tracker.advance(u64::MAX);
    assert_eq!(tracker.fps(), MILLIHERTZ_PER_TICK);
}

#[test]
fn update_reads_a_clock_that_does_not_run_backwards() {
    let mut tracker = TimePackage::new(3);
    let mut last = 0u64;
    for frame in 1..=6usize {
        tracker.update();
        assert!(tracker.elapsed() >= last);
        last = tracker.elapsed();
        assert_eq!(tracker.past_fps().len(), frame.min(3));
        assert_eq!(*tracker.past_fps().last().unwrap(), tracker.fps());
    }
}

#[test]
fn now_does_not_run_backwards() {
    let tracker = TimePackage::new(1);
    let a = tracker.now();
    let b = tracker.now();
    assert!(b >= a);
}

#[test]
fn clock_readings_that_fit_are_kept() {
    assert_eq!(clamp_nanos(0), 0);
    assert_eq!(clamp_nanos(1), 1);
    assert_eq!(clamp_nanos(16_666_667), 16_666_667);
    assert_eq!(clamp_nanos(u64::MAX as u128), u64::MAX);
}

#[test]
fn clock_readings_that_do_not_fit_count_as_the_largest() {
    assert_eq!(clamp_nanos(u64::MAX as u128 + 1), u64::MAX);
    assert_eq!(clamp_nanos(u128::MAX), u64::MAX);
}

#[test]
fn tracker_without_clock_reads_the_time_of_its_last_frame() {
    let mut tracker = TimePackage::without_clock(3);
    assert_eq!(tracker.now(), 0);
    assert_eq!(tracker.capacity(), 3);
    assert_eq!(tracker.past_fps(), Vec::<u64>::new());
    tracker.advance(2_000_000);
    assert_eq!(tracker.now(), 2_000_000);
    assert_eq!(tracker.fps(), 500_000);
    tracker.update();
    assert_eq!(tracker.elapsed(), 2_000_000);
    assert_eq!(tracker.fps(), 1_000_000_000_000);
    assert_eq!(tracker.past_fps(), vec![500_000, 1_000_000_000_000]);
}
