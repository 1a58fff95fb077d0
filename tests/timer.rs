use ferret_engine::timer::{FrameTimer, NANOS_PER_SECOND};

#[test]
fn sixty_ticks_over_one_second_measure_sixty_fps() {
    let mut timer = FrameTimer::new();
    let interval: u64 = 16_666_667;
    let mut measured = Vec::new();
    for k in 1..=60u64 {
        measured.push(timer.tick_at(k * interval));
    }
    assert!(measured[..59].iter().all(|m| !m));
    assert!(measured[59]);
    assert_eq!(timer.frame_count(), 0);
    let (frames, window) = timer.fps_sample();
    assert_eq!(frames, 60);
    assert_eq!(window, 1_000_000_020);
    let fps = frames as f64 / (window as f64 / NANOS_PER_SECOND as f64);
    assert!((fps - 60.0).abs() < 0.01);
    assert_eq!(timer.dt_nanos(), interval);
}

#[test]
fn fps_is_zero_before_the_first_second() {
    let mut timer = FrameTimer::default();
    assert!(!timer.tick_at(500_000_000));
    assert_eq!(timer.fps_sample(), (0, 0));
    assert_eq!(timer.frame_count(), 1);
    assert_eq!(timer.dt_nanos(), 500_000_000);
}

#[test]
fn exactly_one_second_does_not_measure_yet() {
    let mut timer = FrameTimer::new();
    assert!(!timer.tick_at(NANOS_PER_SECOND));
    assert!(timer.tick_at(NANOS_PER_SECOND + 1));
    assert_eq!(timer.fps_sample(), (2, NANOS_PER_SECOND + 1));
}

#[test]
fn delta_is_zero_when_the_clock_goes_back() {
    let mut timer = FrameTimer::new();
    timer.tick_at(300);
    timer.tick_at(200);
    assert_eq!(timer.dt_nanos(), 0);
    assert_eq!(timer.frame_count(), 2);
}

#[test]
fn tick_reads_the_clock() {
    let mut timer = FrameTimer::new();
    assert!(!timer.tick());
    assert_eq!(timer.frame_count(), 1);
    assert!(timer.dt_nanos() < NANOS_PER_SECOND);
}

#[test]
fn irregular_ticks_are_measured_when_the_second_is_passed() {
    let mut timer = FrameTimer::new();
    assert!(!timer.tick_at(100_000_000));
    assert!(!timer.tick_at(50_000_000));
    assert!(!timer.tick_at(900_000_000));
    assert!(timer.tick_at(1_200_000_000));
    assert_eq!(timer.fps_sample(), (4, 1_200_000_000));
    assert_eq!(timer.frame_count(), 0);
    assert_eq!(timer.dt_nanos(), 300_000_000);
    assert!(!timer.tick_at(2_000_000_000));
    assert_eq!(timer.frame_count(), 1);
}
