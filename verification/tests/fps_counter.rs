use the_blockheads_tools_lib::fps_counter::FpsCounter;

#[test]
fn no_rate_before_the_second_frame() {
    let mut counter = FpsCounter::new(2_000_000_000);
    assert_eq!(counter.rate(), None);
    counter.update(5);
    assert_eq!(counter.rate(), None);
    counter.update(5);
    assert_eq!(counter.rate(), None);
    counter.update(15);
    assert_eq!(counter.rate(), Some((2, 10)));
}

#[test]
fn frames_leave_the_window() {
    let mut counter = FpsCounter::new(100);
    for now in [0u64, 10, 20, 30] {
        counter.update(now);
    }
    assert_eq!(counter.rate(), Some((3, 30)));
    counter.update(100);
    assert_eq!(counter.rate(), Some((4, 100)));
    counter.update(115);
    assert_eq!(counter.rate(), Some((3, 95)));
    counter.update(1000);
    assert_eq!(counter.rate(), None);
    counter.update(1050);
    assert_eq!(counter.rate(), Some((1, 50)));
}

#[test]
fn sixty_frames_a_second() {
    let mut counter = FpsCounter::new(2_000_000_000);
    let frame = 1_000_000_000 / 60;
    for i in 0..600u64 {
        counter.update(i * frame);
    }
    let (frames, span) = counter.rate().unwrap();
    assert_eq!(span, frames as u64 * frame);
    assert!(span <= 2_000_000_000);
    assert!(span + frame > 2_000_000_000);
    let fps = frames as f64 / (span as f64 / 1e9);
    assert!((fps - 60.0).abs() < 0.001);
}

#[test]
fn a_clock_that_steps_back_lets_nothing_go() {
    let mut counter = FpsCounter::new(10);
    counter.update(1000);
    counter.update(5);
    assert_eq!(counter.rate(), None);
    counter.update(1005);
    assert_eq!(counter.rate(), Some((2, 5)));
    counter.update(1011);
    assert_eq!(counter.rate(), Some((1, 6)));
}

#[test]
fn a_window_of_no_length_keeps_the_frames_of_this_instant() {
    let mut counter = FpsCounter::new(0);
    counter.update(7);
    counter.update(7);
    counter.update(8);
    assert_eq!(counter.rate(), None);
    counter.update(u64::MAX);
    assert_eq!(counter.rate(), None);
}
