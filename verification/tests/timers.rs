use room_client::timers;

#[test]
fn elapsed_counts_from_the_start_and_never_runs_backwards() {
    let timer = timers::new();
    let first = timer.elapsed();
    assert!(first >= 0);
    let mut last = first;
    for _ in 0..1000 {
        let next = timer.elapsed();
        assert!(next >= last);
        last = next;
    }
}

#[test]
fn elapsed_grows_with_time() {
    let timer = timers::new();
    while timer.elapsed() < 5 {}
    assert!(timer.elapsed() >= 5);
}

#[test]
fn frame_time_counts_from_the_last_call() {
    let mut timer = timers::new();
    while timer.elapsed() < 20 {}
    let first = timer.frame_time();
    assert!(first >= 19);
    let second = timer.frame_time();
    assert!(second >= 0);
    // Had the first call not moved the mark, the second would count the
    // same stretch again and the two would outrun the timer.
    assert!(first + second <= timer.elapsed());
}

#[test]
fn frame_times_add_up_to_no_more_than_elapsed() {
    let mut timer = timers::new();
    let mut sum = 0;
    for _ in 0..5 {
        let target = timer.elapsed() + 3;
        while timer.elapsed() < target {}
        let dt = timer.frame_time();
        assert!(dt >= 0);
        sum += dt;
    }
    assert!(sum >= 10);
    assert!(sum <= timer.elapsed());
}

#[test]
fn milliseconds_between_readings_are_whole() {
    assert_eq!(timers::milliseconds_between(0, 0), 0);
    assert_eq!(timers::milliseconds_between(0, 999_999), 0);
    assert_eq!(timers::milliseconds_between(0, 1_000_000), 1);
    assert_eq!(timers::milliseconds_between(0, 1_999_999), 1);
    assert_eq!(timers::milliseconds_between(5_000_000, 7_999_999), 2);
    assert_eq!(timers::milliseconds_between(250, 16_670_250), 16);
    assert_eq!(timers::milliseconds_between(-1_500_000, 1_500_000), 3);
}

#[test]
fn milliseconds_between_readings_backwards() {
    assert_eq!(timers::milliseconds_between(999_999, 0), 0);
    assert_eq!(timers::milliseconds_between(1_000_000, 0), -1);
    assert_eq!(timers::milliseconds_between(10_000_000, 8_500_001), -1);
    assert_eq!(timers::milliseconds_between(10_000_000, 8_000_000), -2);
}

#[test]
fn milliseconds_between_the_farthest_readings() {
    assert_eq!(timers::milliseconds_between(i64::MIN, i64::MAX), 18_446_744_073_709);
    assert_eq!(timers::milliseconds_between(i64::MAX, i64::MIN), -18_446_744_073_709);
    assert_eq!(timers::milliseconds_between(0, i64::MAX), 9_223_372_036_854);
    assert_eq!(timers::milliseconds_between(0, i64::MIN), -9_223_372_036_854);
    assert_eq!(timers::milliseconds_between(i64::MIN, i64::MIN), 0);
}

#[test]
fn frame_time_at_a_reading_counts_from_the_reading_before() {
    let mut timer = timers::new();
    timer.frame_time_at(5_000_000);
    assert_eq!(timer.frame_time_at(7_999_999), 2);
    assert_eq!(timer.frame_time_at(7_999_999), 0);
    assert_eq!(timer.frame_time_at(24_670_000), 16);
    assert_eq!(timer.frame_time_at(23_000_000), -1);
    assert_eq!(timer.frame_time_at(i64::MAX), 9_223_372_036_831);
}

#[test]
fn frame_time_at_a_reading_leaves_the_start() {
    let mut timer = timers::new();
    while timer.elapsed() < 3 {}
    timer.frame_time_at(0);
    assert!(timer.elapsed() >= 3);
    let caught_up = timer.frame_time();
    assert!(caught_up >= 3);
    assert!(caught_up <= timer.elapsed());
}
