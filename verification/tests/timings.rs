use timings::report::report_elapsed_outcome;
use timings::report::report_epoch_offset_outcome;
use timings::report::REPORT_WAIT_SECS;
use timings::time::Duration;
use timings::time::Instant;
use timings::time::TimeError;

#[test]
fn elapsed_returns_the_first_reading() {
    let start = Instant::new(1_000, 250);
    let now = Instant::new(1_002, 250);
    let (returned, _) = report_elapsed_outcome(&start, &now);
    assert_eq!(returned, start);
}

#[test]
fn elapsed_after_the_wait_prints_two() {
    let start = Instant::new(500, 0);
    let now = Instant::new(500 + REPORT_WAIT_SECS, 0);
    let (returned, outcome) = report_elapsed_outcome(&start, &now);
    assert_eq!(returned, start);
    let elapsed = outcome.expect("clock did not regress");
    assert_eq!(elapsed.as_secs(), 2);
    assert_eq!(elapsed, Duration::from_secs(2));
}

#[test]
fn elapsed_drops_the_subsecond_remainder() {
    let start = Instant::new(10, 900_000_000);
    let now = Instant::new(13, 100_000_000);
    let (_, outcome) = report_elapsed_outcome(&start, &now);
    assert_eq!(outcome, Ok(Duration::new(2, 200_000_000)));
    assert_eq!(outcome.unwrap().as_secs(), 2);
}

#[test]
fn elapsed_of_equal_readings_is_zero() {
    let start = Instant::new(42, 7);
    let (_, outcome) = report_elapsed_outcome(&start, &start);
    let elapsed = outcome.unwrap();
    assert!(elapsed.is_zero());
    assert_eq!(elapsed.as_secs(), 0);
}

#[test]
fn elapsed_reports_a_regressing_clock() {
    let start = Instant::new(100, 1);
    let now = Instant::new(100, 0);
    let (returned, outcome) = report_elapsed_outcome(&start, &now);
    assert_eq!(returned, start);
    assert_eq!(outcome, Err(TimeError::ClockComparisonFailure));
}

#[test]
fn epoch_offset_of_zero_is_the_epoch() {
    let (returned, offset) = report_epoch_offset_outcome(&Duration::from_secs(0));
    assert_eq!(returned, Instant::epoch());
    assert_eq!(offset, Ok(Instant::epoch()));
}

#[test]
fn epoch_offset_of_a_second_underflows() {
    let (returned, offset) = report_epoch_offset_outcome(&Duration::from_secs(1));
    assert_eq!(returned, Instant::epoch());
    assert_eq!(offset, Err(TimeError::TimeRangeUnderflow));
}

#[test]
fn epoch_offset_of_a_nanosecond_underflows() {
    let (_, offset) = report_epoch_offset_outcome(&Duration::new(0, 1));
    assert_eq!(offset, Err(TimeError::TimeRangeUnderflow));
}

#[test]
fn epoch_offset_returns_the_epoch_whatever_the_span() {
    let spans = vec![
        Duration::from_secs(0),
        Duration::new(0, 999_999_999),
        Duration::from_secs(1),
        Duration::new(u64::MAX, 999_999_999),
    ];
    for span in spans {
        let (returned, _) = report_epoch_offset_outcome(&span);
        assert_eq!(returned, Instant::epoch());
    }
}

#[test]
fn duration_since_is_exact() {
    let earlier = Instant::new(5, 500_000_000);
    let later = Instant::new(9, 750_000_000);
    assert_eq!(
        later.duration_since(&earlier),
        Ok(Duration::new(4, 250_000_000))
    );
    assert_eq!(
        earlier.duration_since(&later),
        Err(TimeError::ClockComparisonFailure)
    );
}

#[test]
fn checked_sub_is_exact() {
    let t = Instant::new(10, 0);
    assert_eq!(
        t.checked_sub(&Duration::new(3, 500_000_000)),
        Ok(Instant::new(6, 500_000_000))
    );
    assert_eq!(
        t.checked_sub(&Duration::new(10, 1)),
        Err(TimeError::TimeRangeUnderflow)
    );
    assert_eq!(t.checked_sub(&Duration::from_secs(10)), Ok(Instant::epoch()));
}

#[test]
fn duration_accessors() {
    let d = Duration::new(7, 123_456_789);
    assert_eq!(d.as_secs(), 7);
    assert!(!d.is_zero());
    assert!(Duration::from_secs(0).is_zero());
}
