use pomodoro::clock::session_length;
use pomodoro::clock::Elapsed;
use pomodoro::clock::Remaining;
use pomodoro::clock::IDLE_MILLIS;
use pomodoro::clock::TICK_MILLIS;

#[test]
fn intervals_are_one_second_and_a_tenth() {
    assert_eq!(TICK_MILLIS, 1000);
    assert_eq!(IDLE_MILLIS, 100);
}

#[test]
fn elapsed_constructors_agree() {
    assert_eq!(Elapsed::zero().as_nanos(), 0);
    assert_eq!(Elapsed::from_nanos(17).as_nanos(), 17);
    assert_eq!(Elapsed::from_millis(1_500).as_nanos(), 1_500_000_000);
    assert_eq!(Elapsed::from_secs(3).as_nanos(), 3_000_000_000);
    assert_eq!(Elapsed::from_secs(2), Elapsed::from_millis(2_000));
    assert_eq!(Elapsed::from_secs(u64::MAX).as_nanos(), u64::MAX as u128 * 1_000_000_000);
    assert_eq!(Elapsed::from_millis(u64::MAX).as_nanos(), u64::MAX as u128 * 1_000_000);
}

#[test]
fn session_length_is_minutes_in_nanoseconds() {
    assert_eq!(session_length(1), 60_000_000_000);
    assert_eq!(session_length(25), 1_500_000_000_000);
    assert_eq!(session_length(0), 0);
    assert_eq!(session_length(u64::MAX), u64::MAX as u128 * 60_000_000_000);
}

#[test]
fn later_takes_the_greater_reading() {
    let a = Elapsed::from_secs(3);
    let b = Elapsed::from_secs(5);
    assert_eq!(a.later(b), b);
    assert_eq!(b.later(a), b);
    assert_eq!(a.later(a), a);
}

#[test]
fn reached_at_the_length_and_after() {
    assert!(!Elapsed::zero().reached(1));
    assert!(!Elapsed::from_secs(59).reached(1));
    assert!(!Elapsed::from_nanos(59_999_999_999).reached(1));
    assert!(Elapsed::from_secs(60).reached(1));
    assert!(Elapsed::from_nanos(60_000_000_001).reached(1));
    assert!(Elapsed::from_secs(61).reached(1));
}

#[test]
fn remaining_at_the_start_is_the_full_length() {
    let r = Remaining::of(25, Elapsed::zero());
    assert_eq!((r.minutes(), r.seconds()), (25, 0));
    let r = Remaining::of(1, Elapsed::zero());
    assert_eq!((r.minutes(), r.seconds()), (1, 0));
}

#[test]
fn remaining_rounds_down_to_whole_seconds() {
    let r = Remaining::of(1, Elapsed::from_nanos(1));
    assert_eq!((r.minutes(), r.seconds()), (0, 59));
    let r = Remaining::of(1, Elapsed::from_millis(1_000));
    assert_eq!((r.minutes(), r.seconds()), (0, 59));
    let r = Remaining::of(1, Elapsed::from_millis(1_001));
    assert_eq!((r.minutes(), r.seconds()), (0, 58));
    let r = Remaining::of(25, Elapsed::from_millis(61_250));
    assert_eq!((r.minutes(), r.seconds()), (23, 58));
    let r = Remaining::of(1, Elapsed::from_nanos(59_999_999_999));
    assert_eq!((r.minutes(), r.seconds()), (0, 0));
}

#[test]
fn remaining_is_zero_from_the_length_on() {
    let r = Remaining::of(1, Elapsed::from_secs(60));
    assert_eq!((r.minutes(), r.seconds()), (0, 0));
    let r = Remaining::of(1, Elapsed::from_secs(75));
    assert_eq!((r.minutes(), r.seconds()), (0, 0));
    let r = Remaining::of(5, Elapsed::from_secs(u64::MAX));
    assert_eq!((r.minutes(), r.seconds()), (0, 0));
}

#[test]
fn remaining_counts_down_second_by_second() {
    let minutes: u64 = 25;
    let mut t: u64 = 0;
    while t <= minutes * 60 {
        let r = Remaining::of(minutes, Elapsed::from_secs(t));
        assert_eq!(r.minutes() * 60 + r.seconds(), minutes * 60 - t);
        assert!(r.seconds() < 60);
        t += 1;
    }
}

#[test]
fn remaining_of_the_longest_session() {
    let r = Remaining::of(u64::MAX, Elapsed::zero());
    assert_eq!((r.minutes(), r.seconds()), (u64::MAX, 0));
    let r = Remaining::of(u64::MAX, Elapsed::from_secs(1));
    assert_eq!((r.minutes(), r.seconds()), (u64::MAX - 1, 59));
}
