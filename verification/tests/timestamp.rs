use ktime::timestamp::{Timestamp, EARLIEST_SECOND, LATEST_SECOND};

fn chrono_seconds(later: Timestamp, earlier: Timestamp) -> i64 {
    let a = chrono::DateTime::from_timestamp(later.secs, later.nanos).unwrap();
    let b = chrono::DateTime::from_timestamp(earlier.secs, earlier.nanos).unwrap();
    (a - b).num_seconds()
}

/// The elapsed seconds as the library states them, worked out by hand.
fn stated_seconds(later: Timestamp, earlier: Timestamp) -> i64 {
    let day = |t: Timestamp| t.secs.rem_euclid(86_400);
    let adjustment: i128 = if day(later) > day(earlier) && earlier.nanos >= 1_000_000_000 {
        1
    } else if day(later) < day(earlier) && later.nanos >= 1_000_000_000 {
        -1
    } else {
        0
    };
    let seconds = later.secs as i128 - earlier.secs as i128 + adjustment;
    let nanos = seconds * 1_000_000_000 + (later.nanos as i128 - earlier.nanos as i128);
    // Rust's integer division cuts toward zero
    (nanos / 1_000_000_000) as i64
}

#[test]
fn validity_is_what_chrono_accepts() {
    let probes: Vec<(i64, u32)> = vec![
        (0, 0),
        (0, 999_999_999),
        (0, 1_000_000_000),
        (59, 1_000_000_000),
        (59, 1_999_999_999),
        (59, 2_000_000_000),
        (-1, 1_500_000_000),
        (-2, 1_500_000_000),
        (-61, 1_000_000_000),
        (119, 1_000_000_001),
        (120, 1_000_000_001),
        (EARLIEST_SECOND, 0),
        (EARLIEST_SECOND - 1, 0),
        (EARLIEST_SECOND + 59, 1_000_000_000),
        (LATEST_SECOND, 0),
        (LATEST_SECOND, 1_999_999_999),
        (LATEST_SECOND + 1, 0),
        (i64::MIN, 0),
        (i64::MAX, 0),
        (1_700_000_000, u32::MAX),
    ];
    for (secs, nanos) in probes {
        let accepted = chrono::DateTime::from_timestamp(secs, nanos).is_some();
        assert_eq!(Timestamp { secs, nanos }.valid(), accepted, "{secs} {nanos}");
        assert_eq!(Timestamp::new(secs, nanos).is_some(), accepted, "{secs} {nanos}");
    }
    assert_eq!(Timestamp::new(5, 6), Some(Timestamp { secs: 5, nanos: 6 }));
    assert_eq!(Timestamp::new(5, 1_000_000_000), None);
}

#[test]
fn bounds_are_the_first_and_last_second_chrono_knows() {
    assert_eq!(chrono::DateTime::<chrono::Utc>::MIN_UTC.timestamp(), EARLIEST_SECOND);
    assert_eq!(chrono::DateTime::<chrono::Utc>::MAX_UTC.timestamp(), LATEST_SECOND);
}

#[test]
fn whole_seconds_subtract() {
    let a = Timestamp { secs: 1_700_000_012, nanos: 0 };
    let b = Timestamp { secs: 1_700_000_000, nanos: 0 };
    assert_eq!(a.seconds_since(&b), 12);
    assert_eq!(b.seconds_since(&a), -12);
    assert_eq!(a.seconds_since(&a), 0);
}

#[test]
fn fractions_are_dropped_toward_zero() {
    let a = Timestamp { secs: 10, nanos: 900_000_000 };
    let b = Timestamp { secs: 12, nanos: 100_000_000 };
    assert_eq!(b.seconds_since(&a), 1);
    assert_eq!(a.seconds_since(&b), -1);
    let c = Timestamp { secs: 12, nanos: 900_000_000 };
    assert_eq!(c.seconds_since(&a), 2);
    assert_eq!(a.seconds_since(&c), -2);
    let d = Timestamp { secs: 11, nanos: 0 };
    assert_eq!(d.seconds_since(&a), 0);
    assert_eq!(a.seconds_since(&d), 0);
}

#[test]
fn a_leap_second_between_clock_times_is_counted() {
    // 10:00:60.2 and 10:01:05 of the first day of 1970
    let leap = Timestamp { secs: 36_059, nanos: 1_200_000_000 };
    let after = Timestamp { secs: 36_065, nanos: 0 };
    assert_eq!(after.seconds_since(&leap), 5);
    assert_eq!(leap.seconds_since(&after), -5);
    // the same clock time one day later: the clock time is earlier in its day, nothing is added
    let next_day = Timestamp { secs: 36_000 + 86_400, nanos: 0 };
    assert_eq!(next_day.seconds_since(&leap), 86_339);
    assert_eq!(leap.seconds_since(&next_day), -86_339);
    // both within the leap second
    let leap_later = Timestamp { secs: 36_059, nanos: 1_900_000_000 };
    assert_eq!(leap_later.seconds_since(&leap), 0);
}

#[test]
fn extremes_do_not_overflow() {
    let first = Timestamp { secs: EARLIEST_SECOND, nanos: 0 };
    let last = Timestamp { secs: LATEST_SECOND, nanos: 1_999_999_999 };
    assert_eq!(last.seconds_since(&first), LATEST_SECOND - EARLIEST_SECOND + 1);
    assert_eq!(first.seconds_since(&last), -(LATEST_SECOND - EARLIEST_SECOND + 1));
}

#[test]
fn agrees_with_chrono_on_a_grid() {
    let secs = [
        EARLIEST_SECOND,
        EARLIEST_SECOND + 59,
        -86_401,
        -86_400,
        -61,
        -1,
        0,
        59,
        60,
        3_599,
        36_059,
        36_065,
        86_399,
        86_400,
        122_459,
        1_700_000_039,
        LATEST_SECOND,
    ];
    let nanos = [0u32, 1, 499_999_999, 999_999_999, 1_000_000_000, 1_999_999_999];
    let mut instants = Vec::new();
    for s in secs {
        for n in nanos {
            let t = Timestamp { secs: s, nanos: n };
            if t.valid() {
                instants.push(t);
            }
        }
    }
    assert!(instants.len() > 40);
    for a in &instants {
        for b in &instants {
            assert_eq!(a.seconds_since(b), chrono_seconds(*a, *b));
            assert_eq!(a.seconds_since(b), stated_seconds(*a, *b), "{a:?} {b:?}");
            assert_eq!(a.seconds_since(b), -b.seconds_since(a));
        }
    }
}

#[test]
fn checked_difference_refuses_what_is_no_instant() {
    let good = Timestamp { secs: 100, nanos: 0 };
    let bad = Timestamp { secs: 100, nanos: 1_000_000_000 };
    assert_eq!(good.checked_seconds_since(&Timestamp { secs: 40, nanos: 1 }), Some(59));
    assert_eq!(good.checked_seconds_since(&bad), None);
    assert_eq!(bad.checked_seconds_since(&good), None);
    assert_eq!(Timestamp { secs: i64::MAX, nanos: 0 }.checked_seconds_since(&good), None);
}
