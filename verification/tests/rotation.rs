use range_poll::clock::Timestamp;
use range_poll::rotation::{bucket_key, log_file_name, BucketWidth, RotationPolicy, RotationState};

fn at(hour: u32, minute: u32, second: u32) -> Timestamp {
    Timestamp::new(2024, 5, 17, hour, minute, second, 0).unwrap()
}

fn every(minutes: u32) -> RotationPolicy {
    RotationPolicy::MinuteBucket(BucketWidth::new(minutes).unwrap())
}

#[test]
fn timestamp_text_has_millisecond_precision() {
    let stamp = Timestamp::new(2024, 5, 17, 10, 1, 59, 7).unwrap();
    assert_eq!(stamp.text(), "2024-05-17 10:01:59.007");
    let stamp = Timestamp::new(1999, 12, 31, 23, 59, 59, 999).unwrap();
    assert_eq!(stamp.text(), "1999-12-31 23:59:59.999");
    let stamp = Timestamp::new(2000, 1, 1, 0, 0, 0, 0).unwrap();
    assert_eq!(stamp.text(), "2000-01-01 00:00:00.000");
}

#[test]
fn timestamp_text_pads_short_years() {
    assert_eq!(Timestamp::new(7, 1, 2, 3, 4, 5, 6).unwrap().text(), "0007-01-02 03:04:05.006");
    assert_eq!(Timestamp::new(0, 2, 29, 0, 0, 0, 10).unwrap().text(), "0000-02-29 00:00:00.010");
    assert_eq!(Timestamp::new(987, 10, 20, 1, 1, 1, 100).unwrap().text(), "0987-10-20 01:01:01.100");
    assert_eq!(
        Timestamp::new(9999, 12, 31, 23, 59, 59, 999).unwrap().text(),
        "9999-12-31 23:59:59.999"
    );
}

#[test]
fn timestamp_keeps_its_fields() {
    let stamp = Timestamp::new(2024, 5, 17, 10, 1, 59, 7).unwrap();
    assert_eq!(stamp.year(), 2024);
    assert_eq!(stamp.month(), 5);
    assert_eq!(stamp.day(), 17);
    assert_eq!(stamp.hour(), 10);
    assert_eq!(stamp.minute(), 1);
    assert_eq!(stamp.second(), 59);
    assert_eq!(stamp.millisecond(), 7);
}

#[test]
fn timestamp_refuses_fields_that_name_no_moment() {
    assert!(Timestamp::new(2024, 0, 1, 0, 0, 0, 0).is_none());
    assert!(Timestamp::new(2024, 13, 1, 0, 0, 0, 0).is_none());
    assert!(Timestamp::new(2024, 1, 0, 0, 0, 0, 0).is_none());
    assert!(Timestamp::new(2024, 1, 32, 0, 0, 0, 0).is_none());
    assert!(Timestamp::new(2024, 4, 31, 0, 0, 0, 0).is_none());
    assert!(Timestamp::new(2024, 1, 1, 24, 0, 0, 0).is_none());
    assert!(Timestamp::new(2024, 1, 1, 0, 60, 0, 0).is_none());
    assert!(Timestamp::new(2024, 1, 1, 0, 0, 60, 0).is_none());
    assert!(Timestamp::new(2024, 1, 1, 0, 0, 59, 1000).is_none());
    assert!(Timestamp::new(-1, 1, 1, 0, 0, 0, 0).is_none());
    assert!(Timestamp::new(10000, 1, 1, 0, 0, 0, 0).is_none());
    assert!(Timestamp::new(2024, u32::MAX, 1, 0, 0, 0, 0).is_none());
}

#[test]
fn timestamp_knows_leap_years() {
    assert!(Timestamp::new(2024, 2, 29, 0, 0, 0, 0).is_some());
    assert!(Timestamp::new(2023, 2, 29, 0, 0, 0, 0).is_none());
    assert!(Timestamp::new(2000, 2, 29, 0, 0, 0, 0).is_some());
    assert!(Timestamp::new(1900, 2, 29, 0, 0, 0, 0).is_none());
    assert!(Timestamp::new(2024, 2, 30, 0, 0, 0, 0).is_none());
    assert!(Timestamp::new(2023, 2, 28, 0, 0, 0, 0).is_some());
}

#[test]
fn timestamp_accepts_exactly_the_dates_of_the_calendar() {
    for year in (0..=9999).step_by(7).chain([1900, 2000, 2023, 2024, 2100, 9999]) {
        for month in 0..=13u32 {
            for day in 0..=32u32 {
                let ours = Timestamp::new(year, month, day, 12, 0, 0, 0);
                let theirs = chrono::NaiveDate::from_ymd_opt(year, month, day);
                assert_eq!(ours.is_some(), theirs.is_some(), "{}-{}-{}", year, month, day);
                if let (Some(ours), Some(theirs)) = (ours, theirs) {
                    let expected = theirs.and_hms_opt(12, 0, 0).unwrap();
                    assert_eq!(ours.text(), expected.format("%Y-%m-%d %H:%M:%S%.3f").to_string());
                }
            }
        }
    }
}

#[test]
fn timestamp_text_for_every_time_of_a_day() {
    for hour in 0..24u32 {
        for minute in 0..60u32 {
            let second = (hour * 7 + minute) % 60;
            let millisecond = (hour * 60 + minute) % 1000;
            let stamp = Timestamp::new(2024, 5, 17, hour, minute, second, millisecond).unwrap();
            let expected = format!(
                "2024-05-17 {:02}:{:02}:{:02}.{:03}",
                hour, minute, second, millisecond
            );
            assert_eq!(stamp.text(), expected);
        }
    }
}

#[test]
fn bucket_width_is_at_least_one_minute() {
    assert!(BucketWidth::new(0).is_none());
    assert_eq!(BucketWidth::new(1).unwrap().minutes(), 1);
    assert_eq!(BucketWidth::new(2).unwrap().minutes(), 2);
    assert_eq!(BucketWidth::new(u32::MAX).unwrap().minutes(), u32::MAX);
}

#[test]
fn rotation_two_minute_buckets_split_at_the_even_minute() {
    let policy = every(2);
    assert_eq!(bucket_key(&policy, &at(10, 1, 59)), "2024-05-17_10-00");
    assert_eq!(bucket_key(&policy, &at(10, 2, 0)), "2024-05-17_10-02");
    assert_ne!(bucket_key(&policy, &at(10, 1, 59)), bucket_key(&policy, &at(10, 2, 0)));
    assert_eq!(bucket_key(&policy, &at(10, 1, 0)), bucket_key(&policy, &at(10, 1, 59)));
    assert_eq!(log_file_name(&policy, &at(10, 1, 59)), "sensor_data_2024-05-17_10-00.json");
    assert_eq!(log_file_name(&policy, &at(10, 2, 0)), "sensor_data_2024-05-17_10-02.json");
}

#[test]
fn rotation_bucket_is_the_minute_rounded_down_to_the_width() {
    for width in [1u32, 2, 5, 7, 15, 30, 59, 60, 61, 1000, u32::MAX] {
        let policy = every(width);
        for minute in 0..60u32 {
            let expected = format!("2024-05-17_09-{:02}", (minute / width) * width);
            assert_eq!(bucket_key(&policy, &at(9, minute, 30)), expected);
            assert_eq!(
                log_file_name(&policy, &at(9, minute, 30)),
                format!("sensor_data_{}.json", expected)
            );
        }
    }
}

#[test]
fn rotation_buckets_restart_every_hour() {
    let policy = every(5);
    assert_eq!(bucket_key(&policy, &at(9, 59, 59)), "2024-05-17_09-55");
    assert_eq!(bucket_key(&policy, &at(10, 0, 0)), "2024-05-17_10-00");
    assert_eq!(bucket_key(&policy, &at(0, 0, 0)), "2024-05-17_00-00");
    assert_eq!(bucket_key(&policy, &at(23, 59, 59)), "2024-05-17_23-55");
}

#[test]
fn rotation_daily_key_is_the_date() {
    let policy = RotationPolicy::Daily;
    assert_eq!(bucket_key(&policy, &at(0, 0, 0)), "2024-05-17");
    assert_eq!(bucket_key(&policy, &at(23, 59, 59)), "2024-05-17");
    assert_eq!(log_file_name(&policy, &at(10, 1, 59)), "sensor_data_2024-05-17.json");
    let next_day = Timestamp::new(2024, 5, 18, 0, 0, 0, 0).unwrap();
    assert_eq!(log_file_name(&policy, &next_day), "sensor_data_2024-05-18.json");
    assert_ne!(bucket_key(&policy, &at(23, 59, 59)), bucket_key(&policy, &next_day));
}

#[test]
fn rotation_same_minute_on_another_day_is_another_bucket() {
    let policy = every(2);
    let other_day = Timestamp::new(2024, 5, 18, 10, 1, 59, 0).unwrap();
    assert_ne!(bucket_key(&policy, &at(10, 1, 59)), bucket_key(&policy, &other_day));
    assert_ne!(bucket_key(&policy, &at(10, 1, 59)), bucket_key(&policy, &at(11, 1, 59)));
}

#[test]
fn rotation_state_follows_the_clock() {
    let mut state = RotationState::start(every(2), at(10, 1, 0));
    assert_eq!(state.current_key(), "2024-05-17_10-00");
    assert_eq!(state.current_file_name(), "sensor_data_2024-05-17_10-00.json");
    assert_eq!(state.rotated_at(), at(10, 1, 0));
    assert_eq!(state.policy(), every(2));

    assert!(!state.advance(at(10, 1, 59)));
    assert_eq!(state.current_key(), "2024-05-17_10-00");
    assert_eq!(state.rotated_at(), at(10, 1, 0));

    assert!(state.advance(at(10, 2, 0)));
    assert_eq!(state.current_key(), "2024-05-17_10-02");
    assert_eq!(state.current_file_name(), "sensor_data_2024-05-17_10-02.json");
    assert_eq!(state.rotated_at(), at(10, 2, 0));

    assert!(!state.advance(at(10, 3, 59)));
    assert_eq!(state.rotated_at(), at(10, 2, 0));
}

#[test]
fn rotation_state_key_always_equals_a_fresh_computation() {
    let policy = every(7);
    let mut state = RotationState::start(policy, at(0, 0, 0));
    let mut rotations = 0;
    for hour in 0..24u32 {
        for minute in 0..60u32 {
            let now = at(hour, minute, 13);
            let before = state.current_key().to_string();
            let rotated = state.advance(now);
            assert_eq!(state.current_key(), bucket_key(&policy, &now));
            assert_eq!(state.current_key(), bucket_key(&policy, &state.rotated_at()));
            assert_eq!(rotated, before != state.current_key());
            if rotated {
                rotations += 1;
                assert_eq!(state.rotated_at(), now);
            }
        }
    }
    // nine buckets an hour (0, 7, .., 56), less the one the state started in
    assert_eq!(rotations, 24 * 9 - 1);
}

#[test]
fn rotation_state_daily_rotates_at_midnight_only() {
    let mut state = RotationState::start(RotationPolicy::Daily, at(23, 59, 59));
    assert!(!state.advance(at(0, 0, 0)));
    let next_day = Timestamp::new(2024, 5, 18, 0, 0, 0, 0).unwrap();
    assert!(state.advance(next_day));
    assert_eq!(state.current_file_name(), "sensor_data_2024-05-18.json");
}
