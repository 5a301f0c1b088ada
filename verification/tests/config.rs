use timetools::config::{RunConfig, TouchMode};
use timetools::instant::{to_file_stamp, FileStamp, ResolvedInstant};

fn config(access: bool, modification: bool, interval: u64) -> RunConfig {
    RunConfig::from_flags(access, modification, None, false, interval, false, vec!["a".to_string()])
}

#[test]
fn mode_is_both_without_flags() {
    assert_eq!(config(false, false, 0).mode(), TouchMode::Both);
}

#[test]
fn mode_follows_a_single_flag() {
    assert_eq!(config(true, false, 0).mode(), TouchMode::AccessOnly);
    assert_eq!(config(false, true, 0).mode(), TouchMode::ModificationOnly);
}

#[test]
fn access_only_wins_over_modification_only() {
    assert_eq!(config(true, true, 0).mode(), TouchMode::AccessOnly);
}

#[test]
fn interval_of_zero_is_no_interval() {
    assert_eq!(config(false, false, 0).interval_ms(), None);
    assert_eq!(config(false, false, 1).interval_ms(), Some(1));
    assert_eq!(config(false, false, u64::MAX).interval_ms(), Some(u64::MAX));
}

#[test]
fn flags_are_carried_over() {
    let files = vec!["one".to_string(), "two".to_string(), "one".to_string()];
    let made = RunConfig::from_flags(
        false,
        false,
        Some("2024-01-02 15:04:05".to_string()),
        true,
        250,
        true,
        files.clone(),
    );
    assert_eq!(made.paths(), &files);
    assert!(!made.is_empty());
    assert_eq!(made.explicit_time(), &Some("2024-01-02 15:04:05".to_string()));
    assert!(!made.create_missing());
    assert!(made.verbose());
    assert_eq!(made.interval_ms(), Some(250));
}

#[test]
fn no_files_is_an_empty_configuration() {
    let made = RunConfig::from_flags(false, false, None, false, 0, false, vec![]);
    assert!(made.is_empty());
    assert!(made.create_missing());
    assert!(!made.verbose());
    assert_eq!(made.explicit_time(), &None);
}

#[test]
fn instant_takes_parts_in_range_only() {
    let instant = ResolvedInstant::new(1_704_207_845, 123_456_789).unwrap();
    assert_eq!(instant.secs(), 1_704_207_845);
    assert_eq!(instant.nanos(), 123_456_789);
    assert!(ResolvedInstant::new(0, 1_999_999_999).is_some());
    assert!(ResolvedInstant::new(0, 2_000_000_000).is_none());
    assert!(ResolvedInstant::new((1i64 << 48) - 1, 0).is_some());
    assert!(ResolvedInstant::new(1i64 << 48, 0).is_none());
    assert!(ResolvedInstant::new(-(1i64 << 48) + 1, 0).is_some());
    assert!(ResolvedInstant::new(-(1i64 << 48), 0).is_none());
}

#[test]
fn file_stamp_takes_seconds_the_platform_can_shift() {
    assert!(FileStamp::new(i64::MAX - 11_644_473_600, 0).is_some());
    assert!(FileStamp::new(i64::MAX - 11_644_473_599, 0).is_none());
    assert!(FileStamp::new(i64::MIN, 4_000_000_000).is_some());
    let stamp = FileStamp::new(-5, 17).unwrap();
    assert_eq!(stamp.seconds(), -5);
    assert_eq!(stamp.nanoseconds(), 17);
}

#[test]
fn file_stamp_keeps_the_nanoseconds() {
    let instant = ResolvedInstant::new(1_704_207_845, 123_456_789).unwrap();
    let stamp = to_file_stamp(instant);
    assert_eq!(stamp.seconds(), 1_704_207_845);
    assert_eq!(stamp.nanoseconds(), 123_456_789);
    assert_eq!(Some(stamp), FileStamp::new(1_704_207_845, 123_456_789));
}

#[test]
fn file_stamp_of_an_instant_before_the_epoch() {
    let instant = ResolvedInstant::new(-86_400, 1_500_000_000).unwrap();
    let stamp = to_file_stamp(instant);
    assert_eq!(stamp.seconds(), -86_400);
    assert_eq!(stamp.nanoseconds(), 1_500_000_000);
}
