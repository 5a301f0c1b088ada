use std::time::Duration;
use timetools::elapsed::{build_elapsed, elapsed_from_seconds, Elapsed};
use timetools::text::{decimal, join};

#[test]
fn build_elapsed_splits_a_day_and_more() {
    let elapsed = build_elapsed(Duration::new(93_784, 0));
    assert_eq!(elapsed, Elapsed { days: 1, hours: 2, minutes: 3, seconds: 4 });
}

#[test]
fn build_elapsed_drops_the_part_below_a_second() {
    let elapsed = build_elapsed(Duration::new(59, 999_999_999));
    assert_eq!(elapsed, Elapsed { days: 0, hours: 0, minutes: 0, seconds: 59 });
}

#[test]
fn elapsed_from_seconds_of_zero() {
    assert_eq!(elapsed_from_seconds(0), Elapsed { days: 0, hours: 0, minutes: 0, seconds: 0 });
}

#[test]
fn elapsed_from_seconds_at_the_edges_of_a_day() {
    assert_eq!(elapsed_from_seconds(86_399), Elapsed { days: 0, hours: 23, minutes: 59, seconds: 59 });
    assert_eq!(elapsed_from_seconds(86_400), Elapsed { days: 1, hours: 0, minutes: 0, seconds: 0 });
}

#[test]
fn elapsed_from_seconds_of_the_largest_number() {
    let elapsed = elapsed_from_seconds(u64::MAX);
    assert_eq!(elapsed.days, 213_503_982_334_601);
    assert_eq!(elapsed.hours, 7);
    assert_eq!(elapsed.minutes, 0);
    assert_eq!(elapsed.seconds, 15);
}

#[test]
fn elapsed_parts_add_up_to_the_total() {
    for total in [0u64, 1, 59, 60, 3_599, 3_600, 86_399, 86_400, 1_000_000, 93_784] {
        let e = elapsed_from_seconds(total);
        assert!(e.hours < 24 && e.minutes < 60 && e.seconds < 60);
        assert_eq!(e.days * 86_400 + e.hours * 3_600 + e.minutes * 60 + e.seconds, total);
    }
}

#[test]
fn pretty_words_every_part_that_is_not_zero() {
    let elapsed = Elapsed { days: 1, hours: 2, minutes: 3, seconds: 4 };
    assert_eq!(elapsed.pretty(), "up 1 day, 2 hours, 3 minutes, 4 seconds");
}

#[test]
fn pretty_uses_the_singular_for_one() {
    let elapsed = Elapsed { days: 2, hours: 1, minutes: 1, seconds: 1 };
    assert_eq!(elapsed.pretty(), "up 2 days, 1 hour, 1 minute, 1 second");
}

#[test]
fn pretty_leaves_out_zero_parts() {
    let elapsed = Elapsed { days: 0, hours: 5, minutes: 0, seconds: 30 };
    assert_eq!(elapsed.pretty(), "up 5 hours, 30 seconds");
}

#[test]
fn pretty_of_nothing_is_the_bare_word() {
    let elapsed = Elapsed { days: 0, hours: 0, minutes: 0, seconds: 0 };
    assert_eq!(elapsed.pretty(), "up ");
}

#[test]
fn plain_pads_the_time_of_day() {
    let elapsed = Elapsed { days: 0, hours: 2, minutes: 0, seconds: 5 };
    assert_eq!(elapsed.plain(), "up 02:00:05");
}

#[test]
fn plain_puts_the_days_first() {
    assert_eq!(Elapsed { days: 1, hours: 12, minutes: 34, seconds: 56 }.plain(), "up 1 day, 12:34:56");
    assert_eq!(Elapsed { days: 15, hours: 0, minutes: 0, seconds: 0 }.plain(), "up 15 days, 00:00:00");
}

#[test]
fn plain_does_not_cut_a_wide_part() {
    let elapsed = Elapsed { days: 0, hours: 123, minutes: 7, seconds: 100 };
    assert_eq!(elapsed.plain(), "up 123:07:100");
}

#[test]
fn decimal_writes_numbers() {
    assert_eq!(decimal(0), "0");
    assert_eq!(decimal(7), "7");
    assert_eq!(decimal(10), "10");
    assert_eq!(decimal(1_234_567_890), "1234567890");
    assert_eq!(decimal(u64::MAX), "18446744073709551615");
}

#[test]
fn join_puts_the_separator_between_items() {
    assert_eq!(join(&vec![], ", "), "");
    assert_eq!(join(&vec!["a".to_string()], ", "), "a");
    assert_eq!(join(&vec!["a".to_string(), "".to_string(), "c".to_string()], ", "), "a, , c");
}

#[test]
fn build_elapsed_accounts_for_every_whole_second() {
    for total in [0u64, 1, 59, 60, 86_399, 86_400, 93_784, u64::MAX] {
        let e = build_elapsed(Duration::new(total, 999_999_999));
        assert_eq!(e, elapsed_from_seconds(total));
        assert_eq!(
            e.days as u128 * 86_400 + e.hours as u128 * 3_600 + e.minutes as u128 * 60
                + e.seconds as u128,
            total as u128
        );
    }
}
