use std::time::Instant;
use timetools::batch::{FileAction, FileOutcome};
use timetools::config::{empty_list_message, RunConfig};
use timetools::instant::{to_file_stamp, ResolvedInstant};
use timetools::resolve::{Resolution, WallClock};
use timetools::schedule::{sleep_note, Schedule, Scheduler, Step, TimeSource};

fn run_config(date: Option<&str>, interval: u64, log: bool) -> RunConfig {
    RunConfig::from_flags(
        false,
        false,
        date.map(|d| d.to_string()),
        false,
        interval,
        log,
        vec!["f".to_string()],
    )
}

fn at(secs: i64) -> ResolvedInstant {
    ResolvedInstant::new(secs, 0).unwrap()
}

fn pause_millis(millis: u128) {
    let begun = Instant::now();
    while begun.elapsed().as_millis() < millis {}
}

#[test]
fn no_interval_is_a_single_pass() {
    let scheduler = Scheduler::assemble(&run_config(None, 0, true), None, at(1));
    assert_eq!(scheduler.schedule(), Schedule::SinglePass);
    assert_eq!(scheduler.after_pass("2024-01-02 15:04:05"), Step::Stop);
}

#[test]
fn an_interval_repeats_without_end() {
    let scheduler = Scheduler::assemble(&run_config(None, 100, false), None, at(1));
    assert_eq!(scheduler.schedule(), Schedule::Repeating { interval_ms: 100 });
    for _ in 0..3 {
        assert_eq!(scheduler.after_pass("p"), Step::Sleep { millis: 100, note: None });
    }
}

#[test]
fn a_verbose_run_announces_its_sleep() {
    let scheduler = Scheduler::assemble(&run_config(None, 7_380_000, true), None, at(1));
    assert_eq!(
        scheduler.after_pass("2024-01-02 15:04:05"),
        Step::Sleep {
            millis: 7_380_000,
            note: Some("2024-01-02 15:04:05 - Sleep 2h 3m.".to_string()),
        }
    );
}

#[test]
fn the_interval_is_worded_by_its_size() {
    let worded = |millis: u64| match Scheduler::assemble(&run_config(None, millis, true), None, at(1))
        .after_pass("p")
    {
        Step::Sleep { millis: slept, note: Some(note) } => {
            assert_eq!(slept, millis);
            note
        }
        other => panic!("no note: {:?}", other),
    };
    assert_eq!(worded(1), "p - Sleep 1ms.");
    assert_eq!(worded(100), "p - Sleep 100ms.");
    assert_eq!(worded(1_000), "p - Sleep 1s.");
    assert_eq!(worded(90_061_001), "p - Sleep 1d 1h 1m 1s 1ms.");
    assert_eq!(worded(43_556_556_722), "p - Sleep 1y 16mon 248d 3h 2m 36s 722ms.");
}

#[test]
fn sleep_note_has_prefix_and_wording() {
    assert_eq!(sleep_note("2024-01-02 15:04:05", "2h 3m"), "2024-01-02 15:04:05 - Sleep 2h 3m.");
    assert_eq!(sleep_note("", ""), " - Sleep .");
}

#[test]
fn without_a_date_each_pass_applies_its_own_start() {
    let scheduler = Scheduler::assemble(&run_config(None, 100, false), None, at(1));
    assert_eq!(scheduler.source(), TimeSource::EachPass);
    assert_eq!(scheduler.target(at(10)), at(10));
    assert_eq!(scheduler.target(at(20)), at(20));
}

#[test]
fn with_a_date_every_pass_applies_the_date() {
    let date = at(1_704_207_845);
    for interval in [0u64, 100, 60_000] {
        let config = run_config(Some("2024-01-02 15:04:05"), interval, false);
        let scheduler = Scheduler::assemble(&config, Some(Resolution::Parsed(date)), at(1));
        assert_eq!(scheduler.source(), TimeSource::Fixed(date));
        assert_eq!(scheduler.target(at(10)), date);
        assert_eq!(scheduler.target(at(20)), date);
    }
}

#[test]
fn with_an_unreadable_date_every_pass_applies_the_startup_time() {
    let config = run_config(Some("not a date"), 100, false);
    let scheduler = Scheduler::assemble(&config, Some(Resolution::FallbackToNow), at(5));
    assert_eq!(scheduler.source(), TimeSource::Fixed(at(5)));
    assert_eq!(scheduler.target(at(10)), at(5));
    assert_eq!(scheduler.target(at(20)), at(5));
}

#[test]
fn start_resolves_a_date_once() {
    let scheduler = Scheduler::start(&run_config(Some("2017-11-25T22:34:50Z"), 100, true));
    assert_eq!(scheduler.schedule(), Schedule::Repeating { interval_ms: 100 });
    assert_eq!(scheduler.source(), TimeSource::Fixed(at(1_511_649_290)));
    assert_eq!(scheduler.target(WallClock::now().instant()), at(1_511_649_290));
}

#[test]
fn start_falls_back_to_the_time_of_starting() {
    let before = chrono::Utc::now().timestamp();
    let scheduler = Scheduler::start(&run_config(Some("not a date"), 0, false));
    let after = chrono::Utc::now().timestamp();
    match scheduler.source() {
        TimeSource::Fixed(instant) => {
            assert!(before <= instant.secs() && instant.secs() <= after)
        }
        TimeSource::EachPass => panic!("a date was given"),
    }
    assert_eq!(scheduler.schedule(), Schedule::SinglePass);
}

#[test]
fn start_without_a_date_follows_the_clock() {
    let scheduler = Scheduler::start(&run_config(None, 100, false));
    assert_eq!(scheduler.source(), TimeSource::EachPass);
    let mut targets = Vec::new();
    for _ in 0..3 {
        let target = scheduler.target(WallClock::now().instant());
        targets.push((target.secs(), target.nanos()));
        assert_eq!(scheduler.after_pass("p"), Step::Sleep { millis: 100, note: None });
        pause_millis(100);
    }
    assert!(targets[0] < targets[1] && targets[1] < targets[2]);
}

#[test]
fn nothing_is_launched_without_files() {
    let config = RunConfig::from_flags(false, false, None, false, 100, true, vec![]);
    assert_eq!(Scheduler::launch(&config), None);
    assert_eq!(empty_list_message(), "File list is empty.");
}

#[test]
fn a_run_with_files_is_launched() {
    let scheduler = Scheduler::launch(&run_config(Some("1511648546"), 0, false)).unwrap();
    assert_eq!(scheduler.schedule(), Schedule::SinglePass);
    assert_eq!(scheduler.source(), TimeSource::Fixed(at(1_511_648_546)));
}

#[test]
fn a_pass_applies_the_target_and_is_marked_with_its_start() {
    let date = at(1_704_207_845);
    let config = run_config(Some("2024-01-02 15:04:05"), 100, true);
    let scheduler = Scheduler::assemble(&config, Some(Resolution::Parsed(date)), at(1));
    let clock = WallClock::now();
    let pass = scheduler.begin_pass(&config, &clock);
    let action = pass.plan(true);
    assert_eq!(action, FileAction::SetBothTimes(to_file_stamp(date)));
    let (pass, line) = pass.record(action, Ok(()));
    assert_eq!(line, Some(format!("{} - Touched f", clock.label())));
    assert_eq!(pass.finish(), vec![FileOutcome::Touched]);
}

#[test]
fn a_pass_without_a_date_applies_its_start() {
    let config = run_config(None, 0, false);
    let scheduler = Scheduler::assemble(&config, None, at(1));
    let clock = WallClock::now();
    let pass = scheduler.begin_pass(&config, &clock);
    assert_eq!(pass.plan(true), FileAction::SetBothTimes(to_file_stamp(clock.instant())));
}
