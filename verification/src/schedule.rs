//! The repeat scheduler: one pass, or a pass at every interval without end.
//!
//! The caller runs the loop and does the sleeping. There is no way to stop a
//! repeating run from inside: it ends when the process is ended.

use vstd::prelude::*;
use crate::batch::{pass_begun, planned, stamps_set, Pass};
use crate::config::{RunConfig, TouchMode};
use crate::instant::{comes_before, stamp_of, to_file_stamp, ResolvedInstant};
use crate::outside::{pretty_interval, pretty_text};
use crate::resolve::{resolve_date, settle_instant, settled_instant, Resolution, WallClock};

verus! {

/// Whether a run makes one pass or repeats.
#[derive(Clone, Copy, Debug, PartialEq, Eq, Structural)]
pub enum Schedule {
    /// One pass, then the run ends.
    SinglePass,
    /// A pass, a sleep of the interval, and so on without end.
    Repeating { interval_ms: u64 },
}

/// The schedule that an optional interval asks for.
pub open spec fn schedule_of(interval_ms: Option<u64>) -> Schedule {
    match interval_ms {
        Some(ms) => Schedule::Repeating { interval_ms: ms },
        None => Schedule::SinglePass,
    }
}

/// Where the passes of a run take their target time from.
#[derive(Clone, Copy, Debug, PartialEq, Eq, Structural)]
pub enum TimeSource {
    /// A date was given: it was resolved once, and every pass applies that.
    Fixed(ResolvedInstant),
    /// No date was given: every pass applies the time at which it begins.
    EachPass,
}

/// The time source of a run: `explicit` is how the date was resolved, if one
/// was given, and `startup` the time at which that was done.
pub open spec fn source_of(explicit: Option<Resolution>, startup: ResolvedInstant) -> TimeSource {
    match explicit {
        Some(resolution) => TimeSource::Fixed(settled_instant(resolution, startup)),
        None => TimeSource::EachPass,
    }
}

/// The time that a pass applies, given the time at which it begins.
pub open spec fn target_of(source: TimeSource, pass_start: ResolvedInstant) -> ResolvedInstant {
    match source {
        TimeSource::Fixed(instant) => instant,
        TimeSource::EachPass => pass_start,
    }
}

/// What the caller does when a pass is over.
#[derive(Debug, PartialEq, Eq)]
pub enum Step {
    /// End the run.
    Stop,
    /// Log the note, if there is one, sleep for so many milliseconds, and
    /// begin the next pass.
    Sleep { millis: u64, note: Option<String> },
}

/// The mathematical content of a [`Step`].
pub enum StepView {
    Stop,
    Sleep { millis: u64, note: Option<Seq<char>> },
}

impl View for Step {
    type V = StepView;

    open spec fn view(&self) -> StepView {
        match self {
            Step::Stop => StepView::Stop,
            Step::Sleep { millis, note } => StepView::Sleep {
                millis: *millis,
                note: match note {
                    Some(n) => Some(n@),
                    None => None,
                },
            },
        }
    }
}

/// The note that announces a sleep: the time the pass began and the
/// interval in words.
pub open spec fn sleep_note_text(prefix: Seq<char>, wording: Seq<char>) -> Seq<char> {
    prefix + " - Sleep "@ + wording + "."@
}

/// Writes the note that announces a sleep.
pub fn sleep_note(prefix: &str, wording: &str) -> (note: String)
    ensures
        note@ == sleep_note_text(prefix@, wording@),
{
    let mut note = String::from_str(prefix);
    note.append(" - Sleep ");
    note.append(wording);
    note.append(".");
    note
}

/// The step after a pass that began at the time written as `prefix`.
pub open spec fn step_after(schedule: Schedule, verbose: bool, prefix: Seq<char>) -> StepView {
    match schedule {
        Schedule::SinglePass => StepView::Stop,
        Schedule::Repeating { interval_ms } => StepView::Sleep {
            millis: interval_ms,
            note: if verbose {
                Some(sleep_note_text(prefix, pretty_text(interval_ms)))
            } else {
                None
            },
        },
    }
}

/// The scheduler of one run.
#[derive(Clone, Copy, Debug, PartialEq, Eq, Structural)]
pub struct Scheduler {
    schedule: Schedule,
    source: TimeSource,
    verbose: bool,
}

impl Scheduler {
    /// A repeating schedule has a positive interval, and a fixed target is a
    /// valid instant. It holds of every scheduler that the program holds.
    #[verifier::type_invariant]
    pub open spec fn wf(self) -> bool {
        &&& self.spec_schedule() != Schedule::Repeating { interval_ms: 0 }
        &&& self.spec_source() matches TimeSource::Fixed(instant) ==> instant.wf()
    }

    /// Whether the run repeats, and at what interval.
    pub closed spec fn spec_schedule(self) -> Schedule {
        self.schedule
    }

    /// Where the passes take their target time from.
    pub closed spec fn spec_source(self) -> TimeSource {
        self.source
    }

    /// Whether the run reports what it does.
    pub closed spec fn spec_verbose(self) -> bool {
        self.verbose
    }

    /// The scheduler for `config`, where `explicit` is how its date was
    /// resolved, if it has one, and `startup` the time at which that was done.
    pub fn assemble(config: &RunConfig, explicit: Option<Resolution>, startup: ResolvedInstant) -> (scheduler:
        Scheduler)
        ensures
            scheduler.wf(),
            scheduler.spec_schedule() == schedule_of(config@.interval_ms),
            scheduler.spec_source() == source_of(explicit, startup),
            scheduler.spec_verbose() == config@.verbose,
    {
        let schedule = match config.interval_ms() {
            Some(ms) => Schedule::Repeating { interval_ms: ms },
            None => Schedule::SinglePass,
        };
        let source = match explicit {
            Some(resolution) => {
                proof {
                    use_type_invariant(&startup);
                    if let Resolution::Parsed(instant) = resolution {
                        use_type_invariant(&instant);
                    }
                }
                TimeSource::Fixed(settle_instant(resolution, startup))
            },
            None => TimeSource::EachPass,
        };
        Scheduler { schedule, source, verbose: config.verbose() }
    }

    /// The scheduler for `config`. A date, if there is one, is resolved here,
    /// once: read by the parser, or replaced by the current time where the
    /// parser cannot read it.
    pub fn start(config: &RunConfig) -> (scheduler: Scheduler)
        ensures
            scheduler.wf(),
            scheduler.spec_schedule() == schedule_of(config@.interval_ms),
            scheduler.spec_source() is Fixed <==> config@.explicit_time is Some,
            scheduler.spec_verbose() == config@.verbose,
    {
        let startup = WallClock::now().instant();
        let explicit = match config.explicit_time() {
            Some(text) => Some(resolve_date(text.as_str())),
            None => None,
        };
        Scheduler::assemble(config, explicit, startup)
    }

    /// The scheduler for `config` if it names a file at all. With no file
    /// there is nothing to do and nothing to schedule: the caller says so,
    /// once, and ends.
    pub fn launch(config: &RunConfig) -> (scheduler: Option<Scheduler>)
        ensures
            scheduler is Some <==> config@.paths.len() > 0,
            scheduler matches Some(s) ==> {
                &&& s.wf()
                &&& s.spec_schedule() == schedule_of(config@.interval_ms)
                &&& (s.spec_source() is Fixed <==> config@.explicit_time is Some)
                &&& s.spec_verbose() == config@.verbose
            },
    {
        if config.is_empty() {
            None
        } else {
            Some(Scheduler::start(config))
        }
    }

    /// Begins a pass at the time of `clock`: the pass applies the stamp of
    /// its target time, and marks its log lines with the time at which it
    /// begins, which is not the time that it applies.
    pub fn begin_pass<'a>(self, config: &'a RunConfig, clock: &WallClock) -> (pass: Pass<'a>)
        ensures
            pass@ == pass_begun(
                config@,
                stamp_of(target_of(self.spec_source(), clock.spec_instant())),
                clock.spec_label(),
            ),
            pass@.wf(),
    {
        Pass::begin(config, to_file_stamp(self.target(clock.instant())), clock.label())
    }

    /// Whether the run repeats, and at what interval.
    pub fn schedule(self) -> (schedule: Schedule)
        ensures
            schedule == self.spec_schedule(),
            self.wf(),
    {
        proof {
            use_type_invariant(&self);
        }
        self.schedule
    }

    /// Where the passes take their target time from.
    pub fn source(self) -> (source: TimeSource)
        ensures
            source == self.spec_source(),
            self.wf(),
    {
        proof {
            use_type_invariant(&self);
        }
        self.source
    }

    /// The time that a pass applies, given the time at which it begins.
    pub fn target(self, pass_start: ResolvedInstant) -> (target: ResolvedInstant)
        ensures
            target == target_of(self.spec_source(), pass_start),
    {
        match self.source {
            TimeSource::Fixed(instant) => instant,
            TimeSource::EachPass => pass_start,
        }
    }

    /// The step after a pass that began at the time written as `prefix`.
    pub fn after_pass(self, prefix: &str) -> (step: Step)
        ensures
            step@ == step_after(self.spec_schedule(), self.spec_verbose(), prefix@),
    {
        match self.schedule {
            Schedule::SinglePass => Step::Stop,
            Schedule::Repeating { interval_ms } => {
                let note = if self.verbose {
                    let wording = pretty_interval(interval_ms);
                    Some(sleep_note(prefix, wording.as_str()))
                } else {
                    None
                };
                Step::Sleep { millis: interval_ms, note }
            },
        }
    }
}

/// With a date given, every pass applies the same instant: the one that the
/// date was resolved to, whenever the pass begins and whatever the schedule.
pub proof fn lemma_fixed_target_on_every_pass(
    resolution: Resolution,
    startup: ResolvedInstant,
    first_pass: ResolvedInstant,
    later_pass: ResolvedInstant,
)
    ensures
        target_of(source_of(Some(resolution), startup), first_pass) == target_of(
            source_of(Some(resolution), startup),
            later_pass,
        ),
        target_of(source_of(Some(resolution), startup), first_pass) == settled_instant(
            resolution,
            startup,
        ),
        resolution matches Resolution::Parsed(instant) ==> target_of(
            source_of(Some(resolution), startup),
            first_pass,
        ) == instant,
{
}

/// With a date that the parser read, a file that exists has its modification
/// time set to that instant, to the nanosecond, in every pass and at every
/// interval, unless the run sets access times only.
pub proof fn lemma_explicit_date_is_applied(
    date: ResolvedInstant,
    startup: ResolvedInstant,
    pass_start: ResolvedInstant,
    create_missing: bool,
    mode: TouchMode,
)
    requires
        date.wf(),
        mode != TouchMode::AccessOnly,
    ensures
        stamps_set(
            planned(
                true,
                create_missing,
                mode,
                stamp_of(target_of(source_of(Some(Resolution::Parsed(date)), startup), pass_start)),
            ),
        ).1 == Some(stamp_of(date)),
        stamp_of(date).spec_seconds() == date.spec_secs(),
        stamp_of(date).spec_nanoseconds() == date.spec_nanos(),
{
    crate::instant::lemma_stamp_keeps_parts(date);
}

/// Without a date, every pass applies the time at which it begins.
pub proof fn lemma_each_pass_follows_the_clock(startup: ResolvedInstant, pass_start: ResolvedInstant)
    ensures
        target_of(source_of(None, startup), pass_start) == pass_start,
{
}

/// Without a date the targets of three passes in a row come in the order of
/// the clock's readings at which the passes begin: where each reading comes
/// before the next, so does each target. That the readings do come in order
/// is the clock's part and the sleep's, and is not shown here.
pub proof fn lemma_targets_keep_the_clocks_order(
    startup: ResolvedInstant,
    first: ResolvedInstant,
    second: ResolvedInstant,
    third: ResolvedInstant,
)
    requires
        comes_before(first, second),
        comes_before(second, third),
    ensures
        comes_before(
            target_of(source_of(None, startup), first),
            target_of(source_of(None, startup), second),
        ),
        comes_before(
            target_of(source_of(None, startup), second),
            target_of(source_of(None, startup), third),
        ),
        comes_before(
            target_of(source_of(None, startup), first),
            target_of(source_of(None, startup), third),
        ),
{
}

/// A date that cannot be read is no error: the time at which it was tried
/// stands in for it, on every pass.
pub proof fn lemma_unreadable_date_is_now(startup: ResolvedInstant, pass_start: ResolvedInstant)
    ensures
        settled_instant(Resolution::FallbackToNow, startup) == startup,
        target_of(source_of(Some(Resolution::FallbackToNow), startup), pass_start) == startup,
{
}

/// A run without an interval stops after its pass, and a run with one never
/// stops of itself: after every pass it sleeps for the interval.
pub proof fn lemma_only_a_single_pass_stops(
    interval_ms: Option<u64>,
    verbose: bool,
    prefix: Seq<char>,
)
    requires
        interval_ms != Some(0u64),
    ensures
        interval_ms is None <==> step_after(schedule_of(interval_ms), verbose, prefix)
            == StepView::Stop,
        interval_ms matches Some(ms) ==> (step_after(schedule_of(interval_ms), verbose, prefix)
            matches StepView::Sleep { millis, note } && millis == ms && millis > 0 && (note is Some
            <==> verbose)),
{
}

} // verus!
