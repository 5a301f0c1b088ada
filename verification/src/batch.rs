//! The batch applier: what to do with each file of a pass, and what came of it.
//!
//! The library decides and keeps count; the caller looks at the file system
//! and acts on it. For each path in turn the caller reports whether the file
//! exists, is told the action, performs it, and reports how that went.

use vstd::prelude::*;
use crate::config::{RunConfig, RunConfigView, TouchMode};
use crate::instant::FileStamp;

verus! {

/// What is to be done with one file.
#[derive(Clone, Copy, Debug, PartialEq, Eq, Structural)]
pub enum FileAction {
    /// Set the access time, and leave the modification time as it is.
    SetAccessTime(FileStamp),
    /// Set the modification time, and leave the access time as it is.
    SetModificationTime(FileStamp),
    /// Set the access time and the modification time in one update.
    SetBothTimes(FileStamp),
    /// Create an empty file at the path.
    CreateEmpty,
    /// Leave the file system alone: the file is missing and is not wanted.
    Skip,
}

/// The action for a file, given whether it exists.
pub open spec fn planned(
    exists: bool,
    create_missing: bool,
    mode: TouchMode,
    stamp: FileStamp,
) -> FileAction {
    if exists {
        match mode {
            TouchMode::AccessOnly => FileAction::SetAccessTime(stamp),
            TouchMode::ModificationOnly => FileAction::SetModificationTime(stamp),
            TouchMode::Both => FileAction::SetBothTimes(stamp),
        }
    } else if create_missing {
        FileAction::CreateEmpty
    } else {
        FileAction::Skip
    }
}

/// The access time and the modification time that an action sets, each
/// `None` where the action leaves that time as it is.
pub open spec fn stamps_set(action: FileAction) -> (Option<FileStamp>, Option<FileStamp>) {
    match action {
        FileAction::SetAccessTime(s) => (Some(s), None),
        FileAction::SetModificationTime(s) => (None, Some(s)),
        FileAction::SetBothTimes(s) => (Some(s), Some(s)),
        FileAction::CreateEmpty => (None, None),
        FileAction::Skip => (None, None),
    }
}

/// Whether an action changes anything in the file system.
pub open spec fn mutates(action: FileAction) -> bool {
    action != FileAction::Skip
}

/// Decides what to do with a file, given whether it exists.
pub fn plan_action(exists: bool, create_missing: bool, mode: TouchMode, stamp: FileStamp) -> (action:
    FileAction)
    ensures
        action == planned(exists, create_missing, mode, stamp),
{
    if exists {
        match mode {
            TouchMode::AccessOnly => FileAction::SetAccessTime(stamp),
            TouchMode::ModificationOnly => FileAction::SetModificationTime(stamp),
            TouchMode::Both => FileAction::SetBothTimes(stamp),
        }
    } else if create_missing {
        FileAction::CreateEmpty
    } else {
        FileAction::Skip
    }
}

/// What came of one file in one pass.
#[derive(Debug, PartialEq, Eq)]
pub enum FileOutcome {
    /// The file existed and its timestamps were set.
    Touched,
    /// The file was missing and was created.
    Created,
    /// The file was missing and was left so.
    IgnoredMissing,
    /// The action failed, for the reason given. Other files are not affected.
    Failed(String),
}

/// The mathematical content of a [`FileOutcome`].
pub enum OutcomeView {
    Touched,
    Created,
    IgnoredMissing,
    Failed(Seq<char>),
}

impl View for FileOutcome {
    type V = OutcomeView;

    open spec fn view(&self) -> OutcomeView {
        match self {
            FileOutcome::Touched => OutcomeView::Touched,
            FileOutcome::Created => OutcomeView::Created,
            FileOutcome::IgnoredMissing => OutcomeView::IgnoredMissing,
            FileOutcome::Failed(reason) => OutcomeView::Failed(reason@),
        }
    }
}

impl DeepView for FileOutcome {
    type V = OutcomeView;

    open spec fn deep_view(&self) -> OutcomeView {
        self@
    }
}

/// The reason that a report gives for a failure, `None` where it reports none.
pub open spec fn failure_of(report: Result<(), String>) -> Option<Seq<char>> {
    match report {
        Ok(_) => None,
        Err(reason) => Some(reason@),
    }
}

/// The outcome of an action, given the failure that performing it met, if any.
/// Nothing is performed for `Skip`, so no failure can change its outcome.
pub open spec fn settled(action: FileAction, failure: Option<Seq<char>>) -> OutcomeView {
    match action {
        FileAction::Skip => OutcomeView::IgnoredMissing,
        FileAction::CreateEmpty => match failure {
            None => OutcomeView::Created,
            Some(reason) => OutcomeView::Failed(reason),
        },
        _ => match failure {
            None => OutcomeView::Touched,
            Some(reason) => OutcomeView::Failed(reason),
        },
    }
}

/// Turns the report on an action into the file's outcome.
pub fn settle(action: FileAction, report: Result<(), String>) -> (outcome: FileOutcome)
    ensures
        outcome@ == settled(action, failure_of(report)),
{
    match action {
        FileAction::Skip => FileOutcome::IgnoredMissing,
        FileAction::CreateEmpty => match report {
            Ok(_) => FileOutcome::Created,
            Err(reason) => FileOutcome::Failed(reason),
        },
        _ => match report {
            Ok(_) => FileOutcome::Touched,
            Err(reason) => FileOutcome::Failed(reason),
        },
    }
}

/// The word by which a log line names an action.
pub open spec fn verb_of(action: FileAction) -> Seq<char> {
    match action {
        FileAction::Skip => "Ignored creating"@,
        FileAction::CreateEmpty => "Created"@,
        _ => "Touched"@,
    }
}

/// The word by which a log line names an action.
pub fn verb(action: FileAction) -> (word: &'static str)
    ensures
        word@ == verb_of(action),
{
    match action {
        FileAction::Skip => "Ignored creating",
        FileAction::CreateEmpty => "Created",
        _ => "Touched",
    }
}

/// The log line for one file: the time the pass began, the action's word and
/// the path.
pub open spec fn log_line_text(prefix: Seq<char>, action: FileAction, path: Seq<char>) -> Seq<
    char,
> {
    prefix + " - "@ + verb_of(action) + " "@ + path
}

/// Writes the log line for one file.
pub fn log_line(prefix: &str, action: FileAction, path: &str) -> (line: String)
    ensures
        line@ == log_line_text(prefix@, action, path@),
{
    let mut line = String::from_str(prefix);
    line.append(" - ");
    line.append(verb(action));
    line.append(" ");
    line.append(path);
    line
}

/// The mathematical content of a [`Pass`]: what it works on and the outcomes
/// that it has collected, the first path's first.
pub struct PassView {
    pub config: RunConfigView,
    pub stamp: FileStamp,
    pub prefix: Seq<char>,
    pub outcomes: Seq<OutcomeView>,
}

impl PassView {
    /// No more outcomes than paths.
    pub open spec fn wf(self) -> bool {
        self.outcomes.len() <= self.config.paths.len()
    }

    /// Whether every path has its outcome.
    pub open spec fn done(self) -> bool {
        self.outcomes.len() >= self.config.paths.len()
    }

    /// The path whose turn it is, where the pass is not done.
    pub open spec fn current_path(self) -> Seq<char> {
        self.config.paths[self.outcomes.len() as int]
    }

    /// The action for the file whose turn it is, given whether it exists.
    pub open spec fn plan(self, exists: bool) -> FileAction {
        planned(exists, self.config.create_missing, self.config.mode, self.stamp)
    }

    /// The pass after the report on `action`: the file whose turn it was has
    /// its outcome, and the turn passes on. A pass that is done stays as it is.
    pub open spec fn record(self, action: FileAction, failure: Option<Seq<char>>) -> PassView {
        if self.done() {
            self
        } else {
            PassView { outcomes: self.outcomes.push(settled(action, failure)), ..self }
        }
    }

    /// The log line that goes with recording `action`, where the run is
    /// verbose and the pass not done.
    pub open spec fn line(self, action: FileAction) -> Option<Seq<char>> {
        if !self.done() && self.config.verbose {
            Some(log_line_text(self.prefix, action, self.current_path()))
        } else {
            None
        }
    }
}

/// A pass that has just begun: no file has its outcome yet.
pub open spec fn pass_begun(config: RunConfigView, stamp: FileStamp, prefix: Seq<char>) -> PassView {
    PassView { config, stamp, prefix, outcomes: Seq::empty() }
}

/// One pass over the paths of a configuration, in their order.
pub struct Pass<'a> {
    config: &'a RunConfig,
    stamp: FileStamp,
    prefix: String,
    outcomes: Vec<FileOutcome>,
}

impl<'a> View for Pass<'a> {
    type V = PassView;

    closed spec fn view(&self) -> PassView {
        PassView {
            config: self.config@,
            stamp: self.stamp,
            prefix: self.prefix@,
            outcomes: self.outcomes.deep_view(),
        }
    }
}

impl<'a> Pass<'a> {
    /// No more outcomes than paths. It holds of every pass that the program
    /// holds.
    #[verifier::type_invariant]
    pub open spec fn wf(&self) -> bool {
        self@.wf()
    }

    /// Begins a pass that applies `stamp` and marks its log lines with
    /// `prefix`, the wall-clock time at which the pass begins.
    pub fn begin(config: &'a RunConfig, stamp: FileStamp, prefix: &str) -> (pass: Pass<'a>)
        ensures
            pass@ == pass_begun(config@, stamp, prefix@),
            pass@.wf(),
    {
        let pass = Pass { config, stamp, prefix: String::from_str(prefix), outcomes: Vec::new() };
        assert(pass.outcomes.deep_view() =~= Seq::<OutcomeView>::empty());
        pass
    }

    /// Whether every path has its outcome.
    pub fn is_done(&self) -> (done: bool)
        ensures
            done == self@.done(),
            self@.wf(),
    {
        proof {
            use_type_invariant(self);
        }
        self.outcomes.len() >= self.config.paths().len()
    }

    /// The path whose turn it is: the caller looks whether a file is there.
    pub fn current_path(&self) -> (path: Option<&String>)
        ensures
            path is Some <==> !self@.done(),
            path matches Some(p) ==> p@ == self@.current_path(),
    {
        let paths = self.config.paths();
        let at = self.outcomes.len();
        if at < paths.len() {
            Some(&paths[at])
        } else {
            None
        }
    }

    /// The action for the file whose turn it is, given whether it exists.
    pub fn plan(&self, exists: bool) -> (action: FileAction)
        ensures
            action == self@.plan(exists),
    {
        plan_action(exists, self.config.create_missing(), self.config.mode(), self.stamp)
    }

    /// Takes the report on `action` for the file whose turn it is. Hands back
    /// the pass as it then stands, and the line to log if the run is verbose.
    pub fn record(self, action: FileAction, report: Result<(), String>) -> (next: (
        Pass<'a>,
        Option<String>,
    ))
        ensures
            next.0@ == self@.record(action, failure_of(report)),
            next.0@.wf(),
            text_view_of(next.1) == self@.line(action),
    {
        proof {
            use_type_invariant(&self);
        }
        let paths = self.config.paths();
        let at = self.outcomes.len();
        if at >= paths.len() {
            return (self, None);
        }
        let line = if self.config.verbose() {
            Some(log_line(self.prefix.as_str(), action, paths[at].as_str()))
        } else {
            None
        };
        let ghost before = self.outcomes.deep_view();
        let Pass { config, stamp, prefix, outcomes } = self;
        let mut outcomes = outcomes;
        let outcome = settle(action, report);
        outcomes.push(outcome);
        assert(outcomes.deep_view() =~= before.push(outcome@));
        (Pass { config, stamp, prefix, outcomes }, line)
    }

    /// The outcomes collected so far, the first path's first.
    pub fn outcomes(&self) -> (outcomes: &Vec<FileOutcome>)
        ensures
            outcomes.deep_view() == self@.outcomes,
    {
        &self.outcomes
    }

    /// Ends the pass and hands over its outcomes.
    pub fn finish(self) -> (outcomes: Vec<FileOutcome>)
        ensures
            outcomes.deep_view() == self@.outcomes,
            self@.wf(),
    {
        proof {
            use_type_invariant(&self);
        }
        self.outcomes
    }
}

/// What the caller met at one file: whether it was there, and the failure
/// that performing the action ran into, if it ran into one.
pub struct Observation {
    pub exists: bool,
    pub failure: Option<Seq<char>>,
}

/// The outcome for a file of which the caller observed `seen`.
pub open spec fn outcome_for(config: RunConfigView, stamp: FileStamp, seen: Observation) -> OutcomeView {
    settled(planned(seen.exists, config.create_missing, config.mode, stamp), seen.failure)
}

/// The pass after the caller has gone through `seen` in order, performing
/// for each file the action that the pass planned for it.
pub open spec fn driven(pass: PassView, seen: Seq<Observation>) -> PassView
    decreases seen.len(),
{
    if seen.len() == 0 {
        pass
    } else {
        let before = driven(pass, seen.drop_last());
        before.record(before.plan(seen.last().exists), seen.last().failure)
    }
}

/// A pass that is driven through no more observations than it has paths
/// holds one outcome for each of them, in their order, and nothing else of
/// it has changed.
pub proof fn lemma_driven_outcomes(
    config: RunConfigView,
    stamp: FileStamp,
    prefix: Seq<char>,
    seen: Seq<Observation>,
)
    requires
        seen.len() <= config.paths.len(),
    ensures
        driven(pass_begun(config, stamp, prefix), seen).config == config,
        driven(pass_begun(config, stamp, prefix), seen).stamp == stamp,
        driven(pass_begun(config, stamp, prefix), seen).prefix == prefix,
        driven(pass_begun(config, stamp, prefix), seen).outcomes == Seq::new(
            seen.len(),
            |i: int| outcome_for(config, stamp, seen[i]),
        ),
    decreases seen.len(),
{
    let begun = pass_begun(config, stamp, prefix);
    if seen.len() == 0 {
        assert(driven(begun, seen).outcomes =~= Seq::new(
            seen.len(),
            |i: int| outcome_for(config, stamp, seen[i]),
        ));
    } else {
        let earlier = seen.drop_last();
        lemma_driven_outcomes(config, stamp, prefix, earlier);
        let before = driven(begun, earlier);
        assert(!before.done());
        assert(driven(begun, seen).outcomes =~= Seq::new(
            seen.len(),
            |i: int| outcome_for(config, stamp, seen[i]),
        ));
    }
}

/// A pass over all the paths ends with as many outcomes as there are paths,
/// the outcome at each place being that of the path at that place.
pub proof fn lemma_one_outcome_per_path(
    config: RunConfigView,
    stamp: FileStamp,
    prefix: Seq<char>,
    seen: Seq<Observation>,
)
    requires
        seen.len() == config.paths.len(),
    ensures
        driven(pass_begun(config, stamp, prefix), seen).done(),
        driven(pass_begun(config, stamp, prefix), seen).outcomes.len() == config.paths.len(),
        forall|i: int|
            0 <= i < config.paths.len() ==> #[trigger] driven(
                pass_begun(config, stamp, prefix),
                seen,
            ).outcomes[i] == outcome_for(config, stamp, seen[i]),
{
    lemma_driven_outcomes(config, stamp, prefix, seen);
}

/// A failure stays with its file: two passes that differ in what was met at
/// one file only differ in the outcome of that file only, and a failure met
/// while acting on a file is that file's outcome.
pub proof fn lemma_failure_stays_with_its_file(
    config: RunConfigView,
    stamp: FileStamp,
    prefix: Seq<char>,
    seen: Seq<Observation>,
    other: Seq<Observation>,
    at: int,
)
    requires
        seen.len() == config.paths.len(),
        other.len() == config.paths.len(),
        0 <= at < config.paths.len(),
        forall|i: int| 0 <= i < config.paths.len() && i != at ==> seen[i] == other[i],
    ensures
        forall|i: int|
            0 <= i < config.paths.len() && i != at ==> #[trigger] driven(
                pass_begun(config, stamp, prefix),
                seen,
            ).outcomes[i] == driven(pass_begun(config, stamp, prefix), other).outcomes[i],
        seen[at].failure matches Some(reason) ==> (mutates(
            planned(seen[at].exists, config.create_missing, config.mode, stamp),
        ) ==> driven(pass_begun(config, stamp, prefix), seen).outcomes[at] == OutcomeView::Failed(
            reason,
        )),
{
    lemma_driven_outcomes(config, stamp, prefix, seen);
    lemma_driven_outcomes(config, stamp, prefix, other);
}

/// A file that is missing and not wanted is left alone: the action is
/// `Skip`, which changes nothing in the file system and sets no time, and
/// the outcome is `IgnoredMissing` whatever the caller reports.
pub proof fn lemma_missing_unwanted_is_left_alone(
    mode: TouchMode,
    stamp: FileStamp,
    failure: Option<Seq<char>>,
)
    ensures
        planned(false, false, mode, stamp) == FileAction::Skip,
        !mutates(planned(false, false, mode, stamp)),
        stamps_set(planned(false, false, mode, stamp)) == (None::<FileStamp>, None::<FileStamp>),
        settled(planned(false, false, mode, stamp), failure) == OutcomeView::IgnoredMissing,
{
}

/// A file that is missing and wanted is created, and in no other case is a
/// file created: in a pass over all the paths, the action at each place is
/// `CreateEmpty` exactly where the file was missing and the run creates
/// missing files. Each place has one action, so no file is created twice.
pub proof fn lemma_missing_wanted_is_created_once(
    config: RunConfigView,
    stamp: FileStamp,
    seen: Seq<Observation>,
    at: int,
)
    requires
        seen.len() == config.paths.len(),
        0 <= at < config.paths.len(),
    ensures
        planned(seen[at].exists, config.create_missing, config.mode, stamp) == FileAction::CreateEmpty
            <==> (!seen[at].exists && config.create_missing),
        (!seen[at].exists && config.create_missing && seen[at].failure is None) ==> outcome_for(
            config,
            stamp,
            seen[at],
        ) == OutcomeView::Created,
{
}

/// The access time and the modification time of a file.
pub struct FileTimes {
    pub accessed: FileStamp,
    pub modified: FileStamp,
}

/// The times of a file after `action` has been performed on it without
/// failure, given its times before.
pub open spec fn times_after(action: FileAction, before: FileTimes) -> FileTimes {
    FileTimes {
        accessed: match stamps_set(action).0 {
            Some(stamp) => stamp,
            None => before.accessed,
        },
        modified: match stamps_set(action).1 {
            Some(stamp) => stamp,
            None => before.modified,
        },
    }
}

/// Touching is idempotent: performing an action a second time leaves the
/// times as the first time left them. In `Both` mode the action for a file
/// that exists depends on the stamp alone, and leaves both times at that
/// stamp whatever they were before.
pub proof fn lemma_touch_is_idempotent(
    action: FileAction,
    create_missing: bool,
    stamp: FileStamp,
    before: FileTimes,
    other: FileTimes,
)
    ensures
        times_after(action, times_after(action, before)) == times_after(action, before),
        planned(true, create_missing, TouchMode::Both, stamp) == FileAction::SetBothTimes(stamp),
        times_after(FileAction::SetBothTimes(stamp), before) == (FileTimes {
            accessed: stamp,
            modified: stamp,
        }),
        times_after(FileAction::SetBothTimes(stamp), before) == times_after(
            FileAction::SetBothTimes(stamp),
            other,
        ),
{
}

/// The view of an optional line.
pub open spec fn text_view_of(line: Option<String>) -> Option<Seq<char>> {
    match line {
        Some(l) => Some(l@),
        None => None,
    }
}

} // verus!
