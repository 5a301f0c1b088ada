//! What one invocation was asked to do.

use vstd::prelude::*;

verus! {

/// Which of a file's two timestamps a run sets.
#[derive(Clone, Copy, Debug, PartialEq, Eq, Structural)]
pub enum TouchMode {
    /// Only the access time.
    AccessOnly,
    /// Only the modification time.
    ModificationOnly,
    /// Both, together.
    Both,
}

/// The mode that two flags ask for. They do not exclude each other: where
/// both are set, access-only wins.
pub open spec fn mode_of_flags(access_only: bool, modification_only: bool) -> TouchMode {
    if access_only {
        TouchMode::AccessOnly
    } else if modification_only {
        TouchMode::ModificationOnly
    } else {
        TouchMode::Both
    }
}

/// The interval that a number of milliseconds asks for: zero asks for none.
pub open spec fn interval_of_millis(millis: u64) -> Option<u64> {
    if millis > 0 {
        Some(millis)
    } else {
        None
    }
}

/// The mathematical content of a [`RunConfig`].
pub struct RunConfigView {
    pub paths: Seq<Seq<char>>,
    pub mode: TouchMode,
    pub explicit_time: Option<Seq<char>>,
    pub create_missing: bool,
    pub interval_ms: Option<u64>,
    pub verbose: bool,
}

impl RunConfigView {
    /// An interval, where there is one, is positive.
    pub open spec fn wf(self) -> bool {
        self.interval_ms != Some(0u64)
    }
}

/// The view of an optional string.
pub open spec fn text_view(text: Option<String>) -> Option<Seq<char>> {
    match text {
        Some(t) => Some(t@),
        None => None,
    }
}

/// The configuration of one invocation. It is made once and never changed.
#[derive(Debug, PartialEq, Eq)]
pub struct RunConfig {
    paths: Vec<String>,
    mode: TouchMode,
    explicit_time: Option<String>,
    create_missing: bool,
    interval_ms: Option<u64>,
    verbose: bool,
}

impl View for RunConfig {
    type V = RunConfigView;

    closed spec fn view(&self) -> RunConfigView {
        RunConfigView {
            paths: self.paths.deep_view(),
            mode: self.mode,
            explicit_time: text_view(self.explicit_time),
            create_missing: self.create_missing,
            interval_ms: self.interval_ms,
            verbose: self.verbose,
        }
    }
}

impl RunConfig {
    /// An interval, where there is one, is positive. It holds of every
    /// configuration that the program holds.
    #[verifier::type_invariant]
    pub open spec fn wf(&self) -> bool {
        self@.wf()
    }

    /// The configuration that the command line's flags and operands ask for.
    pub fn from_flags(
        access_time_only: bool,
        modification_time_only: bool,
        date: Option<String>,
        no_create: bool,
        interval: u64,
        log: bool,
        files: Vec<String>,
    ) -> (config: RunConfig)
        ensures
            config@.wf(),
            config@.paths == files.deep_view(),
            config@.mode == mode_of_flags(access_time_only, modification_time_only),
            config@.explicit_time == text_view(date),
            config@.create_missing == !no_create,
            config@.interval_ms == interval_of_millis(interval),
            config@.verbose == log,
    {
        let mode = if access_time_only {
            TouchMode::AccessOnly
        } else if modification_time_only {
            TouchMode::ModificationOnly
        } else {
            TouchMode::Both
        };
        let interval_ms = if interval > 0 {
            Some(interval)
        } else {
            None
        };
        RunConfig {
            paths: files,
            mode,
            explicit_time: date,
            create_missing: !no_create,
            interval_ms,
            verbose: log,
        }
    }

    /// The paths to work on, in the order given.
    pub fn paths(&self) -> (paths: &Vec<String>)
        ensures
            paths.deep_view() == self@.paths,
    {
        &self.paths
    }

    /// Whether there is no path to work on.
    pub fn is_empty(&self) -> (empty: bool)
        ensures
            empty == (self@.paths.len() == 0),
    {
        self.paths.len() == 0
    }

    /// Which timestamps to set.
    pub fn mode(&self) -> (mode: TouchMode)
        ensures
            mode == self@.mode,
    {
        self.mode
    }

    /// The date given on the command line, if one was.
    pub fn explicit_time(&self) -> (date: &Option<String>)
        ensures
            text_view(*date) == self@.explicit_time,
    {
        &self.explicit_time
    }

    /// Whether a missing file is created.
    pub fn create_missing(&self) -> (create: bool)
        ensures
            create == self@.create_missing,
    {
        self.create_missing
    }

    /// The interval between passes in milliseconds, if the run repeats.
    pub fn interval_ms(&self) -> (interval: Option<u64>)
        ensures
            interval == self@.interval_ms,
            self@.wf(),
    {
        proof {
            use_type_invariant(self);
        }
        self.interval_ms
    }

    /// Whether the run reports what it does.
    pub fn verbose(&self) -> (verbose: bool)
        ensures
            verbose == self@.verbose,
    {
        self.verbose
    }
}

/// What the user is told where no file was named.
pub fn empty_list_message() -> (message: &'static str)
    ensures
        message@ == "File list is empty."@,
{
    "File list is empty."
}

} // verus!
