//! Points in time, and the form in which a file system stores them.

use vstd::prelude::*;

verus! {

/// Seconds between the Unix epoch and the epoch of file times on Windows
/// (1601-01-01), the furthest a platform shifts a timestamp before storing it.
pub const PLATFORM_EPOCH_SHIFT: i64 = 11_644_473_600;

/// Bound on the seconds of an instant: a calendar that numbers its days in
/// 32 bits stays strictly inside it, and a platform can still shift it.
pub const SECONDS_LIMIT: i64 = 0x1_0000_0000_0000;

/// Bound on the nanoseconds of an instant. Values from one thousand million
/// upwards stand for a leap second.
pub const NANOS_LIMIT: u32 = 2_000_000_000;

/// Whether `secs` and `nanos` are the parts of an instant.
pub open spec fn instant_parts(secs: int, nanos: int) -> bool {
    &&& -SECONDS_LIMIT < secs < SECONDS_LIMIT
    &&& 0 <= nanos < NANOS_LIMIT
}

/// A concrete point in time: whole seconds since the Unix epoch and the
/// nanoseconds past that second. The time zone plays no part in it.
#[derive(Clone, Copy, Debug, PartialEq, Eq, Structural)]
pub struct ResolvedInstant {
    secs: i64,
    nanos: u32,
}

impl ResolvedInstant {
    /// Whether the parts are in range. It holds of every instant that the
    /// program holds; a specification states it of an instant it only speaks of.
    #[verifier::type_invariant]
    pub open spec fn wf(self) -> bool {
        instant_parts(self.spec_secs() as int, self.spec_nanos() as int)
    }

    /// Seconds since the Unix epoch.
    pub closed spec fn spec_secs(self) -> i64 {
        self.secs
    }

    /// Nanoseconds past the second.
    pub closed spec fn spec_nanos(self) -> u32 {
        self.nanos
    }

    /// The instant with the given parts, if they are the parts of one.
    pub fn new(secs: i64, nanos: u32) -> (r: Option<ResolvedInstant>)
        ensures
            r is Some <==> instant_parts(secs as int, nanos as int),
            r matches Some(t) ==> t.wf() && t.spec_secs() == secs && t.spec_nanos() == nanos,
    {
        if -SECONDS_LIMIT < secs && secs < SECONDS_LIMIT && nanos < NANOS_LIMIT {
            Some(ResolvedInstant { secs, nanos })
        } else {
            None
        }
    }

    /// Seconds since the Unix epoch.
    #[verifier::when_used_as_spec(spec_secs)]
    pub fn secs(self) -> (s: i64)
        ensures
            s == self.spec_secs(),
            self.wf(),
    {
        proof {
            use_type_invariant(&self);
        }
        self.secs
    }

    /// Nanoseconds past the second.
    #[verifier::when_used_as_spec(spec_nanos)]
    pub fn nanos(self) -> (n: u32)
        ensures
            n == self.spec_nanos(),
            self.wf(),
    {
        proof {
            use_type_invariant(&self);
        }
        self.nanos
    }
}

/// Whether `earlier` comes before `later`: an earlier second, or the same
/// second and an earlier nanosecond.
pub open spec fn comes_before(earlier: ResolvedInstant, later: ResolvedInstant) -> bool {
    earlier.spec_secs() < later.spec_secs() || (earlier.spec_secs() == later.spec_secs()
        && earlier.spec_nanos() < later.spec_nanos())
}

/// Whether a platform can shift `seconds` to its own epoch and still hold it.
pub open spec fn platform_seconds(seconds: int) -> bool {
    seconds + PLATFORM_EPOCH_SHIFT <= i64::MAX
}

/// A timestamp as the calls that set a file's times take it: seconds since
/// the Unix epoch and nanoseconds, the seconds within the platform's range.
#[derive(Clone, Copy, Debug, PartialEq, Eq, Structural)]
pub struct FileStamp {
    seconds: i64,
    nanoseconds: u32,
}

impl FileStamp {
    /// Whether the seconds are within the platform's range. It holds of every
    /// stamp that the program holds.
    #[verifier::type_invariant]
    pub open spec fn wf(self) -> bool {
        platform_seconds(self.spec_seconds() as int)
    }

    /// Seconds since the Unix epoch.
    pub closed spec fn spec_seconds(self) -> i64 {
        self.seconds
    }

    /// Nanoseconds past the second.
    pub closed spec fn spec_nanoseconds(self) -> u32 {
        self.nanoseconds
    }

    /// The stamp with the given parts, if the platform can hold the seconds.
    pub fn new(seconds: i64, nanoseconds: u32) -> (r: Option<FileStamp>)
        ensures
            r is Some <==> platform_seconds(seconds as int),
            r matches Some(f) ==> f.wf() && f.spec_seconds() == seconds
                && f.spec_nanoseconds() == nanoseconds,
    {
        if seconds <= i64::MAX - PLATFORM_EPOCH_SHIFT {
            Some(FileStamp { seconds, nanoseconds })
        } else {
            None
        }
    }

    /// Seconds since the Unix epoch.
    #[verifier::when_used_as_spec(spec_seconds)]
    pub fn seconds(self) -> (s: i64)
        ensures
            s == self.spec_seconds(),
            self.wf(),
    {
        proof {
            use_type_invariant(&self);
        }
        self.seconds
    }

    /// Nanoseconds past the second.
    #[verifier::when_used_as_spec(spec_nanoseconds)]
    pub fn nanoseconds(self) -> (n: u32)
        ensures
            n == self.spec_nanoseconds(),
    {
        self.nanoseconds
    }
}

/// The stamp that stands for `instant` in a file's metadata: the same second
/// and the same nanosecond, so nothing below the second is lost.
pub closed spec fn stamp_of(instant: ResolvedInstant) -> FileStamp {
    FileStamp { seconds: instant.secs, nanoseconds: instant.nanos }
}

/// Converts an instant into the stamp that stands for it.
pub fn to_file_stamp(instant: ResolvedInstant) -> (stamp: FileStamp)
    ensures
        stamp == stamp_of(instant),
        stamp.wf(),
        stamp.spec_seconds() == instant.spec_secs(),
        stamp.spec_nanoseconds() == instant.spec_nanos(),
{
    proof {
        use_type_invariant(&instant);
    }
    FileStamp { seconds: instant.secs, nanoseconds: instant.nanos }
}

/// The stamp of an instant has the instant's parts, and every valid instant
/// is within the platform's range.
pub proof fn lemma_stamp_keeps_parts(instant: ResolvedInstant)
    requires
        instant.wf(),
    ensures
        stamp_of(instant).wf(),
        stamp_of(instant).spec_seconds() == instant.spec_secs(),
        stamp_of(instant).spec_nanoseconds() == instant.spec_nanos(),
{
}

/// Two instants have the same stamp only if they are the same instant.
pub proof fn lemma_stamp_tells_instants_apart(a: ResolvedInstant, b: ResolvedInstant)
    ensures
        stamp_of(a) == stamp_of(b) <==> a == b,
{
}

} // verus!
