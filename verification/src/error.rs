//! Failure kinds of the engine.
//!
//! The first two are participant-scoped and non-fatal: they degrade a single
//! entry of a cycle (omission from the snapshot, or a `NotSubmitted` status)
//! and the cycle continues. The last two are startup-fatal: scheduling must
//! not begin without a complete, parsed roster and deliverable set.

use vstd::prelude::*;

verus! {

/// The kinds of failure the engine distinguishes.
#[derive(Clone, Copy, Debug, PartialEq, Eq, Structural)]
pub enum Error {
    /// Cloning the remote failed and the fallback clone failed too;
    /// the mirror is unavailable for this cycle only.
    MirrorUnavailable,
    /// A commit-history query against a path failed or produced
    /// unparsable data.
    HistoryLookupFailed,
    /// A required startup input is absent.
    ConfigMissing,
    /// The roster or deliverable source is malformed.
    DeserializationFailed,
}

impl Error {
    /// Whether this failure must stop the process at startup. An absent or
    /// malformed configuration is fatal: scheduling must not begin without
    /// a complete, parsed roster and deliverable set. The other kinds are
    /// participant-scoped: they degrade one entry of one cycle and the
    /// cycle continues.
    pub fn is_fatal(&self) -> (fatal: bool)
        ensures
            fatal <==> (*self == Error::ConfigMissing || *self == Error::DeserializationFailed),
    {
        match self {
            Error::MirrorUnavailable => false,
            Error::HistoryLookupFailed => false,
            Error::ConfigMissing => true,
            Error::DeserializationFailed => true,
        }
    }

    /// A short description, in place of a `Display` impl.
    pub fn message(&self) -> (m: &'static str)
        ensures
            m@ == match *self {
                Error::MirrorUnavailable => "mirror unavailable"@,
                Error::HistoryLookupFailed => "history lookup failed"@,
                Error::ConfigMissing => "config missing"@,
                Error::DeserializationFailed => "deserialization failed"@,
            },
    {
        match self {
            Error::MirrorUnavailable => "mirror unavailable",
            Error::HistoryLookupFailed => "history lookup failed",
            Error::ConfigMissing => "config missing",
            Error::DeserializationFailed => "deserialization failed",
        }
    }
}

} // verus!
