use vstd::prelude::*;

verus! {

/// An instant in UTC: whole seconds since the Unix epoch and the
/// nanoseconds past that second.
#[derive(Clone, Copy, Debug, PartialEq, Eq, Hash, Structural)]
pub struct UtcInstant {
    secs: i64,
    nanos: u32,
}

impl UtcInstant {
    pub closed spec fn spec_secs(self) -> i64 {
        self.secs
    }

    pub closed spec fn spec_nanos(self) -> u32 {
        self.nanos
    }

    pub fn new(secs: i64, nanos: u32) -> (r: UtcInstant)
        ensures
            r.spec_secs() == secs,
            r.spec_nanos() == nanos,
    {
        UtcInstant { secs, nanos }
    }

    /// The instant that opens second `secs` after the epoch.
    pub fn from_timestamp(secs: i64) -> (r: UtcInstant)
        ensures
            r.spec_secs() == secs,
            r.spec_nanos() == 0,
    {
        UtcInstant { secs, nanos: 0 }
    }

    /// Whole seconds since the epoch.
    pub fn timestamp(&self) -> (r: i64)
        ensures
            r == self.spec_secs(),
    {
        self.secs
    }

    /// Nanoseconds past the whole second.
    pub fn timestamp_subsec_nanos(&self) -> (r: u32)
        ensures
            r == self.spec_nanos(),
    {
        self.nanos
    }
}

/// Relies on `chrono::Utc::now` and `chrono::DateTime::timestamp`: the
/// current time in whole seconds since the Unix epoch, about which nothing
/// is assumed.
#[verifier::external_body]
pub(crate) fn utc_now_timestamp() -> i64 {
    chrono::Utc::now().timestamp()
}

} // verus!
