//! Instants and durations as plain integers.

use vstd::prelude::*;

verus! {

/// Nanoseconds in one second.
pub const NANOS_PER_SEC: u32 = 1_000_000_000;

/// The longest duration a client accepts, in nanoseconds: `i64::MAX`
/// milliseconds.
pub open spec fn max_duration_nanos() -> int {
    i64::MAX * 1_000_000
}

/// An instant on the UTC time line: whole seconds since 1970-01-01T00:00:00Z
/// and nanoseconds on top of them.
///
/// The instant a value stands for is [`Timestamp::as_nanos`]; two values with
/// the same `as_nanos` are the same instant to every rule of this crate.
#[derive(Clone, Copy, Debug, PartialEq, Eq, Structural)]
pub struct Timestamp {
    pub secs: i64,
    pub nanos: u32,
}

/// A span of time that a freshly stored entry stays valid for.
#[derive(Clone, Copy, Debug, PartialEq, Eq, Structural)]
pub struct CacheDuration {
    pub secs: u64,
    pub nanos: u32,
}

impl CacheDuration {
    /// The length of the span in nanoseconds.
    pub open spec fn as_nanos(self) -> int {
        self.secs * 1_000_000_000 + self.nanos
    }

    /// A duration a client can be built with: its nanosecond part is below one
    /// second and the whole is at most `i64::MAX` milliseconds.
    pub open spec fn is_valid(self) -> bool {
        self.nanos < NANOS_PER_SEC && self.as_nanos() <= max_duration_nanos()
    }

    /// Tells whether a client can be built with this duration, and hands back
    /// the accepted duration.
    pub fn checked(&self) -> (r: Option<CacheDuration>)
        ensures
            r == if self.is_valid() { Some(*self) } else { None::<CacheDuration> },
    {
        if self.nanos >= NANOS_PER_SEC {
            return None;
        }
        match time_delta_from_std(self.secs, self.nanos) {
            Some((secs, nanos)) => Some(CacheDuration { secs: secs as u64, nanos: nanos as u32 }),
            None => None,
        }
    }
}

/// Calls `chrono::Duration::from_std` on the `std::time::Duration` of `secs`
/// seconds and `nanos` nanoseconds.
///
/// Trusted: chrono accepts a duration exactly when it is at most
/// `chrono::Duration::MAX`, which is `i64::MAX` milliseconds, and the accepted
/// value holds the same seconds and nanoseconds.
#[verifier::external_body]
fn time_delta_from_std(secs: u64, nanos: u32) -> (r: Option<(i64, i32)>)
    requires
        nanos < NANOS_PER_SEC,
    ensures
        r.is_some() <==> secs * 1_000_000_000 + nanos <= max_duration_nanos(),
        r matches Some((s, n)) ==> s == secs && n == nanos,
{
    match chrono::Duration::from_std(std::time::Duration::new(secs, nanos)) {
        Ok(delta) => Some((delta.num_seconds(), delta.subsec_nanos())),
        Err(_) => None,
    }
}

impl Timestamp {
    /// The instant as a count of nanoseconds since the epoch.
    pub open spec fn as_nanos(self) -> int {
        self.secs * 1_000_000_000 + self.nanos
    }

    /// The latest instant that [`Timestamp::saturating_add`] gives.
    pub open spec fn latest() -> Timestamp {
        Timestamp { secs: i64::MAX, nanos: 999_999_999 }
    }

    /// The instant `d` after `self`, or [`Timestamp::latest`] where that lies
    /// beyond it. The result is normalised: its `nanos` are below one second.
    pub open spec fn plus(self, d: CacheDuration) -> Timestamp {
        let sum = self.as_nanos() + d.as_nanos();
        if sum >= Self::latest().as_nanos() {
            Self::latest()
        } else {
            Timestamp { secs: (sum / 1_000_000_000) as i64, nanos: (sum % 1_000_000_000) as u32 }
        }
    }

    /// Whether `self` is strictly later than `other`.
    pub fn is_after(&self, other: &Timestamp) -> (r: bool)
        ensures
            r == (self.as_nanos() > other.as_nanos()),
    {
        let a: i128 = (self.secs as i128) * 1_000_000_000 + (self.nanos as i128);
        let b: i128 = (other.secs as i128) * 1_000_000_000 + (other.nanos as i128);
        a > b
    }

    /// Adds a duration, stopping at [`Timestamp::latest`].
    pub fn saturating_add(&self, d: &CacheDuration) -> (r: Timestamp)
        ensures
            r == self.plus(*d),
    {
        let frac: u64 = self.nanos as u64 + d.nanos as u64;
        let carry: u64 = frac / 1_000_000_000;
        let nanos: u64 = frac % 1_000_000_000;
        let secs: i128 = self.secs as i128 + d.secs as i128 + carry as i128;
        if secs > i64::MAX as i128 || (secs == i64::MAX as i128 && nanos == 999_999_999) {
            Timestamp { secs: i64::MAX, nanos: 999_999_999 }
        } else {
            assert(self.as_nanos() + d.as_nanos() == secs * 1_000_000_000 + nanos);
            Timestamp { secs: secs as i64, nanos: nanos as u32 }
        }
    }
}

/// Adding a duration lands exactly on the sum where that is before
/// [`Timestamp::latest`] and on [`Timestamp::latest`] where it is not, and
/// gives a normalised value either way.
pub proof fn lemma_plus_is_sum(t: Timestamp, d: CacheDuration)
    ensures
        t.plus(d).nanos < NANOS_PER_SEC,
        t.as_nanos() + d.as_nanos() < Timestamp::latest().as_nanos() ==> t.plus(d).as_nanos()
            == t.as_nanos() + d.as_nanos(),
        t.as_nanos() + d.as_nanos() >= Timestamp::latest().as_nanos() ==> t.plus(d)
            == Timestamp::latest(),
{
}

} // verus!
