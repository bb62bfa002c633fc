//! Instants on the Unix time line, the validity window, and RFC 3339 text.

use vstd::prelude::*;

verus! {

/// Length of the validity window of a token: twelve hours, in seconds.
pub const VALIDITY_SECS: i64 = 43_200;

/// Nanoseconds in one second.
pub const NANOS_PER_SEC: i128 = 1_000_000_000;

/// An instant: whole seconds since 1970-01-01T00:00:00Z and the nanoseconds
/// after that second.
#[derive(Clone, Copy, Debug, PartialEq, Eq, Structural)]
pub struct Timestamp {
    pub secs: i64,
    pub nanos: u32,
}

/// The instant that an RFC 3339 text denotes, as `chrono` reads it; `None` for
/// a text that `chrono` does not accept.
pub uninterp spec fn rfc3339_instant(text: Seq<char>) -> Option<Timestamp>;

/// The RFC 3339 text that `chrono` writes for an instant; `None` for an instant
/// outside the range of dates that `chrono` can hold.
pub uninterp spec fn rfc3339_text(at: Timestamp) -> Option<Seq<char>>;

/// Position of an instant on the time line, in nanoseconds since the epoch.
pub open spec fn nanos_since_epoch(at: Timestamp) -> int {
    at.secs * 1_000_000_000 + at.nanos
}

/// Nanoseconds from `then` to `now`; negative if `then` is the later one.
pub open spec fn elapsed_nanos(now: Timestamp, then: Timestamp) -> int {
    nanos_since_epoch(now) - nanos_since_epoch(then)
}

/// More than the validity window lies between `then` and `now`.
pub open spec fn window_elapsed(now: Timestamp, then: Timestamp) -> bool {
    elapsed_nanos(now, then) > VALIDITY_SECS * 1_000_000_000
}

/// The end of the validity window that opens at `at`; `None` where the seconds
/// would leave the range of `i64`.
pub open spec fn window_end(at: Timestamp) -> Option<Timestamp> {
    if at.secs + VALIDITY_SECS <= i64::MAX {
        Some(Timestamp { secs: (at.secs + VALIDITY_SECS) as i64, nanos: at.nanos })
    } else {
        None
    }
}

/// The stamp of a token issued at `now`: the RFC 3339 text of the end of the
/// validity window; `None` where that end cannot be written.
pub open spec fn expiry_stamp(now: Timestamp) -> Option<Seq<char>> {
    match window_end(now) {
        Some(end) => rfc3339_text(end),
        None => None,
    }
}

/// A stamp denotes an instant that lies more than the validity window before
/// `now`. A stamp that is no RFC 3339 text denotes none and is never stale.
pub open spec fn stamp_is_stale(stamp: Seq<char>, now: Timestamp) -> bool {
    match rfc3339_instant(stamp) {
        Some(then) => window_elapsed(now, then),
        None => false,
    }
}

/// Reads the system clock through `chrono::Utc::now`. The reading depends on
/// the moment of the call, so nothing is claimed of it.
#[verifier::external_body]
fn read_clock() -> (now: Timestamp) {
    let t = chrono::Utc::now();
    Timestamp { secs: t.timestamp(), nanos: t.timestamp_subsec_nanos() }
}

/// Parses with `chrono::DateTime::parse_from_rfc3339`. The result is the
/// instant named by `rfc3339_instant`, given as `timestamp()` and
/// `timestamp_subsec_nanos()` of the parsed date.
#[verifier::external_body]
fn parse_rfc3339(text: &str) -> (at: Option<Timestamp>)
    ensures
        at == rfc3339_instant(text@),
{
    match chrono::DateTime::parse_from_rfc3339(text) {
        Ok(t) => Some(Timestamp { secs: t.timestamp(), nanos: t.timestamp_subsec_nanos() }),
        Err(_) => None,
    }
}

/// Writes an instant with `chrono::DateTime::to_rfc3339`, after
/// `chrono::DateTime::from_timestamp` has made the date. The result is the text
/// named by `rfc3339_text`; it is `None` where `from_timestamp` is.
#[verifier::external_body]
fn write_rfc3339(at: Timestamp) -> (text: Option<String>)
    ensures
        match text {
            Some(s) => rfc3339_text(at) == Some(s@),
            None => rfc3339_text(at) is None,
        },
{
    match chrono::DateTime::from_timestamp(at.secs, at.nanos) {
        Some(t) => Some(t.to_rfc3339()),
        None => None,
    }
}

impl Timestamp {
    /// An instant from its two parts.
    pub fn new(secs: i64, nanos: u32) -> (at: Self)
        ensures
            at == (Timestamp { secs, nanos }),
    {
        Timestamp { secs, nanos }
    }

    /// The present instant, as the system clock gives it.
    pub fn now() -> Self {
        read_clock()
    }

    /// The instant that an RFC 3339 text denotes.
    pub fn from_rfc3339(text: &str) -> (at: Option<Self>)
        ensures
            at == rfc3339_instant(text@),
    {
        parse_rfc3339(text)
    }

    /// The RFC 3339 text of this instant.
    pub fn to_rfc3339(&self) -> (text: Option<String>)
        ensures
            match text {
                Some(s) => rfc3339_text(*self) == Some(s@),
                None => rfc3339_text(*self) is None,
            },
    {
        write_rfc3339(*self)
    }

    /// The instant at which a validity window that opens now ends.
    pub fn end_of_window(&self) -> (end: Option<Self>)
        ensures
            end == window_end(*self),
    {
        if self.secs <= i64::MAX - VALIDITY_SECS {
            Some(Timestamp { secs: self.secs + VALIDITY_SECS, nanos: self.nanos })
        } else {
            None
        }
    }

    /// The stamp of a token issued at this instant.
    pub fn expiry_stamp(&self) -> (stamp: Option<String>)
        ensures
            match stamp {
                Some(s) => expiry_stamp(*self) == Some(s@),
                None => expiry_stamp(*self) is None,
            },
    {
        match self.end_of_window() {
            Some(end) => end.to_rfc3339(),
            None => None,
        }
    }

    /// Whether more than the validity window lies between `then` and `self`.
    pub fn is_past_window_of(&self, then: Timestamp) -> (past: bool)
        ensures
            past == window_elapsed(*self, then),
    {
        let here: i128 = (self.secs as i128) * NANOS_PER_SEC + (self.nanos as i128);
        let there: i128 = (then.secs as i128) * NANOS_PER_SEC + (then.nanos as i128);
        here - there > (VALIDITY_SECS as i128) * NANOS_PER_SEC
    }
}

/// Whether a stamp denotes an instant more than the validity window before
/// `now`. A stamp that cannot be read is not stale.
pub fn is_stale(stamp: &str, now: Timestamp) -> (stale: bool)
    ensures
        stale == stamp_is_stale(stamp@, now),
{
    match parse_rfc3339(stamp) {
        Some(then) => now.is_past_window_of(then),
        None => false,
    }
}

} // verus!
