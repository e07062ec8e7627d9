//! The instant a workspace was last changed.
//!
//! An instant is held as chrono holds a `DateTime<Utc>` apart from its
//! calendar: whole seconds since the Unix epoch and the nanoseconds past that
//! second (which exceed 999,999,999 only inside a leap second). Instants are
//! ordered by the seconds and then by the nanoseconds, which is the order
//! chrono gives the same instants.

use vstd::prelude::*;

verus! {

#[verifier::external_type_specification]
#[verifier::external_body]
pub struct ExChronoParseError(chrono::ParseError);

/// The instant that `chrono::DateTime::parse_from_rfc3339` reads from a text,
/// taken to UTC as (seconds since the epoch, nanoseconds), or `None` where it
/// rejects the text.
pub uninterp spec fn rfc3339_utc_instant(text: Seq<char>) -> Option<(i64, u32)>;

/// The text that `DateTime::<Utc>::to_rfc3339_opts(SecondsFormat::Millis, true)`
/// writes for the instant (seconds, nanoseconds), or `None` where
/// `DateTime::from_timestamp` has no instant for that pair.
pub uninterp spec fn rfc3339_millis_text(secs: i64, nanos: u32) -> Option<Seq<char>>;

/// The instant that `DateTime::<Utc>::checked_add_signed` gives for one
/// millisecond after (seconds, nanoseconds), or `None` where either end lies
/// outside chrono's range.
pub uninterp spec fn utc_plus_one_milli(secs: i64, nanos: u32) -> Option<(i64, u32)>;

/// The seconds, counted from the Unix epoch, below which every instant lies
/// well inside chrono's range (which ends in the year 262142): about the
/// year 255000.
pub open spec fn well_inside_range_secs() -> int {
    8_000_000_000_000
}

/// Whether (seconds, nanoseconds) is an instant after the epoch, outside any
/// leap second, and well inside chrono's range.
pub open spec fn ordinary_instant(secs: i64, nanos: u32) -> bool {
    0 <= secs < well_inside_range_secs() && nanos < 1_000_000_000
}

/// Whether instant `a` comes after instant `b`.
pub open spec fn instant_after(a: (i64, u32), b: (i64, u32)) -> bool {
    a.0 > b.0 || (a.0 == b.0 && a.1 > b.1)
}

/// Reads chrono's clock: `Utc::now()` as (seconds since the epoch, nanoseconds).
/// Which instant comes back depends on the time of the call. Claimed of
/// every reading, as `Utc::now` builds it from the time since the epoch with
/// `DateTime::from_timestamp(..).unwrap()`: the seconds are not negative, the
/// nanoseconds are below one second, the instant can be written in RFC 3339,
/// and, when it lies well inside chrono's range, one millisecond can be added.
#[verifier::external_body]
fn clock_now() -> (r: (i64, u32))
    ensures
        0 <= r.0,
        r.1 < 1_000_000_000,
        rfc3339_millis_text(r.0, r.1) is Some,
        ordinary_instant(r.0, r.1) ==> utc_plus_one_milli(r.0, r.1) is Some,
{
    let now = chrono::Utc::now();
    (now.timestamp(), now.timestamp_subsec_nanos())
}

/// Calls `chrono::DateTime::parse_from_rfc3339` and converts the instant to
/// UTC seconds and nanoseconds. Claimed: success exactly where the named
/// reading has an instant, and then that instant.
#[verifier::external_body]
fn parse_rfc3339_utc(text: &str) -> (r: Result<(i64, u32), chrono::ParseError>)
    ensures
        r is Ok <==> rfc3339_utc_instant(text@) is Some,
        r matches Ok(v) ==> rfc3339_utc_instant(text@) == Some(v),
{
    let parsed = chrono::DateTime::parse_from_rfc3339(text)?.with_timezone(&chrono::Utc);
    Ok((parsed.timestamp(), parsed.timestamp_subsec_nanos()))
}

/// Calls `DateTime::from_timestamp` and then `to_rfc3339_opts` with millisecond
/// precision and a `Z` suffix. Claimed: the result is the named text, and
/// there is one for an ordinary instant, which `from_timestamp` accepts.
#[verifier::external_body]
fn format_rfc3339_millis(secs: i64, nanos: u32) -> (r: Option<String>)
    ensures
        match r {
            Some(text) => rfc3339_millis_text(secs, nanos) == Some(text@),
            None => rfc3339_millis_text(secs, nanos) is None,
        },
        ordinary_instant(secs, nanos) ==> r is Some,
{
    chrono::DateTime::from_timestamp(secs, nanos).map(
        |t| t.to_rfc3339_opts(chrono::SecondsFormat::Millis, true),
    )
}

/// Calls `DateTime::from_timestamp` and then `checked_add_signed` with one
/// millisecond. Claimed: the result is the named instant, an instant that
/// comes back lies after the one it was computed from, and there is one for
/// an ordinary instant, whose successor stays inside chrono's range.
#[verifier::external_body]
fn add_one_milli(secs: i64, nanos: u32) -> (r: Option<(i64, u32)>)
    ensures
        r == utc_plus_one_milli(secs, nanos),
        r matches Some(t) ==> instant_after(t, (secs, nanos)),
        ordinary_instant(secs, nanos) ==> r is Some,
{
    let t = chrono::DateTime::from_timestamp(secs, nanos)?;
    let next = t.checked_add_signed(chrono::TimeDelta::milliseconds(1))?;
    Some((next.timestamp(), next.timestamp_subsec_nanos()))
}

/// When a workspace was last updated.
#[derive(Debug, Clone, Copy, PartialEq, Eq, Structural, PartialOrd, Ord, Hash)]
pub struct WorkspaceLastUpdated {
    secs: i64,
    nanos: u32,
}

impl View for WorkspaceLastUpdated {
    /// Seconds since the Unix epoch and nanoseconds past that second.
    type V = (i64, u32);

    closed spec fn view(&self) -> (i64, u32) {
        (self.secs, self.nanos)
    }
}

impl WorkspaceLastUpdated {
    /// Whether this instant comes after `other`.
    pub open spec fn is_after(self, other: WorkspaceLastUpdated) -> bool {
        instant_after(self@, other@)
    }

    /// Whether one millisecond can be added within chrono's range.
    pub open spec fn advance_defined(self) -> bool {
        utc_plus_one_milli(self@.0, self@.1) is Some
    }

    /// The current instant of the clock.
    pub fn now() -> (r: Self)
        ensures
            0 <= r@.0,
            r@.1 < 1_000_000_000,
            rfc3339_millis_text(r@.0, r@.1) is Some,
            ordinary_instant(r@.0, r@.1) ==> r.advance_defined(),
    {
        let (secs, nanos) = clock_now();
        WorkspaceLastUpdated { secs, nanos }
    }

    /// The Unix epoch, 1970-01-01T00:00:00Z.
    pub fn initial() -> (r: Self)
        ensures
            r@ == (0i64, 0u32),
    {
        WorkspaceLastUpdated { secs: 0, nanos: 0 }
    }

    /// Reads an RFC 3339 date and time, in any offset, as an instant.
    pub fn from_rfc3339(value: &str) -> (r: Result<Self, chrono::ParseError>)
        ensures
            r is Ok <==> rfc3339_utc_instant(value@) is Some,
            r matches Ok(t) ==> Some(t@) == rfc3339_utc_instant(value@),
    {
        let (secs, nanos) = parse_rfc3339_utc(value)?;
        Ok(WorkspaceLastUpdated { secs, nanos })
    }

    /// Writes the instant in RFC 3339 with milliseconds and a `Z` suffix.
    /// An instant that chrono cannot represent, which no constructor here
    /// yields, is written as the empty text.
    pub fn to_rfc3339(&self) -> (r: String)
        ensures
            rfc3339_millis_text(self@.0, self@.1) matches Some(text) ==> r@ == text,
            rfc3339_millis_text(self@.0, self@.1) is None ==> r@ == Seq::<char>::empty(),
    {
        match format_rfc3339_millis(self.secs, self.nanos) {
            Some(text) => text,
            None => String::new(),
        }
    }

    /// Whether one millisecond can be added within chrono's range.
    pub fn can_advance(&self) -> (r: bool)
        ensures
            r == self.advance_defined(),
    {
        add_one_milli(self.secs, self.nanos).is_some()
    }

    /// The later of the clock's current instant and one millisecond after this
    /// instant: always strictly after this instant.
    pub fn advance(&self) -> (r: Self)
        requires
            self.advance_defined(),
        ensures
            r.is_after(*self),
            r@ == utc_plus_one_milli(self@.0, self@.1).unwrap()
                || instant_after(r@, utc_plus_one_milli(self@.0, self@.1).unwrap()),
    {
        let now = clock_now();
        let minimum_next = add_one_milli(self.secs, self.nanos).unwrap();
        if now.0 > minimum_next.0 || (now.0 == minimum_next.0 && now.1 > minimum_next.1) {
            WorkspaceLastUpdated { secs: now.0, nanos: now.1 }
        } else {
            WorkspaceLastUpdated { secs: minimum_next.0, nanos: minimum_next.1 }
        }
    }
}

} // verus!
