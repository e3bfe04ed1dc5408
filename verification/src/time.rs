//! Points in time, as whole seconds since the Unix epoch and nanoseconds,
//! within the range that `chrono::DateTime<Utc>` can hold.

use vstd::prelude::*;

verus! {

/// The first second that a `DateTime<Utc>` can hold (1 January of year -262143).
pub open spec fn min_secs() -> int {
    -8_334_601_315_200
}

/// The last second that a `DateTime<Utc>` can hold (31 December of year 262142).
pub open spec fn max_secs() -> int {
    8_210_266_876_799
}

/// Whether `secs` and `nanos` describe a representable instant (no leap second).
pub open spec fn in_range(secs: int, nanos: int) -> bool {
    min_secs() <= secs <= max_secs() && 0 <= nanos < 1_000_000_000
}

/// The RFC 3339 text that `DateTime::<Utc>::to_rfc3339` gives for an instant.
pub uninterp spec fn rfc3339_text(secs: i64, nanos: u32) -> Seq<char>;

/// The current time from `chrono::Utc::now`, as seconds and nanoseconds.
/// `Utc::now` builds its value from the system clock with
/// `DateTime::from_timestamp(..).unwrap()` and a sub-second part below one
/// second, so the instant is representable; it takes the time elapsed since
/// the epoch (`duration_since(UNIX_EPOCH)`, which panics on a clock set
/// before 1970), so the seconds are not negative. Which instant it is
/// depends on the clock and is not stated.
#[verifier::external_body]
fn system_now() -> (r: (i64, u32))
    ensures
        in_range(r.0 as int, r.1 as int),
        r.0 >= 0,
{
    let t = chrono::Utc::now();
    (t.timestamp(), t.timestamp_subsec_nanos())
}

/// `chrono::DateTime::from_timestamp(secs, nanos)` followed by `to_rfc3339`;
/// the claim is only that the text is the one named by `rfc3339_text`.
/// For instants in range `from_timestamp` returns a value, so `expect`
/// does not panic.
#[verifier::external_body]
fn format_rfc3339(secs: i64, nanos: u32) -> (r: String)
    requires
        in_range(secs as int, nanos as int),
    ensures
        r@ == rfc3339_text(secs, nanos),
{
    chrono::DateTime::from_timestamp(secs, nanos).expect("instant in range").to_rfc3339()
}

/// The text that `format("%Y%m%d-%H%M%S")` gives for an instant, such as
/// `20240131-235959`.
pub uninterp spec fn compact_stamp_text(secs: i64, nanos: u32) -> Seq<char>;

/// `chrono::DateTime::from_timestamp(secs, nanos)` formatted with
/// `%Y%m%d-%H%M%S`; the claim is only that the text is the one named by
/// `compact_stamp_text`. For instants in range `expect` does not panic.
#[verifier::external_body]
fn format_compact(secs: i64, nanos: u32) -> (r: String)
    requires
        in_range(secs as int, nanos as int),
    ensures
        r@ == compact_stamp_text(secs, nanos),
{
    chrono::DateTime::from_timestamp(secs, nanos)
        .expect("instant in range")
        .format("%Y%m%d-%H%M%S")
        .to_string()
}

/// The instant that an RFC 3339 text names, as
/// `DateTime::parse_from_rfc3339` reads it: seconds since the epoch in UTC
/// and nanoseconds (one second or more for a leap second); `None` when the
/// text is not RFC 3339.
pub uninterp spec fn parsed_rfc3339(text: Seq<char>) -> Option<(i64, u32)>;

/// `chrono::DateTime::parse_from_rfc3339(text)`, read as `timestamp()` and
/// `timestamp_subsec_nanos()`; its error becomes `None`.
#[verifier::external_body]
fn parse_rfc3339(text: &str) -> (r: Option<(i64, u32)>)
    ensures
        r == parsed_rfc3339(text@),
{
    match chrono::DateTime::parse_from_rfc3339(text) {
        Ok(t) => Some((t.timestamp(), t.timestamp_subsec_nanos())),
        Err(_) => None,
    }
}

/// The instant an RFC 3339 text names, when a `Timestamp` can hold it (a
/// leap second cannot be held).
pub open spec fn rfc3339_instant(text: Seq<char>) -> Option<(i64, u32)> {
    match parsed_rfc3339(text) {
        Some((s, n)) => if in_range(s as int, n as int) {
            Some((s, n))
        } else {
            None
        },
        None => None,
    }
}

/// An instant that a `chrono::DateTime<Utc>` can hold.
#[derive(Clone, Copy, Debug)]
pub struct Timestamp {
    secs: i64,
    nanos: u32,
}

impl View for Timestamp {
    type V = (i64, u32);

    closed spec fn view(&self) -> (i64, u32) {
        (self.secs, self.nanos)
    }
}

impl Timestamp {
    #[verifier::type_invariant]
    spec fn inv(self) -> bool {
        in_range(self.secs as int, self.nanos as int)
    }

    /// The instant `secs` seconds and `nanos` nanoseconds after the epoch,
    /// if representable.
    pub fn from_parts(secs: i64, nanos: u32) -> (r: Option<Timestamp>)
        ensures
            r is Some <==> in_range(secs as int, nanos as int),
            r matches Some(t) ==> t@ == (secs, nanos),
    {
        if -8_334_601_315_200 <= secs && secs <= 8_210_266_876_799 && nanos < 1_000_000_000 {
            Some(Timestamp { secs, nanos })
        } else {
            None
        }
    }

    /// The current time, never before the epoch.
    pub fn now() -> (t: Timestamp)
        ensures
            t@.0 >= 0,
    {
        let (secs, nanos) = system_now();
        Timestamp { secs, nanos }
    }

    /// The instant an RFC 3339 text names.
    pub fn from_rfc3339(text: &str) -> (r: Option<Timestamp>)
        ensures
            match rfc3339_instant(text@) {
                Some(v) => r matches Some(t) && t@ == v,
                None => r is None,
            },
    {
        match parse_rfc3339(text) {
            Some((secs, nanos)) => Self::from_parts(secs, nanos),
            None => None,
        }
    }

    /// Whole seconds since the epoch.
    pub fn secs(&self) -> (s: i64)
        ensures
            s == self@.0,
            in_range(self@.0 as int, self@.1 as int),
    {
        proof {
            use_type_invariant(self);
        }
        self.secs
    }

    /// Nanoseconds within the second.
    pub fn nanos(&self) -> (n: u32)
        ensures
            n == self@.1,
            in_range(self@.0 as int, self@.1 as int),
    {
        proof {
            use_type_invariant(self);
        }
        self.nanos
    }

    /// The RFC 3339 text of the instant.
    pub fn to_rfc3339(&self) -> (s: String)
        ensures
            s@ == rfc3339_text(self@.0, self@.1),
    {
        proof {
            use_type_invariant(self);
        }
        format_rfc3339(self.secs, self.nanos)
    }

    /// The instant as `YYYYMMDD-HHMMSS`.
    pub fn format_compact(&self) -> (s: String)
        ensures
            s@ == compact_stamp_text(self@.0, self@.1),
    {
        proof {
            use_type_invariant(self);
        }
        format_compact(self.secs, self.nanos)
    }

    /// Whether `self` is strictly later than `other`.
    pub fn is_after(&self, other: &Timestamp) -> (b: bool)
        ensures
            b == (self@.0 > other@.0 || (self@.0 == other@.0 && self@.1 > other@.1)),
    {
        self.secs > other.secs || (self.secs == other.secs && self.nanos > other.nanos)
    }

    /// The instant `secs` seconds later (earlier when negative), if representable.
    pub fn checked_add_secs(&self, secs: i64) -> (r: Option<Timestamp>)
        ensures
            r is Some <==> in_range(self@.0 + secs, self@.1 as int),
            r matches Some(t) ==> t@.0 == self@.0 + secs && t@.1 == self@.1,
    {
        proof {
            use_type_invariant(self);
        }
        let total = self.secs as i128 + secs as i128;
        if -8_334_601_315_200 <= total && total <= 8_210_266_876_799 {
            Some(Timestamp { secs: total as i64, nanos: self.nanos })
        } else {
            None
        }
    }

    /// The instant `hours` hours later (earlier when negative), if representable.
    pub fn checked_add_hours(&self, hours: i64) -> (r: Option<Timestamp>)
        ensures
            r is Some <==> in_range(self@.0 + hours * 3600, self@.1 as int),
            r matches Some(t) ==> t@.0 == self@.0 + hours * 3600 && t@.1 == self@.1,
    {
        proof {
            use_type_invariant(self);
        }
        if hours > 5_000_000_000 || hours < -5_000_000_000 {
            assert(hours * 3600 > 18_000_000_000_000 || hours * 3600 < -18_000_000_000_000)
                by (nonlinear_arith)
                requires
                    hours > 5_000_000_000 || hours < -5_000_000_000,
            ;
            return None;
        }
        let secs = self.secs as i128 + hours as i128 * 3600;
        if -8_334_601_315_200 <= secs && secs <= 8_210_266_876_799 {
            Some(Timestamp { secs: secs as i64, nanos: self.nanos })
        } else {
            None
        }
    }
}

} // verus!
