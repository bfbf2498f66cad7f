//! Instants in time: UTC timestamps with nanosecond resolution, and their wire
//! text.
use vstd::prelude::*;

verus! {

/// The first second of the year 0000, in seconds since the Unix epoch.
pub const MIN_SECONDS: i64 = -62_167_219_200;

/// The last second of the year 9999, in seconds since the Unix epoch.
pub const MAX_SECONDS: i64 = 253_402_300_799;

/// What `chrono` reads from `text` with the lenient parser behind
/// `str::parse::<DateTime<Utc>>`: the instant's Unix timestamp and the
/// nanoseconds since its last second boundary, or nothing where it reports
/// an error.
pub uninterp spec fn timestamp_of_text(text: Seq<char>) -> Option<(i64, u32)>;

/// What `chrono::DateTime::parse_from_rfc3339` reads from `text`, which must
/// carry a timezone offset: the instant's Unix timestamp and the nanoseconds
/// since its last second boundary, or nothing where it reports an error.
pub uninterp spec fn timestamp_of_offset_text(text: Seq<char>) -> Option<(i64, u32)>;

/// The RFC 3339 text that `chrono` writes for the UTC instant with the given
/// Unix timestamp and nanoseconds, with the shortest of zero, three, six or
/// nine fractional digits and `Z` for the offset.
pub uninterp spec fn timestamp_text(seconds: i64, nanos: u32) -> Seq<char>;

/// `str::parse::<chrono::DateTime<chrono::Utc>>`, with the parsed instant
/// handed back as `timestamp()` and `timestamp_subsec_nanos()`. The contract
/// only names the result.
#[verifier::external_body]
fn chrono_parse(text: &str) -> (r: Option<(i64, u32)>)
    ensures
        r == timestamp_of_text(text@),
{
    match text.parse::<chrono::DateTime<chrono::Utc>>() {
        Ok(t) => Some((t.timestamp(), t.timestamp_subsec_nanos())),
        Err(_) => None,
    }
}

/// `chrono::DateTime::parse_from_rfc3339`, with the parsed instant handed
/// back as `timestamp()` and `timestamp_subsec_nanos()`. The contract only
/// names the result.
#[verifier::external_body]
fn chrono_parse_offset(text: &str) -> (r: Option<(i64, u32)>)
    ensures
        r == timestamp_of_offset_text(text@),
{
    match chrono::DateTime::parse_from_rfc3339(text) {
        Ok(t) => Some((t.timestamp(), t.timestamp_subsec_nanos())),
        Err(_) => None,
    }
}

/// `chrono::DateTime::from_timestamp` followed by `to_rfc3339_opts` with
/// `SecondsFormat::AutoSi` and `Z`. Within the years 0000 to 9999, and with a
/// nanosecond part that `from_timestamp` accepts, the instant exists and its
/// text is plain RFC 3339, which both of `chrono`'s parsers read back to the
/// same timestamp and nanoseconds; the contract claims that, and names the
/// text.
#[verifier::external_body]
fn chrono_format(seconds: i64, nanos: u32) -> (text: String)
    requires
        valid_timestamp(seconds as int, nanos as int),
    ensures
        text@ == timestamp_text(seconds, nanos),
        timestamp_of_text(text@) == Some((seconds, nanos)),
        timestamp_of_offset_text(text@) == Some((seconds, nanos)),
{
    chrono::DateTime::from_timestamp(seconds, nanos).unwrap().to_rfc3339_opts(
        chrono::SecondsFormat::AutoSi,
        true,
    )
}

/// Whether a timestamp lies in the years 0000 to 9999, with a nanosecond
/// part below one second, or below two seconds in the last second of a
/// minute (a leap second).
pub open spec fn valid_timestamp(seconds: int, nanos: int) -> bool {
    &&& MIN_SECONDS <= seconds <= MAX_SECONDS
    &&& 0 <= nanos < 2_000_000_000
    &&& nanos >= 1_000_000_000 ==> (seconds - MIN_SECONDS) % 60 == 59
}

/// An instant: seconds since the Unix epoch, and nanoseconds since that
/// second began.
pub struct InstantView {
    pub seconds: int,
    pub nanos: int,
}

/// The instant with the given timestamp parts, if they are valid.
pub open spec fn instant_of(parts: Option<(i64, u32)>) -> Option<InstantView> {
    match parts {
        Some((seconds, nanos)) => if valid_timestamp(seconds as int, nanos as int) {
            Some(InstantView { seconds: seconds as int, nanos: nanos as int })
        } else {
            None
        },
        None => None,
    }
}

/// The instant that `text` denotes under the lenient RFC 3339 reading.
pub open spec fn instant_of_text(text: Seq<char>) -> Option<InstantView> {
    instant_of(timestamp_of_text(text))
}

/// The instant that `text` denotes under the strict RFC 3339 reading, which
/// demands a timezone offset.
pub open spec fn instant_of_offset_text(text: Seq<char>) -> Option<InstantView> {
    instant_of(timestamp_of_offset_text(text))
}

/// The wire text of an instant.
pub open spec fn instant_text(t: InstantView) -> Seq<char> {
    timestamp_text(t.seconds as i64, t.nanos as u32)
}

/// A UTC instant between the years 0000 and 9999, with nanosecond
/// resolution.
#[derive(Clone, Copy, Debug, PartialEq, Eq, Structural)]
pub struct Instant {
    seconds: i64,
    nanos: u32,
}

impl View for Instant {
    type V = InstantView;

    closed spec fn view(&self) -> InstantView {
        InstantView { seconds: self.seconds as int, nanos: self.nanos as int }
    }
}

impl Instant {
    #[verifier::type_invariant]
    pub closed spec fn well_formed(self) -> bool {
        valid_timestamp(self.seconds as int, self.nanos as int)
    }

    /// The instant `nanos` nanoseconds after the second `seconds` of the Unix
    /// era, if that is a valid timestamp.
    pub fn new(seconds: i64, nanos: u32) -> (r: Option<Instant>)
        ensures
            match r {
                Some(t) => valid_timestamp(seconds as int, nanos as int) && t@ == (InstantView {
                    seconds: seconds as int,
                    nanos: nanos as int,
                }),
                None => !valid_timestamp(seconds as int, nanos as int),
            },
    {
        if seconds < MIN_SECONDS || seconds > MAX_SECONDS || nanos >= 2_000_000_000 {
            return None;
        }
        if nanos >= 1_000_000_000 {
            let since_min: u64 = (seconds - MIN_SECONDS) as u64;
            if since_min % 60 != 59 {
                return None;
            }
        }
        Some(Instant { seconds, nanos })
    }

    /// The instant with the timestamp parts that a parser found, if it found
    /// any and they are valid.
    pub fn from_parts(parts: Option<(i64, u32)>) -> (r: Option<Instant>)
        ensures
            match r {
                Some(t) => instant_of(parts) == Some(t@),
                None => instant_of(parts) is None,
            },
    {
        match parts {
            Some((seconds, nanos)) => Instant::new(seconds, nanos),
            None => None,
        }
    }

    /// Seconds since the Unix epoch.
    pub fn seconds(&self) -> (seconds: i64)
        ensures
            seconds == self@.seconds,
    {
        self.seconds
    }

    /// Nanoseconds since the second began.
    pub fn nanos(&self) -> (nanos: u32)
        ensures
            nanos == self@.nanos,
    {
        self.nanos
    }

    /// Reads RFC 3339 text leniently: a space may stand for the `T`, and
    /// numbers need not be zero-padded.
    pub fn parse(text: &str) -> (r: Option<Instant>)
        ensures
            match r {
                Some(t) => instant_of_text(text@) == Some(t@),
                None => instant_of_text(text@) is None,
            },
    {
        Instant::from_parts(chrono_parse(text))
    }

    /// Reads strict RFC 3339 text, which must carry a timezone offset.
    pub fn parse_with_offset(text: &str) -> (r: Option<Instant>)
        ensures
            match r {
                Some(t) => instant_of_offset_text(text@) == Some(t@),
                None => instant_of_offset_text(text@) is None,
            },
    {
        Instant::from_parts(chrono_parse_offset(text))
    }

    /// The wire text of the instant, which both [`Instant::parse`] and
    /// [`Instant::parse_with_offset`] read back as this instant.
    pub fn to_text(&self) -> (text: String)
        ensures
            text@ == instant_text(self@),
            instant_of_text(text@) == Some(self@),
            instant_of_offset_text(text@) == Some(self@),
    {
        proof {
            use_type_invariant(self);
        }
        chrono_format(self.seconds, self.nanos)
    }
}

} // verus!
