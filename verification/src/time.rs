//! Timestamps of the remote API, carried on the wire as RFC 3339 text.
//!
//! The library holds a point in time as seconds since the Unix epoch plus a
//! nanosecond part; the text form is read and written by the `chrono` crate
//! behind the two trusted wrappers below.

use vstd::prelude::*;

use crate::error::DecodeError;
use crate::json::{req_str_field, Json, JsonV, get_req_str};

verus! {

/// A point in time: seconds since the Unix epoch, with a nanosecond part.
#[derive(Clone, Copy, Debug, Hash, PartialEq, Eq, Structural)]
pub struct Timestamp {
    /// Whole seconds since 1970-01-01T00:00:00Z; negative values lie before
    /// the epoch.
    pub seconds: i64,
    /// Nanoseconds within the second.
    pub nanos: u32,
}

/// The instant an RFC 3339 text names, as seconds since the Unix epoch and
/// nanoseconds within the second, or `None` where the text is not valid
/// RFC 3339.
pub uninterp spec fn rfc3339_parse(s: Seq<char>) -> Option<(i64, u32)>;

/// The RFC 3339 text of an instant, with seconds rendered to the coarsest
/// precision that loses nothing and a `Z` suffix, or `None` where the
/// instant lies outside the range of representable dates.
pub uninterp spec fn rfc3339_format(seconds: i64, nanos: u32) -> Option<Seq<char>>;

impl Timestamp {
    /// Reads a timestamp from RFC 3339 text; the offset in the text is
    /// normalised away.
    ///
    /// Relies on chrono's `DateTime::parse_from_rfc3339`, with the instant
    /// read back through `DateTime::timestamp` and
    /// `DateTime::timestamp_subsec_nanos`: the result depends on the text
    /// alone.
    #[verifier::external_body]
    pub(crate) fn parse(s: &str) -> (r: Option<Timestamp>)
        ensures
            match r {
                Some(t) => rfc3339_parse(s@) == Some((t.seconds, t.nanos)),
                None => rfc3339_parse(s@) is None,
            },
    {
        match chrono::DateTime::parse_from_rfc3339(s) {
            Ok(dt) => Some(
                Timestamp { seconds: dt.timestamp(), nanos: dt.timestamp_subsec_nanos() },
            ),
            Err(_) => None,
        }
    }

    /// Writes a timestamp as RFC 3339 text with a `Z` suffix, as the remote
    /// service expects.
    ///
    /// Relies on chrono's `DateTime::from_timestamp` and
    /// `DateTime::to_rfc3339_opts`: the result depends on the fields alone.
    #[verifier::external_body]
    pub(crate) fn format(&self) -> (r: Option<String>)
        ensures
            match r {
                Some(s) => rfc3339_format(self.seconds, self.nanos) == Some(s@),
                None => rfc3339_format(self.seconds, self.nanos) is None,
            },
    {
        match chrono::DateTime::from_timestamp(self.seconds, self.nanos) {
            Some(dt) => Some(dt.to_rfc3339_opts(chrono::SecondsFormat::AutoSi, true)),
            None => None,
        }
    }
}

/// A required timestamp field: present as a string holding valid RFC 3339
/// text, or `None` on any mismatch.
pub open spec fn req_ts_field(j: JsonV, k: Seq<char>) -> Option<Timestamp> {
    match req_str_field(j, k) {
        Option::Some(s) => match rfc3339_parse(s) {
            Option::Some(p) => Option::Some(Timestamp { seconds: p.0, nanos: p.1 }),
            Option::None => Option::None,
        },
        Option::None => Option::None,
    }
}

/// Reads a required timestamp field out of an object value.
pub fn get_req_ts(j: &Json, k: &str) -> (r: Result<Timestamp, DecodeError>)
    ensures
        match r {
            Ok(t) => req_ts_field(j@, k@) == Some(t),
            Err(_) => req_ts_field(j@, k@) is None,
        },
{
    let s = get_req_str(j, k)?;
    match Timestamp::parse(s.as_str()) {
        Some(t) => Ok(t),
        None => Err(DecodeError::at(k)),
    }
}

} // verus!
