use vstd::prelude::*;

verus! {

/// The RFC 3339 text, in UTC with microseconds, of the instant `micros`
/// microseconds after the Unix epoch; `None` where the instant lies outside
/// the calendar's range.
pub uninterp spec fn rfc3339_text(micros: i64) -> Option<Seq<char>>;

/// The instant that an RFC 3339 text names, in microseconds since the Unix
/// epoch; `None` where the text is not RFC 3339.
pub uninterp spec fn rfc3339_micros(text: Seq<char>) -> Option<i64>;

/// Relies on chrono's `DateTime::<Utc>::from_timestamp_micros` and
/// `to_rfc3339_opts(SecondsFormat::Micros, true)`: the text depends on the
/// instant alone.
#[verifier::external_body]
fn format_rfc3339(micros: i64) -> (r: Option<String>)
    ensures
        match r {
            Some(s) => rfc3339_text(micros) == Some(s@),
            None => rfc3339_text(micros).is_none(),
        },
{
    chrono::DateTime::<chrono::Utc>::from_timestamp_micros(micros).map(
        |d| d.to_rfc3339_opts(chrono::SecondsFormat::Micros, true),
    )
}

/// Relies on chrono's `DateTime::parse_from_rfc3339` and `timestamp_micros`:
/// the instant depends on the text alone.
#[verifier::external_body]
fn parse_rfc3339(text: &str) -> (r: Option<i64>)
    ensures
        r == rfc3339_micros(text@),
{
    chrono::DateTime::parse_from_rfc3339(text).ok().map(|d| d.timestamp_micros())
}

/// The text under which a timestamp is stored, where it has one.
pub open spec fn stored_text_of(ts: u64) -> Option<Seq<char>> {
    if ts <= i64::MAX {
        rfc3339_text(ts as i64)
    } else {
        None
    }
}

/// The timestamp a stored text names, where it names an instant at or after
/// the Unix epoch.
pub open spec fn timestamp_of_text(text: Seq<char>) -> Option<u64> {
    match rfc3339_micros(text) {
        Some(m) => if m >= 0 {
            Some(m as u64)
        } else {
            None
        },
        None => None,
    }
}

/// The RFC 3339 text under which a turn's timestamp is stored and sorted.
pub fn timestamp_text(ts: u64) -> (r: Option<String>)
    ensures
        match r {
            Some(s) => stored_text_of(ts) == Some(s@),
            None => stored_text_of(ts).is_none(),
        },
{
    if ts <= i64::MAX as u64 {
        format_rfc3339(ts as i64)
    } else {
        None
    }
}

/// Reads a stored timestamp text back.
pub fn parse_timestamp(text: &str) -> (r: Option<u64>)
    ensures
        r == timestamp_of_text(text@),
{
    match parse_rfc3339(text) {
        Some(m) => if m >= 0 {
            Some(m as u64)
        } else {
            None
        },
        None => None,
    }
}

} // verus!
