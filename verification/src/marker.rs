//! The freshness marker: a single instant in time, kept on disk as a
//! human-readable UTC timestamp so that freshness survives restarts.
//!
//! The text representation is chrono's: `encode_marker` turns milliseconds
//! since the Unix epoch into the `Display` text of the corresponding
//! `DateTime<Utc>`, and `parse_marker` reads such text back. The two
//! uninterpreted functions `marker_text_of` and `marker_millis_of` name
//! those representations in contracts.

use vstd::prelude::*;

verus! {

/// Earliest instant, in milliseconds since the Unix epoch, that the marker
/// text can hold: chrono's `DateTime` reaches back to -262143-01-01.
pub const MARKER_MS_MIN: i64 = -8_334_601_228_800_000;

/// Latest such instant: chrono's `DateTime` reaches up to +262142-12-31.
pub const MARKER_MS_MAX: i64 = 8_210_266_876_799_999;

/// The instants that the marker text can represent. Every clock reading a
/// host will ever pass lies well inside.
pub open spec fn in_marker_range(ms: i64) -> bool {
    MARKER_MS_MIN <= ms <= MARKER_MS_MAX
}

/// The marker text that represents the instant `ms`, in chrono's `Display`
/// form for `DateTime<Utc>` (for the epoch: `1970-01-01 00:00:00 UTC`).
pub uninterp spec fn marker_text_of(ms: i64) -> Seq<char>;

/// The instant that marker text `s` denotes, or `None` where `s` is not a
/// timestamp that chrono's `DateTime<Utc>` parser accepts.
pub uninterp spec fn marker_millis_of(s: Seq<char>) -> Option<i64>;

/// Relies on chrono: `DateTime::<Utc>::from_timestamp_millis` accepts every
/// millisecond count in `DateTime`'s range; the `Display` text of the result
/// depends on that count alone; the `FromStr` parser accepts the `Display`
/// text (it takes `UTC` as an offset for exactly this purpose); and
/// `timestamp_millis` is documented to round-trip with
/// `from_timestamp_millis`.
#[verifier::external_body]
fn chrono_format_millis(ms: i64) -> (r: String)
    requires
        in_marker_range(ms),
    ensures
        r@ == marker_text_of(ms),
        marker_millis_of(r@) == Some(ms),
{
    let dt: chrono::DateTime<chrono::Utc> =
        chrono::DateTime::from_timestamp_millis(ms).unwrap();
    dt.to_string()
}

/// Relies on chrono: parsing a `DateTime<Utc>` and taking its
/// `timestamp_millis` is a function of the text alone, and text the parser
/// rejects yields an error rather than a panic.
#[verifier::external_body]
fn chrono_parse_millis(s: &str) -> (r: Option<i64>)
    ensures
        r == marker_millis_of(s@),
{
    match s.parse::<chrono::DateTime<chrono::Utc>>() {
        Ok(dt) => Some(dt.timestamp_millis()),
        Err(_) => None,
    }
}

/// Encodes a freshness instant as the durable marker text.
///
/// A marker encoded from `ms` and then parsed again yields exactly `ms`:
/// the text round-trips to the precision it stores.
pub fn encode_marker(ms: i64) -> (r: String)
    requires
        in_marker_range(ms),
    ensures
        r@ == marker_text_of(ms),
        marker_millis_of(r@) == Some(ms),
{
    chrono_format_millis(ms)
}

/// Reads a freshness instant back from marker text; `None` where the text
/// is not a timestamp.
pub fn parse_marker(s: &str) -> (r: Option<i64>)
    ensures
        r == marker_millis_of(s@),
{
    chrono_parse_millis(s)
}

} // verus!
