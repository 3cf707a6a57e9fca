use vstd::prelude::*;

verus! {

/// The instant, in milliseconds since the Unix epoch, that `chrono` reads
/// out of an RFC 3339 timestamp text, or `None` when the text does not
/// parse as one. The reading is a function of the text alone.
pub uninterp spec fn utc_epoch_millis_of(s: Seq<char>) -> Option<i64>;

/// The RFC 3339 text that `chrono` writes for an instant given in
/// milliseconds since the Unix epoch; a function of the instant alone.
pub uninterp spec fn rfc3339_text_of(t: i64) -> Seq<char>;

/// Relies on `chrono`'s `FromStr` for `DateTime<Utc>`: a pure parse of a
/// relaxed RFC 3339 timestamp, taken to milliseconds since the epoch.
#[verifier::external_body]
pub(crate) fn parse_datetime_utc(s: &str) -> (r: Option<i64>)
    ensures
        r == utc_epoch_millis_of(s@),
{
    match s.parse::<chrono::DateTime<chrono::Utc>>() {
        Ok(d) => Some(d.timestamp_millis()),
        Err(_) => None,
    }
}

/// Relies on `chrono::DateTime::from_timestamp_millis` and `to_rfc3339`:
/// writes the instant back as an RFC 3339 timestamp; an instant outside
/// `chrono`'s representable range writes as empty text.
#[verifier::external_body]
pub(crate) fn format_datetime_utc(t: i64) -> (r: String)
    ensures
        r@ == rfc3339_text_of(t),
{
    match chrono::DateTime::<chrono::Utc>::from_timestamp_millis(t) {
        Some(d) => d.to_rfc3339(),
        None => String::new(),
    }
}

} // verus!
