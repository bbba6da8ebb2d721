//! Parsing of a displayed metadata date value into an epoch timestamp.
//!
//! Embedded date fields are rendered in the fixed layout
//! `YYYY-MM-DD HH:MM:SS`, with no time-zone suffix.  The text is read as an
//! instant in the target reference frame as it stands (any time-zone offset
//! recorded beside the field is deliberately ignored) and converted to
//! seconds since the Unix epoch.

use vstd::prelude::*;

verus! {

/// The epoch timestamp that the fixed-layout date grammar assigns to a
/// string, or `None` where the string does not match the grammar.  A name
/// for the outcome of `chrono`'s parser: a function of the characters alone.
pub uninterp spec fn parse_datetime_epoch(s: Seq<char>) -> Option<u64>;

/// Relies on `chrono::NaiveDateTime::parse_from_str` with the fixed layout
/// `%Y-%m-%d %H:%M:%S`, and on `chrono::DateTime::timestamp`: whether the
/// text parses, and the instant it denotes, depend on the characters of the
/// input alone.
#[verifier::external_body]
pub(crate) fn parse_datetime(s: &str) -> (r: Option<u64>)
    ensures
        r == parse_datetime_epoch(s@),
{
    match chrono::NaiveDateTime::parse_from_str(s, "%Y-%m-%d %H:%M:%S") {
        Ok(t) => Some(t.and_utc().timestamp() as u64),
        Err(_) => None,
    }
}

} // verus!
