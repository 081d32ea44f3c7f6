//! The wall clock and the `/now` response.
//!
//! Time is kept as milliseconds since the Unix epoch, in UTC. Reading the
//! clock and writing a moment out as an RFC 2822 date are left to `chrono`.

use chrono::DateTime;
use chrono::Utc;
use vstd::prelude::*;

verus! {

/// The first moment that an RFC 2822 date can show: the start of year 0.
pub const RFC2822_FIRST_MILLIS: i64 = -62_167_219_200_000;

/// The last moment that an RFC 2822 date can show: the end of year 9999.
pub const RFC2822_LAST_MILLIS: i64 = 253_402_300_799_999;

/// Whether `millis` falls in a year of at most four digits, which is what
/// an RFC 2822 date has room for.
pub open spec fn rfc2822_defined(millis: i64) -> bool {
    RFC2822_FIRST_MILLIS <= millis <= RFC2822_LAST_MILLIS
}

/// The RFC 2822 date that `chrono` writes for the UTC moment `millis`
/// milliseconds after the Unix epoch, such as
/// `Thu, 1 Jan 1970 00:00:00 +0000`.
pub uninterp spec fn rfc2822_text(millis: i64) -> Seq<char>;

/// `Utc::now` followed by `DateTime::timestamp_millis`: the system clock's
/// reading in milliseconds since the Unix epoch. The reading is whatever
/// the machine says, so nothing is claimed of it. `Utc::now` itself does
/// not return on a machine whose clock is set before 1970.
#[verifier::external_body]
pub(crate) fn clock_millis() -> (millis: i64) {
    Utc::now().timestamp_millis()
}

/// `DateTime::from_timestamp_millis` followed by `DateTime::to_rfc2822`:
/// the RFC 2822 date of a moment in UTC. `to_rfc2822` panics outside the
/// years 0 to 9999, which the precondition rules out; inside them the text
/// depends on `millis` alone.
#[verifier::external_body]
fn write_rfc2822(millis: i64) -> (text: String)
    requires
        rfc2822_defined(millis),
    ensures
        text@ == rfc2822_text(millis),
{
    DateTime::<Utc>::from_timestamp_millis(millis).unwrap().to_rfc2822()
}

/// What `/now` answers: one moment, written out and as a number.
#[derive(Debug, PartialEq, Eq)]
pub struct TimeResponse {
    /// The moment as an RFC 2822 date in UTC.
    pub rfc2822: String,
    /// The moment in milliseconds since the Unix epoch.
    pub timestamp: i64,
}

/// Whether `millis` can be written as an RFC 2822 date.
pub fn is_rfc2822_defined(millis: i64) -> (defined: bool)
    ensures
        defined == rfc2822_defined(millis),
{
    RFC2822_FIRST_MILLIS <= millis && millis <= RFC2822_LAST_MILLIS
}

/// The `/now` response for the moment `now_millis`.
pub fn time_response(now_millis: i64) -> (response: TimeResponse)
    requires
        rfc2822_defined(now_millis),
    ensures
        response.timestamp == now_millis,
        response.rfc2822@ == rfc2822_text(now_millis),
{
    TimeResponse { rfc2822: write_rfc2822(now_millis), timestamp: now_millis }
}

} // verus!
