//! Fresh identifiers and the wall clock: the two things the library takes from
//! the world rather than from its arguments.

use vstd::prelude::*;

verus! {

/// The number of characters of an identifier: 32 hexadecimal digits in five
/// groups, with four hyphens between them.
pub const ID_LENGTH: usize = 36;

/// Trusted: `Uuid::new_v4` and its `Display`. The identifier is random; all that
/// is claimed is its length, that of the hyphenated form.
#[verifier::external_body]
pub(crate) fn random_uuid() -> (id: String)
    ensures
        id@.len() == ID_LENGTH,
{
    uuid::Uuid::new_v4().to_string()
}

/// Trusted: `SystemTime::now`, taken into a `DateTime<Utc>` by chrono's `From`,
/// then `DateTime::timestamp_millis`. The conversion takes a clock on either
/// side of the epoch, so a reading may be negative. Nothing is claimed of the
/// clock.
#[verifier::external_body]
pub(crate) fn utc_now_millis() -> (millis: i64) {
    chrono::DateTime::<chrono::Utc>::from(std::time::SystemTime::now()).timestamp_millis()
}

/// A fresh identifier.
pub fn fresh_id() -> (id: String)
    ensures
        id@.len() == ID_LENGTH,
{
    random_uuid()
}

/// The milliseconds that a clock reading stands for: a reading before the epoch
/// counts as the epoch itself.
pub open spec fn clamp_millis(reading: i64) -> u64 {
    if reading < 0 {
        0
    } else {
        reading as u64
    }
}

/// A clock reading as milliseconds since the Unix epoch.
pub fn millis_of(reading: i64) -> (millis: u64)
    ensures
        millis == clamp_millis(reading),
{
    if reading < 0 {
        0
    } else {
        reading as u64
    }
}

/// Whether `millis` is what some reading of the clock stands for. Of the clock
/// itself nothing is known, so this says no more than that the time is the
/// clamp of a signed number of milliseconds.
pub open spec fn is_clock_time(millis: u64) -> bool {
    exists|reading: i64| millis == #[trigger] clamp_millis(reading)
}

/// The current time, in milliseconds since the Unix epoch: what the clock
/// reads, a reading before the epoch counting as the epoch itself.
pub fn now_millis() -> (millis: u64)
    ensures
        is_clock_time(millis),
{
    let reading = utc_now_millis();
    let millis = millis_of(reading);
    assert(millis == clamp_millis(reading));
    millis
}

} // verus!
