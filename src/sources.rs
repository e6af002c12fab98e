//! Values drawn from outside the program: random identifiers and the clock.
use vstd::prelude::*;

verus! {

/// Relies on `uuid::Uuid::new_v4` and the `Display` of `Uuid`: a random
/// version 4 UUID in its hyphenated form, 8-4-4-4-12 lower-case hex digits.
#[verifier::external_body]
pub(crate) fn new_uuid() -> (r: String)
    ensures
        r@.len() == 36,
        forall|i: int| 0 <= i < 36 ==> (r@[i] == '-' <==> (i == 8 || i == 13 || i == 18 || i == 23)),
{
    uuid::Uuid::new_v4().to_string()
}

/// Relies on `chrono::Utc::now`, with `DateTime::timestamp_millis` and
/// `DateTime::to_rfc3339`: the current time, in milliseconds since the Unix
/// epoch and as RFC 3339 text.
#[verifier::external_body]
pub(crate) fn current_time() -> (r: (i64, String)) {
    let now = chrono::Utc::now();
    (now.timestamp_millis(), now.to_rfc3339())
}

} // verus!
