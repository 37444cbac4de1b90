//! The one place the engine asks what time it is. Every decision that depends
//! on the clock takes the instant as a plain argument, so the logic is
//! verified for every possible reading; this module only produces readings.

use vstd::prelude::*;

verus! {

/// Relies on `chrono::Utc::now`, reduced to whole seconds since the Unix
/// epoch by `DateTime::timestamp`. `Utc::now` derives the instant from the
/// system clock's offset after the epoch, so the reading is non-negative;
/// nothing else can be promised of a clock.
#[verifier::external_body]
pub fn now_unix() -> (r: i64)
    ensures
        0 <= r,
{
    chrono::Utc::now().timestamp()
}

} // verus!
