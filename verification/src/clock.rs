//! The wall clock.

use vstd::prelude::*;

verus! {

/// The current time in milliseconds since the Unix epoch, as
/// `mongodb::bson::DateTime::now` reads it from the system clock. Nothing is
/// claimed of the value: the clock may stand anywhere.
#[verifier::external_body]
pub(crate) fn now_millis() -> (millis: i64) {
    mongodb::bson::DateTime::now().timestamp_millis()
}

} // verus!
