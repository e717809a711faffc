//! What a new row gets from outside the program: a random identifier and
//! the time of day.
use crate::model::Timestamp;
use vstd::prelude::*;

verus! {

/// A new identifier. Calls `uuid::Uuid::new_v4` and writes the identifier
/// out as text. The identifier is random: nothing is claimed of it.
#[verifier::external_body]
pub(crate) fn fresh_id() -> String {
    uuid::Uuid::new_v4().to_string()
}

/// The current local time. Calls `chrono::Local::now` and takes the local
/// date and time of the result, as milliseconds since the epoch. Nothing is
/// claimed of the instant returned. The call would panic only for a local
/// time beyond the dates that `chrono` can hold, hundreds of thousands of
/// years from now.
#[verifier::external_body]
pub(crate) fn local_now() -> Timestamp {
    Timestamp { millis: chrono::Local::now().naive_local().and_utc().timestamp_millis() }
}

} // verus!
