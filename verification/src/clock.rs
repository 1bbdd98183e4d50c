//! Access to the local wall clock, through chrono. Only the component ranges
//! that chrono documents are assumed; the value itself depends on the clock.

use vstd::prelude::*;

verus! {

/// Relies on `chrono::Local::now` and on `chrono::Timelike`'s accessors for
/// the returned moment: `hour` "Returns the hour number from 0 to 23",
/// `minute` "Returns the minute number from 0 to 59", and `second` "Returns
/// the second number from 0 to 59". Which moment comes back depends on the
/// wall clock, so nothing more is promised.
#[verifier::external_body]
pub(crate) fn local_hms() -> (r: (u32, u32, u32))
    ensures
        r.0 < 24,
        r.1 < 60,
        r.2 < 60,
{
    let now = chrono::Local::now();
    (chrono::Timelike::hour(&now), chrono::Timelike::minute(&now), chrono::Timelike::second(&now))
}

} // verus!
