//! Bridges to the process clock and the random number generator.  Every
//! other part of the library takes these values as plain arguments, so the
//! logic is verified for every outcome the bridges can produce.

use vstd::prelude::*;
use rand::Rng;
use chrono::Datelike;

verus! {

/// Relies on rand's `thread_rng` and `Rng::gen_range`: a uniformly drawn
/// value inside the requested inclusive range.  Nothing more is promised of
/// a random draw than its bounds.
#[verifier::external_body]
pub fn random_in_range(lo: u64, hi: u64) -> (r: u64)
    requires
        lo <= hi,
    ensures
        lo <= r <= hi,
{
    rand::thread_rng().gen_range(lo..=hi)
}

/// Relies on chrono's `Utc::now` and `Datelike::year`: the calendar year of
/// the wall clock.  The clock is outside the program, so no contract
/// constrains the value.
#[verifier::external_body]
pub fn current_year() -> i32 {
    chrono::Utc::now().year()
}

} // verus!
