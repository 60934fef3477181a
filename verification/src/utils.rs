//! The clock that capabilities are dated and judged by.

use vstd::prelude::*;

verus! {

/// A source of the current time, in whole seconds since the Unix epoch.
pub trait Time {
    fn now(&self) -> i64;
}

/// The machine's clock.
pub struct RealTime {}

/// `SystemTime::now`, chrono's conversion of a `SystemTime` to a
/// `DateTime<Utc>`, and `DateTime::timestamp`: the whole seconds that the
/// system clock counts since the Unix epoch, fewer than none where the
/// clock is set before 1970. Nothing is claimed of the value: it changes
/// from call to call. The conversion covers the dates that chrono can
/// write, some 262,000 years either side of the epoch.
#[verifier::external_body]
fn unix_seconds() -> i64 {
    chrono::DateTime::<chrono::Utc>::from(std::time::SystemTime::now()).timestamp()
}

impl Time for RealTime {
    fn now(&self) -> i64 {
        unix_seconds()
    }
}

/// The machine's clock.
pub fn get_time() -> RealTime {
    RealTime {  }
}

} // verus!
