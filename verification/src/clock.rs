//! The system clock, read in milliseconds since the Unix epoch.

use vstd::prelude::*;

verus! {

/// A point in time as the system clock reports it.
#[verifier::external_type_specification]
#[verifier::external_body]
pub struct ExSystemTime(std::time::SystemTime);

/// Reads the system clock with `std::time::SystemTime::now`. Nothing is
/// claimed of the reading.
#[verifier::external_body]
fn system_now() -> std::time::SystemTime {
    std::time::SystemTime::now()
}

/// The time from the Unix epoch to `now`, by
/// `std::time::SystemTime::duration_since`; `None` where `now` lies
/// before the epoch. Nothing is claimed of the duration.
#[verifier::external_body]
fn since_epoch(now: &std::time::SystemTime) -> Option<core::time::Duration> {
    match now.duration_since(std::time::UNIX_EPOCH) {
        Ok(elapsed) => Some(elapsed),
        Err(_) => None,
    }
}

/// The whole milliseconds in `elapsed`, by
/// `core::time::Duration::as_millis`. Nothing is claimed of the number.
#[verifier::external_body]
fn whole_millis(elapsed: &core::time::Duration) -> u128 {
    elapsed.as_millis()
}

/// The present time in milliseconds since the Unix epoch, reduced to 64
/// bits; `None` where the clock reads a time before the epoch.
pub(crate) fn clock_millis() -> Option<u64> {
    let now = system_now();
    let elapsed: Option<u128> = match since_epoch(&now) {
        Some(elapsed) => Some(whole_millis(&elapsed)),
        None => None,
    };
    timestamp_of(elapsed)
}

/// The timestamp that stands for a reading of the clock: the reading's
/// milliseconds reduced to 64 bits, which leaves every reading below
/// 2^64 as it is; none where the clock gave none.
pub fn timestamp_of(elapsed_millis: Option<u128>) -> (r: Option<u64>)
    ensures
        elapsed_millis is None <==> r is None,
        elapsed_millis matches Some(m) ==> r == Some((m % 0x1_0000_0000_0000_0000) as u64),
        elapsed_millis matches Some(m) ==> m <= u64::MAX ==> r == Some(m as u64),
{
    match elapsed_millis {
        Some(millis) => {
            let reduced: u64 = #[verifier::truncate]
            (millis as u64);
            assert(reduced == (millis % 0x1_0000_0000_0000_0000) as u64) by (bit_vector)
                requires
                    reduced == millis as u64,
            ;
            Some(reduced)
        },
        None => None,
    }
}

} // verus!
