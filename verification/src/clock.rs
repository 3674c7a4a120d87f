//! The wall clock, in whole seconds since the Unix epoch.
use vstd::prelude::*;
use std::time::{Duration, SystemTime};

verus! {

/// `std::time::SystemTime`, a reading of the system clock; nothing is seen
/// inside it.
#[verifier::external_type_specification]
#[verifier::external_body]
pub struct ExSystemTime(SystemTime);

/// `SystemTime::now`: the current time of the system clock. Nothing is
/// promised of it: it depends on the machine and the moment of the call.
#[verifier::external_body]
fn system_time_now() -> SystemTime {
    SystemTime::now()
}

/// `SystemTime::duration_since(UNIX_EPOCH)`: `None` when the clock is set
/// before the epoch. What it returns depends on the clock, so nothing more is
/// promised.
#[verifier::external_body]
fn since_unix_epoch(time: &SystemTime) -> Option<Duration> {
    time.duration_since(std::time::UNIX_EPOCH).ok()
}

/// `Duration::as_secs`: the whole seconds of a duration.
#[verifier::external_body]
fn whole_seconds(duration: &Duration) -> u64 {
    duration.as_secs()
}

/// The time to stamp on a card, from a reading of the clock in whole seconds
/// since the Unix epoch: `None` is a clock set before the epoch, which is an
/// error; a reading is stored as a signed number of seconds.
pub fn timestamp_from(reading: Option<u64>) -> (r: Result<i64, String>)
    ensures
        reading is None ==> (r matches Err(message) && message@
            == "System time is before the Unix epoch."@),
        reading matches Some(seconds) ==> r == Ok::<i64, String>(seconds as i64),
{
    match reading {
        Some(seconds) => Ok(seconds as i64),
        None => Err("System time is before the Unix epoch.".to_string()),
    }
}

/// The time to stamp on a card: the system clock read as whole seconds since
/// the Unix epoch, turned into a timestamp by `timestamp_from`. Which reading
/// comes back depends on the clock; an error comes only with the message of a
/// clock set before the epoch.
pub fn timestamp() -> (r: Result<i64, String>)
    ensures
        r matches Err(message) ==> message@ == "System time is before the Unix epoch."@,
{
    let now = system_time_now();
    let reading = match since_unix_epoch(&now) {
        Some(duration) => Some(whole_seconds(&duration)),
        None => None,
    };
    timestamp_from(reading)
}

} // verus!
