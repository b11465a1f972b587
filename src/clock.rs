use vstd::prelude::*;
use std::time::{Duration, SystemTime, SystemTimeError};
use crate::error::UtilError;

verus! {

#[verifier::external_type_specification]
#[verifier::external_body]
pub struct ExSystemTime(SystemTime);

#[verifier::external_type_specification]
#[verifier::external_body]
pub struct ExSystemTimeError(SystemTimeError);

/// The offset of `t` after the epoch, as `SystemTime::duration_since` gives
/// it against the epoch; `None` where `t` lies before the epoch.
pub uninterp spec fn epoch_offset(t: SystemTime) -> Option<Duration>;

/// The whole seconds of `d`, as `Duration::as_secs` gives them.
pub uninterp spec fn secs_of(d: Duration) -> u64;

/// Whole seconds from the epoch to `t`; `None` where `t` lies before it.
pub open spec fn epoch_secs(t: SystemTime) -> Option<u64> {
    match epoch_offset(t) {
        Some(d) => Some(secs_of(d)),
        None => None,
    }
}

/// Relies on SystemTime::now: the current reading of the system clock.
/// Nothing is promised of it; it may even go backwards between calls.
#[verifier::external_body]
fn system_now() -> SystemTime {
    SystemTime::now()
}

/// Relies on SystemTime::duration_since, against the epoch: the offset of `t`
/// after the epoch, or an error where `t` lies before it.
#[verifier::external_body]
fn since_epoch(t: &SystemTime) -> (r: Result<Duration, SystemTimeError>)
    ensures
        r is Ok <==> epoch_offset(*t) is Some,
        r matches Ok(d) ==> epoch_offset(*t) == Some(d),
{
    t.duration_since(SystemTime::UNIX_EPOCH)
}

/// Relies on Duration::as_secs: the whole seconds of `d`.
#[verifier::external_body]
fn whole_secs(d: &Duration) -> (r: u64)
    ensures
        r == secs_of(*d),
{
    d.as_secs()
}

/// Whole seconds from the epoch to `t`; `err` where `t` lies before the epoch.
fn secs_since_epoch(t: &SystemTime, err: UtilError) -> (r: Result<u64, UtilError>)
    ensures
        r == (match epoch_secs(*t) {
            Some(s) => Ok(s),
            None => Err(err),
        }),
{
    match since_epoch(t) {
        Ok(d) => Ok(whole_secs(&d)),
        Err(_) => Err(err),
    }
}

/// Whole seconds from the epoch to the modification time `modified`.
/// Fails with `ModifiedBeforeEpoch` where `modified` lies before the epoch.
pub fn get_modified_utc_time(modified: &SystemTime) -> (r: Result<u64, UtilError>)
    ensures
        r == (match epoch_secs(*modified) {
            Some(s) => Ok(s),
            None => Err(UtilError::ModifiedBeforeEpoch),
        }),
{
    secs_since_epoch(modified, UtilError::ModifiedBeforeEpoch)
}

/// Whole seconds from the epoch to now, by the system clock.
/// Fails with `ClockBeforeEpoch` where the clock reads a time before the epoch.
/// Whatever the clock reads, the result is that reading's conversion.
pub fn get_utc_now() -> (r: Result<u64, UtilError>)
    ensures
        r matches Err(e) ==> e == UtilError::ClockBeforeEpoch,
        exists|t: SystemTime| r == now_reading(t),
{
    let now = system_now();
    let r = secs_since_epoch(&now, UtilError::ClockBeforeEpoch);
    assert(r == now_reading(now));
    r
}

/// What the clock reader returns when the system clock reads `t`.
pub open spec fn now_reading(t: SystemTime) -> Result<u64, UtilError> {
    match epoch_secs(t) {
        Some(s) => Ok(s),
        None => Err(UtilError::ClockBeforeEpoch),
    }
}

} // verus!
