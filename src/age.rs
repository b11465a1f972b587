use vstd::prelude::*;
use std::time::SystemTime;
use crate::clock::{epoch_secs, get_modified_utc_time, get_utc_now, now_reading};
use crate::error::UtilError;

verus! {

/// Age in seconds of something last modified at `modified`, seen at `now`;
/// a modification that lies after `now` counts as age zero.
pub open spec fn clamped_age(modified: int, now: int) -> int {
    if now >= modified {
        now - modified
    } else {
        0
    }
}

/// Seconds elapsed from `modified` to `now`, both in whole seconds since the
/// epoch. Clock skew (a modification after `now`) gives zero, never a
/// negative value or an error.
pub fn age_from(modified: u64, now: u64) -> (r: u64)
    ensures
        r == clamped_age(modified as int, now as int),
        modified > now ==> r == 0,
        r <= now,
{
    if now >= modified {
        now - modified
    } else {
        0
    }
}

/// Seconds since the modification time `modified`, by the system clock.
/// The modification time is converted first and the clock read after it; the
/// first failure is returned. A modification time after the clock's reading
/// gives age zero, not an error.
pub fn get_modified_age(modified: &SystemTime) -> (r: Result<u64, UtilError>)
    ensures
        r matches Err(e) ==> e == UtilError::ModifiedBeforeEpoch || e == UtilError::ClockBeforeEpoch,
        epoch_secs(*modified) is None <==> r == Err::<u64, UtilError>(UtilError::ModifiedBeforeEpoch),
        epoch_secs(*modified) matches Some(m) ==> exists|t: SystemTime|
            r == age_reading(m, #[trigger] now_reading(t)),
{
    let m = get_modified_utc_time(modified)?;
    let now_r = get_utc_now();
    let ghost t = choose|t: SystemTime| now_r == now_reading(t);
    let now = now_r?;
    let r = Ok(age_from(m, now));
    assert(r == age_reading(m, now_reading(t)));
    r
}

/// The age returned for a modification at `modified` seconds after the epoch,
/// given what the clock reader returned.
pub open spec fn age_reading(modified: u64, now: Result<u64, UtilError>) -> Result<u64, UtilError> {
    match now {
        Ok(n) => Ok(clamped_age(modified as int, n as int) as u64),
        Err(e) => Err(e),
    }
}

} // verus!
