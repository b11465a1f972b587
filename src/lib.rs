//! File and clock helpers: whole seconds since the epoch, and the age of a
//! modification time measured against the system clock.
pub mod age;
pub mod clock;
pub mod error;

pub use age::{age_from, get_modified_age};
pub use clock::{get_modified_utc_time, get_utc_now};
pub use error::UtilError;
