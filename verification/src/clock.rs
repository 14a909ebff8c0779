//! Wall-clock readings for timestamps and timing metadata.
use vstd::prelude::*;

verus! {

/// Relies on `std::time::SystemTime::now` and `SystemTime::duration_since`:
/// whole seconds since the Unix epoch, 0 if the clock reads before the epoch.
/// Nothing is assumed of the value: it is a clock reading.
#[verifier::external_body]
pub(crate) fn now_unix_secs() -> u64 {
    std::time::SystemTime::now()
        .duration_since(std::time::UNIX_EPOCH)
        .map(|d| d.as_secs())
        .unwrap_or(0)
}

/// Relies on `std::time::SystemTime::now` and `SystemTime::duration_since`:
/// whole milliseconds since the Unix epoch (saturated to `u64`), 0 if the
/// clock reads before the epoch. Nothing is assumed of the value.
#[verifier::external_body]
pub(crate) fn now_unix_millis() -> u64 {
    std::time::SystemTime::now()
        .duration_since(std::time::UNIX_EPOCH)
        .map(|d| u64::try_from(d.as_millis()).unwrap_or(u64::MAX))
        .unwrap_or(0)
}

} // verus!
