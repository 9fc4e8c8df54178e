//! Wall-clock access and timestamp formatting.
//!
//! Timestamps are carried through the whole library as plain `i64` values:
//! non-leap seconds since the Unix epoch. The two `external_body` functions
//! here are the only places where an outside crate or the system clock is
//! consulted; everything downstream works on the integers alone.

use vstd::prelude::*;

verus! {

/// Smallest timestamp a `chrono::DateTime<Utc>` can carry
/// (midnight, January 1 of year -262143).
pub const MIN_TS: i64 = -8334601228800;

/// Largest timestamp a `chrono::DateTime<Utc>` can carry
/// (23:59:59, December 31 of year 262142).
pub const MAX_TS: i64 = 8210266876799;

/// A timestamp that chrono can both produce and format back.
pub open spec fn valid_ts(t: i64) -> bool {
    MIN_TS <= t <= MAX_TS
}

/// Relies on `std::time::SystemTime::now`,
/// `SystemTime::duration_since(UNIX_EPOCH)`, `Duration::as_secs` and
/// `SystemTimeError::duration`: the distance of the system clock from the
/// Unix epoch in whole seconds — `Ok` when the clock reads at or after the
/// epoch, `Err` with the magnitude when it reads before. Both arms come
/// straight from std's own `Result`, so no clock state can make this
/// panic; nothing can be promised of the value itself.
#[verifier::external_body]
fn clock_offset_seconds() -> (r: Result<u64, u64>) {
    match std::time::SystemTime::now().duration_since(std::time::UNIX_EPOCH) {
        Ok(d) => Ok(d.as_secs()),
        Err(e) => Err(e.duration().as_secs()),
    }
}

/// The present moment as a timestamp the rest of the library can hold:
/// a clock before the epoch reads as the epoch itself, and one beyond the
/// far end of chrono's range reads as that end. Within the range — every
/// real clock — the reading is passed through unchanged.
pub fn now_seconds() -> (r: i64)
    ensures
        valid_ts(r),
{
    match clock_offset_seconds() {
        Ok(s) => if s > MAX_TS as u64 {
            MAX_TS
        } else {
            s as i64
        },
        Err(_) => 0,
    }
}

/// The text that chrono renders for the given second, in the fixed
/// `%Y-%m-%d %H:%M:%S UTC` layout. The rendering depends on the argument
/// alone, so it is only given a name here.
pub uninterp spec fn format_utc_of(secs: i64) -> Seq<char>;

/// Relies on `chrono::DateTime::from_timestamp`, which returns `Some` for
/// every second this function admits (the `None` arm is out of reach), and
/// on `DateTime::format` with a fixed, locale-independent layout, whose
/// output is a function of the timestamp alone. No input can make the
/// body panic.
#[verifier::external_body]
pub fn format_timestamp(secs: i64) -> (r: String)
    requires
        valid_ts(secs),
    ensures
        r@ == format_utc_of(secs),
{
    match chrono::DateTime::<chrono::Utc>::from_timestamp(secs, 0) {
        Some(dt) => dt.format("%Y-%m-%d %H:%M:%S UTC").to_string(),
        None => String::new(),
    }
}

} // verus!
