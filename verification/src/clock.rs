//! The monotonic clock, as the classifier reads it: nanoseconds in a `u64`.

use vstd::prelude::*;

verus! {

/// Nanoseconds in a second.
pub const NS_PER_SEC: u64 = 1_000_000_000;

/// The nanoseconds that `tv_sec` seconds and `tv_nsec` nanoseconds make.
pub open spec fn spec_monotonic_ns(tv_sec: i64, tv_nsec: i64) -> int {
    tv_sec * NS_PER_SEC + tv_nsec
}

/// A reading of the monotonic clock in nanoseconds; `None` for a reading
/// with a negative part or one that does not fit in a `u64`.
pub fn monotonic_ns(tv_sec: i64, tv_nsec: i64) -> (r: Option<u64>)
    ensures
        r is Some <==> tv_sec >= 0 && tv_nsec >= 0 && spec_monotonic_ns(tv_sec, tv_nsec)
            <= u64::MAX,
        r is Some ==> r->0 == spec_monotonic_ns(tv_sec, tv_nsec),
{
    if tv_sec < 0 || tv_nsec < 0 {
        return None;
    }
    let sec: u64 = tv_sec as u64;
    let nsec: u64 = tv_nsec as u64;
    match sec.checked_mul(NS_PER_SEC) {
        Some(ns) => ns.checked_add(nsec),
        None => None,
    }
}

} // verus!
