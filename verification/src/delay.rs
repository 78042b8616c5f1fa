//! Delays requested in nanoseconds are carried out by a timer that counts
//! whole microseconds, so the request is rounded up to the next microsecond.
use vstd::prelude::*;

verus! {

/// Nanoseconds in one microsecond.
pub const NANOS_PER_MICRO: u32 = 1000;

/// The least number of whole microseconds that lasts at least `ns` nanoseconds.
pub open spec fn micros_covering(ns: nat) -> nat {
    if ns % 1000 == 0 {
        ns / 1000
    } else {
        ns / 1000 + 1
    }
}

/// Rounds a delay of `ns` nanoseconds up to whole microseconds.
pub fn delay_ns_to_us(ns: u32) -> (us: u32)
    ensures
        us == micros_covering(ns as nat),
        us * 1000 >= ns,
        us == 0 || (us - 1) * 1000 < ns,
{
    let us: u32 = ns / NANOS_PER_MICRO + if ns % NANOS_PER_MICRO == 0 {
        0
    } else {
        1
    };
    us
}

} // verus!

verus! {

/// Rounding never shortens a delay and never lengthens it by a whole
/// microsecond: the result is the least count of microseconds covering `ns`.
pub proof fn lemma_covering_is_least(ns: nat, us: nat)
    requires
        us * 1000 >= ns,
    ensures
        micros_covering(ns) * 1000 >= ns,
        micros_covering(ns) <= us,
{
}

/// A delay that is a whole number of microseconds is kept exactly.
pub proof fn lemma_whole_micros_exact(k: nat)
    ensures
        micros_covering(k * 1000) == k,
{
}

/// A longer request never yields a shorter delay.
pub proof fn lemma_covering_monotonic(ns1: nat, ns2: nat)
    requires
        ns1 <= ns2,
    ensures
        micros_covering(ns1) <= micros_covering(ns2),
{
}

} // verus!
