//! Points in time, as nanoseconds since 1970.

use vstd::prelude::*;

verus! {

/// Nanoseconds in a second.
pub const NANOS_PER_SEC: u128 = 1_000_000_000;

/// The last point in time that the clock may show. Behind it there is room for any
/// number of seconds.
pub const LATEST: u128 = 0x8000_0000_0000_0000_0000_0000_0000_0000;

/// What was stored at one time is at another not older than a number of seconds:
/// the clock has not gone back behind the storing, and less than those seconds
/// have passed.
pub open spec fn is_fresh(stored_at: nat, now: nat, secs: nat) -> bool {
    stored_at <= now && now - stored_at < secs * 1_000_000_000
}

/// Whether what was stored is younger than a number of seconds.
pub fn still_fresh(stored_at: u128, now: u128, secs: u64) -> (r: bool)
    ensures
        r == is_fresh(stored_at as nat, now as nat, secs as nat),
{
    stored_at <= now && now - stored_at < secs as u128 * NANOS_PER_SEC
}

/// The time a number of seconds behind another.
pub open spec fn later_by(now: nat, secs: nat) -> nat {
    now + secs * 1_000_000_000
}

/// The point in time a number of seconds from now.
pub fn seconds_from(now: u128, secs: u64) -> (r: u128)
    requires
        now <= LATEST,
    ensures
        r == later_by(now as nat, secs as nat),
{
    now + secs as u128 * NANOS_PER_SEC
}

/// What was stored is fresh from then on, for as many seconds as it may be and no
/// longer; and never on a clock that went back behind the storing.
pub proof fn freshness_lasts_so_many_seconds(stored_at: nat, age: nat, secs: nat, earlier: nat)
    requires
        earlier < stored_at,
    ensures
        is_fresh(stored_at, stored_at + age, secs) <==> age < secs * 1_000_000_000,
        !is_fresh(stored_at, earlier, secs),
{
}

/// Seconds add up, and each has a thousand million nanoseconds.
pub proof fn seconds_add_up(now: nat, a: nat, b: nat)
    ensures
        later_by(later_by(now, a), b) == later_by(now, a + b),
        later_by(now, 1) == now + 1_000_000_000,
        later_by(now, 0) == now,
{
}

} // verus!
