//! Renewal decisions for time-limited consumable effects.
//!
//! A consumable (food, potion) grants an effect for a limited time and must
//! be renewed by a keystroke. The decision of *when* to renew is a pure
//! function of the last renewal time, the renewal interval, and the clock.

use vstd::prelude::*;

verus! {

/// Renewal policy over a raw timestamp, where a `last_renewed` of zero
/// stands for "never renewed this session".
///
/// A consumable never renewed is always due: the first cycle primes every
/// configured consumable. Otherwise it is due once strictly more time than
/// `interval` has passed since `last_renewed`; an interval of zero means
/// "due on every check".
pub open spec fn spec_is_due(last_renewed: u64, interval: u64, now: u64) -> bool {
    if last_renewed == 0 {
        true
    } else {
        now - last_renewed > interval
    }
}

/// Whether a consumable is due for renewal, under the raw-timestamp policy
/// of [`spec_is_due`].
pub fn is_due(last_renewed: u64, interval: u64, now: u64) -> (due: bool)
    ensures
        due == spec_is_due(last_renewed, interval, now),
{
    if last_renewed == 0 {
        true
    } else if now <= last_renewed {
        false
    } else {
        now - last_renewed > interval
    }
}

/// Renewal policy where "never renewed this session" is a state of its own
/// rather than a reserved timestamp, so that a renewal recorded at clock
/// value zero is still a renewal.
pub open spec fn spec_renewal_due(last_renewed: Option<u64>, interval: u64, now: u64) -> bool {
    match last_renewed {
        None => true,
        Some(t) => now - t > interval,
    }
}

/// Whether a consumable is due for renewal, under the policy of
/// [`spec_renewal_due`].
pub fn renewal_due(last_renewed: Option<u64>, interval: u64, now: u64) -> (due: bool)
    ensures
        due == spec_renewal_due(last_renewed, interval, now),
{
    match last_renewed {
        None => true,
        Some(t) => {
            if now <= t {
                false
            } else {
                now - t > interval
            }
        },
    }
}

/// Boundary behaviour of the due-ness decision: a consumable never renewed
/// is due at every clock value; one renewed at time `t` is not yet due when
/// exactly `interval` has elapsed, and is due one second later.
pub proof fn lemma_due_at_boundaries(t: u64, interval: u64, now: u64)
    requires
        1 <= t,
        t + interval + 1 <= u64::MAX,
    ensures
        spec_is_due(0, interval, now),
        !spec_is_due(t, interval, (t + interval) as u64),
        spec_is_due(t, interval, (t + interval + 1) as u64),
{
}

/// On timestamps actually recorded from a renewal (`t >= 1`), the two
/// policies agree.
pub proof fn lemma_policies_agree(t: u64, interval: u64, now: u64)
    requires
        1 <= t,
    ensures
        spec_renewal_due(Some(t), interval, now) == spec_is_due(t, interval, now),
{
}

} // verus!
