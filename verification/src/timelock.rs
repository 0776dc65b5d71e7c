//! The execution window shared by transactions and buffers: not before the
//! execution time, not after the grace period that follows it.
use vstd::prelude::*;

verus! {

/// The execution time that stands for "no timelock". It is no timestamp.
pub const NO_ETA: i64 = -1;

/// The value of an execution timestamp while nothing has been executed. It is no timestamp.
pub const NOT_EXECUTED: i64 = -1;

/// A timestamp of the host's clock: seconds, never negative.
pub open spec fn is_timestamp(t: i64) -> bool {
    t >= 0
}

/// An execution time may be proposed at `now` if it is the no-timelock value
/// or leaves at least the minimum delay.
pub open spec fn eta_allowed(eta: i64, minimum_delay: i64, now: i64) -> bool {
    eta == NO_ETA || eta >= now + minimum_delay
}

/// The timelock no longer holds execution back.
pub open spec fn eta_reached(eta: i64, now: i64) -> bool {
    eta == NO_ETA || now >= eta
}

/// The grace period after the execution time has passed.
pub open spec fn expired(eta: i64, grace_period: i64, now: i64) -> bool {
    eta != NO_ETA && now > eta + grace_period
}

/// Tells whether `eta` may be proposed at `now`.
pub fn is_eta_allowed(eta: i64, minimum_delay: i64, now: i64) -> (r: bool)
    ensures
        r == eta_allowed(eta, minimum_delay, now),
{
    eta == NO_ETA || eta as i128 >= now as i128 + minimum_delay as i128
}

/// Tells whether the timelock has run out at `now`.
pub fn is_eta_reached(eta: i64, now: i64) -> (r: bool)
    ensures
        r == eta_reached(eta, now),
{
    eta == NO_ETA || now >= eta
}

/// Tells whether the grace period has passed at `now`.
pub fn is_expired(eta: i64, grace_period: i64, now: i64) -> (r: bool)
    ensures
        r == expired(eta, grace_period, now),
{
    eta != NO_ETA && now as i128 > eta as i128 + grace_period as i128
}

} // verus!
