//! Attempts that are made again: how a failure is classed, and what follows
//! an attempt under a policy of exponential delays. The policy is that of
//! the `backoff` crate, whose answers depend on the time and on chance.

use crate::misc::Failure;
use vstd::prelude::*;

verus! {

/// A failed attempt: permanent, or transient and worth another attempt.
#[derive(Debug)]
pub enum Fault {
    Permanent(Failure),
    Transient(Failure),
}

/// `backoff::exponential::ExponentialBackoff`, a policy of growing delays.
#[verifier::external_type_specification]
#[verifier::external_body]
#[verifier::reject_recursive_types(C)]
pub struct ExExponentialBackoff<C>(::backoff::exponential::ExponentialBackoff<C>);

/// `backoff::SystemClock`, the clock of the machine.
#[verifier::external_type_specification]
#[verifier::external_body]
pub struct ExSystemClock(::backoff::SystemClock);

/// `ExponentialBackoff::default`: the policy as a new series of attempts
/// finds it, with its clock started.
#[verifier::external_body]
fn new_policy() -> (r: ::backoff::ExponentialBackoff) {
    ::backoff::ExponentialBackoff::default()
}

/// `Backoff::next_backoff`: the delay before the next attempt, or `None`
/// when the policy gives up. It depends on the time and on chance.
#[verifier::external_body]
fn next_backoff(policy: &mut ::backoff::ExponentialBackoff) -> (r: Option<core::time::Duration>) {
    ::backoff::backoff::Backoff::next_backoff(policy)
}

/// What follows an attempt.
pub enum Verdict<T> {
    /// The attempt succeeded.
    Done(T),
    /// The attempt failed for good.
    Fail(Failure),
    /// The attempt is made again after this delay.
    Wait(core::time::Duration),
}

/// What follows an attempt that ended with `outcome`, where `delay` is what
/// the policy gives: success ends the series, a permanent failure ends it,
/// and a transient one is tried again after the delay of the policy, and
/// ends the series where the policy gives none.
pub open spec fn verdict_of<T>(
    outcome: Result<T, Fault>,
    delay: Option<core::time::Duration>,
) -> Verdict<T> {
    match outcome {
        Ok(v) => Verdict::Done(v),
        Err(Fault::Permanent(e)) => Verdict::Fail(e),
        Err(Fault::Transient(e)) => match delay {
            Some(d) => Verdict::Wait(d),
            None => Verdict::Fail(e),
        },
    }
}

/// What follows an attempt that ended with `outcome`, `delay` being the
/// answer of the policy.
pub fn verdict<T>(outcome: Result<T, Fault>, delay: Option<core::time::Duration>) -> (r: Verdict<T>)
    ensures
        r == verdict_of(outcome, delay),
{
    match outcome {
        Ok(v) => Verdict::Done(v),
        Err(Fault::Permanent(e)) => Verdict::Fail(e),
        Err(Fault::Transient(e)) => match delay {
            Some(d) => Verdict::Wait(d),
            None => Verdict::Fail(e),
        },
    }
}

/// A series of attempts at one operation, under the default policy of
/// exponential delays.
pub struct Retry {
    policy: ::backoff::ExponentialBackoff,
}

impl Retry {
    /// A new series, under the default policy. The policy holds the time at
    /// which it was made, from which it counts how long the series has
    /// lasted; nothing else is known of it here.
    pub fn new() -> (r: Retry) {
        Retry { policy: new_policy() }
    }

    /// What follows an attempt that ended with `outcome`. The policy is
    /// asked only after a transient failure; whatever it answers, the
    /// verdict is the one that `verdict_of` gives for some answer.
    pub fn after<T>(&mut self, outcome: Result<T, Fault>) -> (r: Verdict<T>)
        ensures
            !(outcome matches Err(Fault::Transient(_))) ==> r == verdict_of(outcome, None),
            outcome matches Err(Fault::Transient(_)) ==> exists|delay: Option<core::time::Duration>|
                r == verdict_of(outcome, delay),
    {
        let ask = match &outcome {
            Err(Fault::Transient(_)) => true,
            _ => false,
        };
        if ask {
            let delay = next_backoff(&mut self.policy);
            let r = verdict(outcome, delay);
            assert(r == verdict_of(outcome, delay));
            r
        } else {
            verdict(outcome, None)
        }
    }
}

} // verus!
