//! The timing guard: is the current time inside the authorization's
//! validity window?
//!
//! The window is half open: it holds its first second and not its last.
//! The time is always handed in, never read here.

use crate::payment::{PaymentAuthorization, PaymentAuthorizationView};
use crate::taxonomy::{
    ErrorReasonView, FacilitatorLocalError, FacilitatorLocalErrorView, TimingFault,
    stage_result_is,
};
use vstd::prelude::*;

verus! {

/// What the clock reported.
#[derive(Clone, Copy, Debug, PartialEq, Eq)]
pub enum ClockReport {
    /// The current time, in seconds since the epoch.
    At(u64),
    /// The clock could not be read.
    Unavailable,
}

/// Whether `now` lies in the window `[valid_after, valid_before)`.
pub open spec fn window_contains(valid_after: u64, valid_before: u64, now: u64) -> bool {
    valid_after <= now < valid_before
}

/// The failure of the timing check at time `now`, if it fails.
pub open spec fn timing_failure(authorization: PaymentAuthorizationView, now: u64) -> Option<
    FacilitatorLocalErrorView,
> {
    if window_contains(authorization.valid_after, authorization.valid_before, now) {
        None
    } else if now >= authorization.valid_before {
        Some(
            FacilitatorLocalErrorView::InvalidTiming {
                payer: authorization.payer,
                fault: TimingFault::Expired,
            },
        )
    } else {
        Some(
            FacilitatorLocalErrorView::InvalidTiming {
                payer: authorization.payer,
                fault: TimingFault::NotYetValid,
            },
        )
    }
}

/// The failure of the timing stage, if it fails. A clock that cannot be
/// read is a fault of the facilitator and never counts as an expired window.
pub open spec fn clock_failure(authorization: PaymentAuthorizationView, clock: ClockReport) -> Option<
    FacilitatorLocalErrorView,
> {
    match clock {
        ClockReport::At(now) => timing_failure(authorization, now),
        ClockReport::Unavailable => Some(FacilitatorLocalErrorView::ClockError),
    }
}

/// Checks that `now` lies in the validity window of `authorization`.
///
/// Succeeds exactly when `valid_after <= now < valid_before`.
pub fn check_timing(authorization: &PaymentAuthorization, now: u64) -> (result: Result<
    (),
    FacilitatorLocalError,
>)
    ensures
        stage_result_is(result, timing_failure(authorization@, now)),
        result is Ok <==> authorization.valid_after <= now < authorization.valid_before,
{
    let payer = authorization.payer;
    if now >= authorization.valid_before {
        Err(FacilitatorLocalError::InvalidTiming { payer, fault: TimingFault::Expired })
    } else if now < authorization.valid_after {
        Err(FacilitatorLocalError::InvalidTiming { payer, fault: TimingFault::NotYetValid })
    } else {
        Ok(())
    }
}

/// Checks the time that the clock reported against the validity window.
pub fn check_clock(authorization: &PaymentAuthorization, clock: &ClockReport) -> (result: Result<
    (),
    FacilitatorLocalError,
>)
    ensures
        stage_result_is(result, clock_failure(authorization@, *clock)),
{
    match clock {
        ClockReport::At(now) => check_timing(authorization, *now),
        ClockReport::Unavailable => Err(FacilitatorLocalError::ClockError),
    }
}

/// The window holds its first second, if it holds any, and never its last.
pub proof fn lemma_window_is_half_open(authorization: PaymentAuthorizationView)
    ensures
        authorization.valid_after < authorization.valid_before ==> timing_failure(
            authorization,
            authorization.valid_after,
        ) is None,
        timing_failure(authorization, authorization.valid_before) is Some,
        timing_failure(authorization, authorization.valid_before).unwrap().reason()
            == ErrorReasonView::InvalidTiming,
{
}

} // verus!
