//! The requirements matcher: does the authorization offer what the
//! requirements ask for?
//!
//! The checks run in a fixed order and the first one that fails decides:
//! scheme, network, recipient, value.

use crate::payment::{
    PaymentAuthorization, PaymentAuthorizationView, PaymentRequirements, PaymentRequirementsView,
};
use crate::registry::{SupportedEntryView, SupportedRegistry, supports};
use crate::taxonomy::{FacilitatorLocalError, FacilitatorLocalErrorView, stage_result_is};
use crate::text::text_eq;
use vstd::prelude::*;

verus! {

/// The first check that `authorization` fails against `requirements`, if any.
///
/// 1. The schemes are equal, else `SchemeMismatch`.
/// 2. The pair of scheme and network that is asked for is one that
///    `entries` accepts, else `UnsupportedNetwork`; and the networks are
///    equal, else `NetworkMismatch`.
/// 3. The recipients are equal, else `ReceiverMismatch`.
/// 4. The authorized amount is at least the amount asked for, else
///    `InsufficientValue`.
///
/// Each failure names the payer that the authorization claims.
pub open spec fn match_failure(
    entries: Seq<SupportedEntryView>,
    requirements: PaymentRequirementsView,
    authorization: PaymentAuthorizationView,
) -> Option<FacilitatorLocalErrorView> {
    let payer = authorization.payer;
    if authorization.scheme != requirements.scheme {
        Some(
            FacilitatorLocalErrorView::SchemeMismatch {
                payer: Some(payer),
                expected: requirements.scheme,
                actual: authorization.scheme,
            },
        )
    } else if !supports(entries, requirements.scheme, requirements.network) {
        Some(FacilitatorLocalErrorView::UnsupportedNetwork { payer: Some(payer) })
    } else if authorization.network != requirements.network {
        Some(
            FacilitatorLocalErrorView::NetworkMismatch {
                payer: Some(payer),
                expected: requirements.network,
                actual: authorization.network,
            },
        )
    } else if authorization.recipient != requirements.recipient {
        Some(
            FacilitatorLocalErrorView::ReceiverMismatch {
                payer,
                expected: requirements.recipient,
                actual: authorization.recipient,
            },
        )
    } else if authorization.amount < requirements.minimum_amount {
        Some(FacilitatorLocalErrorView::InsufficientValue { payer })
    } else {
        None
    }
}

/// Holds `authorization` against `requirements`.
///
/// Succeeds exactly when no check fails, and otherwise reports the first
/// check that does. The amounts are compared as 256-bit numbers, limb by
/// limb, so the comparison is exact up to the largest amount.
pub fn match_requirements(
    registry: &SupportedRegistry,
    requirements: &PaymentRequirements,
    authorization: &PaymentAuthorization,
) -> (result: Result<(), FacilitatorLocalError>)
    ensures
        stage_result_is(result, match_failure(registry@, requirements@, authorization@)),
{
    let payer = authorization.payer;
    if !text_eq(authorization.scheme.as_str(), requirements.scheme.as_str()) {
        return Err(
            FacilitatorLocalError::SchemeMismatch {
                payer: Some(payer),
                expected: requirements.scheme.clone(),
                actual: authorization.scheme.clone(),
            },
        );
    }
    if !registry.is_supported(requirements.scheme.as_str(), requirements.network.as_str()) {
        return Err(FacilitatorLocalError::UnsupportedNetwork { payer: Some(payer) });
    }
    if !text_eq(authorization.network.as_str(), requirements.network.as_str()) {
        return Err(
            FacilitatorLocalError::NetworkMismatch {
                payer: Some(payer),
                expected: requirements.network.clone(),
                actual: authorization.network.clone(),
            },
        );
    }
    if !authorization.recipient.same(&requirements.recipient) {
        return Err(
            FacilitatorLocalError::ReceiverMismatch {
                payer,
                expected: requirements.recipient,
                actual: authorization.recipient,
            },
        );
    }
    if !authorization.amount.at_least(&requirements.minimum_amount) {
        return Err(FacilitatorLocalError::InsufficientValue { payer });
    }
    Ok(())
}

} // verus!
